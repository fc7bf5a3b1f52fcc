use nih_plug_druid::win32_style::{
    child_window_ex_style, child_window_style, CHILD_STYLE, TOP_LEVEL_EX_STYLE, TOP_LEVEL_STYLE,
    WS_CAPTION, WS_CHILD, WS_CLIPCHILDREN, WS_CLIPSIBLINGS, WS_EX_APPWINDOW, WS_EX_NOACTIVATE,
    WS_EX_TOOLWINDOW, WS_OVERLAPPEDWINDOW, WS_POPUP, WS_SYSMENU, WS_THICKFRAME, WS_VISIBLE,
};
use windows_sys::Win32::UI::WindowsAndMessaging as wm;

#[test]
fn style_constants_match_win32() {
    assert_eq!(WS_POPUP, wm::WS_POPUP);
    assert_eq!(WS_OVERLAPPEDWINDOW, wm::WS_OVERLAPPEDWINDOW);
    assert_eq!(WS_CAPTION, wm::WS_CAPTION);
    assert_eq!(WS_THICKFRAME, wm::WS_THICKFRAME);
    assert_eq!(WS_SYSMENU, wm::WS_SYSMENU);
    assert_eq!(WS_CHILD, wm::WS_CHILD);
    assert_eq!(WS_VISIBLE, wm::WS_VISIBLE);
    assert_eq!(WS_CLIPCHILDREN, wm::WS_CLIPCHILDREN);
    assert_eq!(WS_CLIPSIBLINGS, wm::WS_CLIPSIBLINGS);
    assert_eq!(WS_EX_APPWINDOW, wm::WS_EX_APPWINDOW);
    assert_eq!(WS_EX_TOOLWINDOW, wm::WS_EX_TOOLWINDOW);
    assert_eq!(WS_EX_NOACTIVATE, wm::WS_EX_NOACTIVATE);
}

#[test]
fn combined_masks_have_expected_values() {
    assert_eq!(TOP_LEVEL_STYLE, 0x80CF_0000);
    assert_eq!(CHILD_STYLE, 0x5600_0000);
    assert_eq!(TOP_LEVEL_EX_STYLE, 0x0804_0080);
}

#[test]
fn overlapped_window_becomes_child() {
    let style = wm::WS_OVERLAPPEDWINDOW | wm::WS_VISIBLE;
    assert_eq!(child_window_style(style), 0x5600_0000);
}

#[test]
fn popup_window_becomes_child_and_keeps_other_bits() {
    // WS_DISABLED and WS_MINIMIZE are neither top-level nor child bits.
    let style = wm::WS_POPUP | wm::WS_DISABLED | wm::WS_MINIMIZE;
    let child = child_window_style(style);
    assert_eq!(child, wm::WS_DISABLED | wm::WS_MINIMIZE | CHILD_STYLE);
    assert_eq!(child & TOP_LEVEL_STYLE, 0);
    assert_eq!(child & CHILD_STYLE, CHILD_STYLE);
}

#[test]
fn child_style_is_idempotent() {
    for style in [0u32, u32::MAX, 0x80CF_0000, 0x1234_5678, 0xDEAD_BEEF] {
        let once = child_window_style(style);
        assert_eq!(child_window_style(once), once);
        let ex_once = child_window_ex_style(style);
        assert_eq!(child_window_ex_style(ex_once), ex_once);
    }
}

#[test]
fn ex_style_drops_only_top_level_bits() {
    let ex = wm::WS_EX_APPWINDOW | wm::WS_EX_TOOLWINDOW | wm::WS_EX_NOACTIVATE | wm::WS_EX_TOPMOST;
    assert_eq!(child_window_ex_style(ex), wm::WS_EX_TOPMOST);
    assert_eq!(child_window_ex_style(0), 0);
    assert_eq!(child_window_ex_style(u32::MAX), !0x0804_0080u32);
}
