//! Window style bits that turn the editor's top-level Win32 window into a
//! child window embedded in the host's window.
use vstd::prelude::*;

verus! {

/// `WS_POPUP`: the window is a pop-up window.
pub const WS_POPUP: u32 = 0x8000_0000;

/// `WS_OVERLAPPEDWINDOW`: title bar, border, system menu and sizing frame.
pub const WS_OVERLAPPEDWINDOW: u32 = 0x00CF_0000;

/// `WS_CAPTION`: the window has a title bar.
pub const WS_CAPTION: u32 = 0x00C0_0000;

/// `WS_THICKFRAME`: the window has a sizing border.
pub const WS_THICKFRAME: u32 = 0x0004_0000;

/// `WS_SYSMENU`: the window has a window menu on its title bar.
pub const WS_SYSMENU: u32 = 0x0008_0000;

/// `WS_CHILD`: the window is a child window.
pub const WS_CHILD: u32 = 0x4000_0000;

/// `WS_VISIBLE`: the window is initially visible.
pub const WS_VISIBLE: u32 = 0x1000_0000;

/// `WS_CLIPCHILDREN`: drawing in the parent excludes the area of its children.
pub const WS_CLIPCHILDREN: u32 = 0x0200_0000;

/// `WS_CLIPSIBLINGS`: child windows clip each other.
pub const WS_CLIPSIBLINGS: u32 = 0x0400_0000;

/// `WS_EX_APPWINDOW`: forces a top-level window onto the taskbar.
pub const WS_EX_APPWINDOW: u32 = 0x0004_0000;

/// `WS_EX_TOOLWINDOW`: the window is a floating tool window.
pub const WS_EX_TOOLWINDOW: u32 = 0x0000_0080;

/// `WS_EX_NOACTIVATE`: clicking the window does not make it the foreground window.
pub const WS_EX_NOACTIVATE: u32 = 0x0800_0000;

/// The style bits of a top-level window that an embedded child must not carry.
pub const TOP_LEVEL_STYLE: u32 = WS_POPUP | WS_OVERLAPPEDWINDOW | WS_CAPTION | WS_THICKFRAME
    | WS_SYSMENU;

/// The style bits that every embedded child window carries.
pub const CHILD_STYLE: u32 = WS_CHILD | WS_VISIBLE | WS_CLIPCHILDREN | WS_CLIPSIBLINGS;

/// The extended style bits that keep a window out of the taskbar's and the
/// activation's way as a top-level window; an embedded child drops them.
pub const TOP_LEVEL_EX_STYLE: u32 = WS_EX_APPWINDOW | WS_EX_TOOLWINDOW | WS_EX_NOACTIVATE;

/// The numeric values of the combined masks.
pub proof fn lemma_style_masks()
    ensures
        TOP_LEVEL_STYLE == 0x80CF_0000u32,
        CHILD_STYLE == 0x5600_0000u32,
        TOP_LEVEL_EX_STYLE == 0x0804_0080u32,
{
    assert(0x8000_0000u32 | 0x00CF_0000u32 | 0x00C0_0000u32 | 0x0004_0000u32 | 0x0008_0000u32
        == 0x80CF_0000u32) by (bit_vector);
    assert(0x4000_0000u32 | 0x1000_0000u32 | 0x0200_0000u32 | 0x0400_0000u32 == 0x5600_0000u32)
        by (bit_vector);
    assert(0x0004_0000u32 | 0x0000_0080u32 | 0x0800_0000u32 == 0x0804_0080u32) by (bit_vector);
}

/// Whether bit `bit` (counted from the least significant) is set in `x`.
pub open spec fn has_bit(x: u32, bit: u32) -> bool {
    (x >> bit) & 1u32 == 1u32
}

/// The style of the embedded child: each bit is set exactly when it is a
/// child-window bit, or it was set before and is not a top-level bit.
pub open spec fn child_style_spec(style: u32) -> u32 {
    (style & !TOP_LEVEL_STYLE) | CHILD_STYLE
}

/// The extended style of the embedded child: the old one without the
/// top-level extended bits.
pub open spec fn child_ex_style_spec(ex_style: u32) -> u32 {
    ex_style & !TOP_LEVEL_EX_STYLE
}

/// The window style to give the editor's window once it is embedded in the
/// host's window, given the style it had as a top-level window.
pub fn child_window_style(style: u32) -> (r: u32)
    ensures
        r == child_style_spec(style),
        forall|bit: u32|
            bit < 32 ==> (has_bit(r, bit) <==> (has_bit(CHILD_STYLE, bit) || (has_bit(style, bit)
                && !has_bit(TOP_LEVEL_STYLE, bit)))),
{
    let r = (style & !TOP_LEVEL_STYLE) | CHILD_STYLE;
    proof {
        lemma_style_masks();
    }
    assert forall|bit: u32| bit < 32 implies (has_bit(r, bit) <==> (has_bit(CHILD_STYLE, bit) || (
    has_bit(style, bit) && !has_bit(TOP_LEVEL_STYLE, bit)))) by {
        assert(bit < 32 ==> ((((style & !0x80CF_0000u32) | 0x5600_0000u32) >> bit) & 1u32 == 1u32
            <==> ((0x5600_0000u32 >> bit) & 1u32 == 1u32 || ((style >> bit) & 1u32 == 1u32 && !((
        0x80CF_0000u32 >> bit) & 1u32 == 1u32))))) by (bit_vector);
    }
    r
}

/// The extended window style to give the editor's window once it is embedded
/// in the host's window, given the extended style it had as a top-level window.
pub fn child_window_ex_style(ex_style: u32) -> (r: u32)
    ensures
        r == child_ex_style_spec(ex_style),
        forall|bit: u32|
            bit < 32 ==> (has_bit(r, bit) <==> (has_bit(ex_style, bit) && !has_bit(
                TOP_LEVEL_EX_STYLE,
                bit,
            ))),
{
    let r = ex_style & !TOP_LEVEL_EX_STYLE;
    proof {
        lemma_style_masks();
    }
    assert forall|bit: u32| bit < 32 implies (has_bit(r, bit) <==> (has_bit(ex_style, bit)
        && !has_bit(TOP_LEVEL_EX_STYLE, bit))) by {
        assert(bit < 32 ==> (((ex_style & !0x0804_0080u32) >> bit) & 1u32 == 1u32 <==> ((ex_style
            >> bit) & 1u32 == 1u32 && !((0x0804_0080u32 >> bit) & 1u32 == 1u32)))) by (bit_vector);
    }
    r
}

/// An embedded window carries every child-window bit and no top-level bit.
pub proof fn lemma_child_style_is_child(style: u32)
    ensures
        child_style_spec(style) & CHILD_STYLE == CHILD_STYLE,
        child_style_spec(style) & TOP_LEVEL_STYLE == 0,
{
    lemma_style_masks();
    assert(((style & !0x80CF_0000u32) | 0x5600_0000u32) & 0x5600_0000u32 == 0x5600_0000u32)
        by (bit_vector);
    assert(((style & !0x80CF_0000u32) | 0x5600_0000u32) & 0x80CF_0000u32 == 0u32) by (bit_vector);
}

/// Embedding a window that is already embedded leaves its style as it is.
pub proof fn lemma_child_style_idempotent(style: u32)
    ensures
        child_style_spec(child_style_spec(style)) == child_style_spec(style),
        child_ex_style_spec(child_ex_style_spec(style)) == child_ex_style_spec(style),
{
    lemma_style_masks();
    assert((((style & !0x80CF_0000u32) | 0x5600_0000u32) & !0x80CF_0000u32) | 0x5600_0000u32 == (
    style & !0x80CF_0000u32) | 0x5600_0000u32) by (bit_vector);
    assert((style & !0x0804_0080u32) & !0x0804_0080u32 == style & !0x0804_0080u32) by (bit_vector);
}

/// The embedded window's extended style carries none of the top-level
/// extended bits and keeps every other bit it had.
pub proof fn lemma_child_ex_style_clears_only_top_level(ex_style: u32)
    ensures
        child_ex_style_spec(ex_style) & TOP_LEVEL_EX_STYLE == 0,
        child_ex_style_spec(ex_style) | (ex_style & TOP_LEVEL_EX_STYLE) == ex_style,
{
    lemma_style_masks();
    assert((ex_style & !0x0804_0080u32) & 0x0804_0080u32 == 0u32) by (bit_vector);
    assert((ex_style & !0x0804_0080u32) | (ex_style & 0x0804_0080u32) == ex_style) by (bit_vector);
}

/// In numbers: the embedded style has the child bits `0x5600_0000` set, the
/// top-level bits `0x80CF_0000` clear, and every other bit as before; the
/// embedded extended style has `0x0804_0080` clear and every other bit as
/// before.
pub proof fn lemma_child_style_bits(style: u32, ex_style: u32)
    ensures
        child_style_spec(style) & 0x5600_0000u32 == 0x5600_0000u32,
        child_style_spec(style) & 0x80CF_0000u32 == 0u32,
        child_style_spec(style) & 0x2930_FFFFu32 == style & 0x2930_FFFFu32,
        child_ex_style_spec(ex_style) & 0x0804_0080u32 == 0u32,
        child_ex_style_spec(ex_style) & 0xF7FB_FF7Fu32 == ex_style & 0xF7FB_FF7Fu32,
{
    lemma_style_masks();
    assert(((style & !0x80CF_0000u32) | 0x5600_0000u32) & 0x5600_0000u32 == 0x5600_0000u32)
        by (bit_vector);
    assert(((style & !0x80CF_0000u32) | 0x5600_0000u32) & 0x80CF_0000u32 == 0u32) by (bit_vector);
    assert(((style & !0x80CF_0000u32) | 0x5600_0000u32) & 0x2930_FFFFu32 == style & 0x2930_FFFFu32)
        by (bit_vector);
    assert((ex_style & !0x0804_0080u32) & 0x0804_0080u32 == 0u32) by (bit_vector);
    assert((ex_style & !0x0804_0080u32) & 0xF7FB_FF7Fu32 == ex_style & 0xF7FB_FF7Fu32)
        by (bit_vector);
}

} // verus!
