use nih_plug_druid::window_match::{
    is_druid_class_name, mentions_druid, pick_druid_window, plan_reparent, x11_candidates, Reparent,
};

#[test]
fn appkit_class_names() {
    assert!(is_druid_class_name(b"DruidWindow"));
    assert!(is_druid_class_name(b"MyDruidPanel"));
    assert!(is_druid_class_name(b"Druid"));
    assert!(!is_druid_class_name(b"NSWindow"));
    assert!(!is_druid_class_name(b"druidwindow"));
    assert!(!is_druid_class_name(b"Drui"));
    assert!(!is_druid_class_name(b"DruiD"));
    assert!(!is_druid_class_name(b""));
}

#[test]
fn x11_class_hints_ignore_case() {
    assert!(mentions_druid(b"druid"));
    assert!(mentions_druid(b"DRUID-app"));
    assert!(mentions_druid(b"xdRuIdy"));
    assert!(mentions_druid(b"gain_gui_druid"));
    assert!(!mentions_druid(b"drui"));
    assert!(!mentions_druid(b"dr uid"));
    assert!(!mentions_druid(b""));
    assert!(!mentions_druid(b"Bitwig Studio"));
}

#[test]
fn x11_candidates_newest_first_without_parent_and_old_windows() {
    let windows = [1u64, 2, 3, 4, 5];
    assert_eq!(x11_candidates(&windows, 3, &[1, 4]), vec![5, 2]);
    assert_eq!(x11_candidates(&windows, 99, &[]), vec![5, 4, 3, 2, 1]);
    assert_eq!(x11_candidates(&windows, 5, &[1, 2, 3, 4]), Vec::<u64>::new());
    assert_eq!(x11_candidates(&[], 5, &[1]), Vec::<u64>::new());
}

#[test]
fn x11_candidates_keep_duplicates_in_order() {
    assert_eq!(x11_candidates(&[7, 8, 7], 0, &[8]), vec![7, 7]);
}

#[test]
fn pick_frontmost_druid_window() {
    let names = vec![
        Some(b"NSWindow".to_vec()),
        Some(b"DruidWindow".to_vec()),
        None,
        Some(b"SomeDruidThing".to_vec()),
        Some(b"NSPanel".to_vec()),
    ];
    assert_eq!(pick_druid_window(&names), Some(3));
}

#[test]
fn pick_none_when_no_druid_window() {
    let names = vec![Some(b"NSWindow".to_vec()), None, Some(b"druid".to_vec())];
    assert_eq!(pick_druid_window(&names), None);
    assert_eq!(pick_druid_window(&Vec::new()), None);
}

#[test]
fn reparent_refuses_host_window_and_detaches_from_others() {
    assert_eq!(plan_reparent(10, 10, 0), Reparent::RefuseHostWindow);
    assert_eq!(plan_reparent(10, 20, 0), Reparent::Attach { detach_first: false });
    assert_eq!(plan_reparent(10, 20, 20), Reparent::Attach { detach_first: false });
    assert_eq!(plan_reparent(10, 20, 30), Reparent::Attach { detach_first: true });
}
