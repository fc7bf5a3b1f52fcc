use nih_plug_druid::scale::ScaleTracker;

#[test]
fn accepted_resize_applies_requested_scale() {
    let mut t = ScaleTracker::new(1.0f64);
    let s = t.settle_resize(1.0, 1.5, true);
    assert_eq!(s.store, None);
    assert!(s.reconfigure);
    assert_eq!(t.last_applied, 1.5);
}

#[test]
fn refused_resize_restores_previous_scale() {
    let mut t = ScaleTracker::new(2.0f64);
    let s = t.settle_resize(1.25, 3.0, false);
    assert_eq!(s.store, Some(1.25));
    assert!(!s.reconfigure);
    assert_eq!(t.last_applied, 1.25);
}

#[test]
fn accepted_sync_follows_outside_change() {
    let mut t = ScaleTracker::new(1u32);
    let s = t.settle_sync(2, true);
    assert_eq!(s.store, None);
    assert!(s.reconfigure);
    assert_eq!(t.last_applied, 2);
}

#[test]
fn refused_sync_writes_back_last_applied() {
    let mut t = ScaleTracker::new(1u32);
    let s = t.settle_sync(2, false);
    assert_eq!(s.store, Some(1));
    assert!(!s.reconfigure);
    assert_eq!(t.last_applied, 1);
}

#[test]
fn shared_scale_matches_last_applied_after_settlement() {
    for accepted in [false, true] {
        let mut t = ScaleTracker::new(10i32);
        let s = t.settle_resize(10, 20, accepted);
        assert_eq!(s.store.unwrap_or(20), t.last_applied);
        let s = t.settle_sync(30, accepted);
        assert_eq!(s.store.unwrap_or(30), t.last_applied);
    }
}
