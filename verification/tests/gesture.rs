use nih_plug_druid::gesture::{plan_event, Capture, EventKind, EventPlan, Forwarding};

fn all_kinds() -> [EventKind; 6] {
    [
        EventKind::Press,
        EventKind::Move,
        EventKind::Release,
        EventKind::Wheel,
        EventKind::WindowResize,
        EventKind::Other,
    ]
}

#[test]
fn press_on_handle_starts_drag() {
    let p = plan_event(false, EventKind::Press, true);
    assert_eq!(
        p,
        EventPlan {
            drag_active: true,
            record_drag_start: true,
            resize_to_pointer: false,
            capture: Capture::Take,
            resize_cursor: false,
            handled: true,
            repaint: true,
            forwarding: Forwarding::Withheld,
        }
    );
}

#[test]
fn press_elsewhere_goes_to_child_scaled() {
    let p = plan_event(false, EventKind::Press, false);
    assert!(!p.drag_active && !p.handled);
    assert_eq!(p.forwarding, Forwarding::Scaled);
    assert_eq!(p.capture, Capture::Keep);
}

#[test]
fn move_during_drag_resizes() {
    let p = plan_event(true, EventKind::Move, false);
    assert!(p.drag_active && p.resize_to_pointer && p.handled && !p.repaint);
    assert_eq!(p.forwarding, Forwarding::Withheld);
}

#[test]
fn move_over_handle_shows_cursor_and_forwards() {
    let p = plan_event(false, EventKind::Move, true);
    assert!(p.resize_cursor && !p.handled && !p.drag_active);
    assert_eq!(p.forwarding, Forwarding::Scaled);
    let q = plan_event(false, EventKind::Move, false);
    assert!(!q.resize_cursor);
}

#[test]
fn release_ends_drag() {
    let p = plan_event(true, EventKind::Release, true);
    assert!(!p.drag_active && p.handled && p.repaint);
    assert_eq!(p.capture, Capture::Give);
    let q = plan_event(false, EventKind::Release, true);
    assert!(!q.drag_active && !q.handled);
    assert_eq!(q.forwarding, Forwarding::Scaled);
}

#[test]
fn other_events_pass_unchanged() {
    for drag in [false, true] {
        let p = plan_event(drag, EventKind::Other, true);
        assert_eq!(p.forwarding, Forwarding::Unchanged);
        assert_eq!(p.drag_active, drag);
        let w = plan_event(drag, EventKind::Wheel, true);
        assert_eq!(w.forwarding, Forwarding::Scaled);
        let r = plan_event(drag, EventKind::WindowResize, false);
        assert_eq!(r.forwarding, Forwarding::Scaled);
    }
}

#[test]
fn handled_exactly_when_withheld() {
    for drag in [false, true] {
        for kind in all_kinds() {
            for in_handle in [false, true] {
                let p = plan_event(drag, kind, in_handle);
                assert_eq!(p.handled, p.forwarding == Forwarding::Withheld);
            }
        }
    }
}

#[test]
fn full_drag_gesture() {
    let mut drag = false;
    let mut resizes = 0;
    let events = [
        (EventKind::Move, true),
        (EventKind::Press, true),
        (EventKind::Move, false),
        (EventKind::Move, false),
        (EventKind::Wheel, false),
        (EventKind::Release, false),
        (EventKind::Move, false),
    ];
    let mut forwarded = Vec::new();
    for (kind, in_handle) in events {
        let p = plan_event(drag, kind, in_handle);
        if p.resize_to_pointer {
            resizes += 1;
        }
        if p.forwarding != Forwarding::Withheld {
            forwarded.push(kind);
        }
        drag = p.drag_active;
    }
    assert!(!drag);
    assert_eq!(resizes, 2);
    assert_eq!(forwarded, vec![EventKind::Move, EventKind::Wheel, EventKind::Move]);
}
