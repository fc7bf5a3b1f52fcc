//! How the resizable-scale wrapper reacts to one input event: whether it
//! starts, continues or ends a drag of its resize handle, and whether the
//! wrapped widget sees the event, in its own (unscaled) coordinates or as is.
use vstd::prelude::*;

verus! {

/// The kind of an input event, as far as the wrapper tells kinds apart.
#[derive(Clone, Copy, Debug, PartialEq, Eq, Structural)]
pub enum EventKind {
    /// A mouse button went down.
    Press,
    /// The pointer moved.
    Move,
    /// A mouse button went up.
    Release,
    /// The scroll wheel turned.
    Wheel,
    /// The window was resized.
    WindowResize,
    /// Any other event (keyboard, timer, command, ...).
    Other,
}

/// Whether, and how, the wrapped widget receives the event.
#[derive(Clone, Copy, Debug, PartialEq, Eq, Structural)]
pub enum Forwarding {
    /// The wrapper consumes the event; the wrapped widget does not see it.
    Withheld,
    /// The wrapped widget receives the event with its positions and sizes
    /// divided by the user scale factor.
    Scaled,
    /// The wrapped widget receives the event unchanged.
    Unchanged,
}

/// What happens to the pointer capture of the wrapper.
#[derive(Clone, Copy, Debug, PartialEq, Eq, Structural)]
pub enum Capture {
    /// Left as it is.
    Keep,
    /// Taken, so that the drag keeps receiving pointer events.
    Take,
    /// Given up.
    Give,
}

/// What the wrapper does in answer to one event.
#[derive(Clone, Copy, Debug, PartialEq, Eq, Structural)]
pub struct EventPlan {
    /// Whether a drag of the resize handle is under way after the event.
    pub drag_active: bool,
    /// Remember the pointer position and the window size where the drag starts.
    pub record_drag_start: bool,
    /// Derive a new user scale factor from the pointer's distance to the drag
    /// start and ask for the window to be resized to it.
    pub resize_to_pointer: bool,
    /// What happens to the pointer capture.
    pub capture: Capture,
    /// Show the resize cursor.
    pub resize_cursor: bool,
    /// Mark the event as handled.
    pub handled: bool,
    /// Ask for a repaint.
    pub repaint: bool,
    /// Whether, and how, the wrapped widget receives the event.
    pub forwarding: Forwarding,
}

/// Events whose positions or sizes are in window coordinates, which the
/// wrapped widget receives divided by the user scale factor.
pub open spec fn carries_coordinates(kind: EventKind) -> bool {
    kind != EventKind::Other
}

/// The plan that leaves the drag as it is and passes the event on.
pub open spec fn pass_on(drag_active: bool, kind: EventKind, resize_cursor: bool) -> EventPlan {
    EventPlan {
        drag_active,
        record_drag_start: false,
        resize_to_pointer: false,
        capture: Capture::Keep,
        resize_cursor,
        handled: false,
        repaint: false,
        forwarding: if carries_coordinates(kind) {
            Forwarding::Scaled
        } else {
            Forwarding::Unchanged
        },
    }
}

/// The wrapper's answer to an event of kind `kind`, where `drag_active` says
/// whether a drag of the resize handle is under way and `in_handle` whether
/// the pointer position of a press or move lies on the resize handle.
///
/// A press on the handle starts a drag; a move during a drag resizes; a
/// release during a drag ends it; a move outside a drag shows the resize
/// cursor over the handle and is passed on; everything else is passed on.
pub open spec fn plan_event_spec(drag_active: bool, kind: EventKind, in_handle: bool) -> EventPlan {
    if kind == EventKind::Press && in_handle {
        EventPlan {
            drag_active: true,
            record_drag_start: true,
            resize_to_pointer: false,
            capture: Capture::Take,
            resize_cursor: false,
            handled: true,
            repaint: true,
            forwarding: Forwarding::Withheld,
        }
    } else if kind == EventKind::Move && drag_active {
        EventPlan {
            drag_active: true,
            record_drag_start: false,
            resize_to_pointer: true,
            capture: Capture::Keep,
            resize_cursor: false,
            handled: true,
            repaint: false,
            forwarding: Forwarding::Withheld,
        }
    } else if kind == EventKind::Move {
        pass_on(drag_active, kind, in_handle)
    } else if kind == EventKind::Release && drag_active {
        EventPlan {
            drag_active: false,
            record_drag_start: false,
            resize_to_pointer: false,
            capture: Capture::Give,
            resize_cursor: false,
            handled: true,
            repaint: true,
            forwarding: Forwarding::Withheld,
        }
    } else {
        pass_on(drag_active, kind, false)
    }
}

/// The plan that leaves the drag as it is and passes the event on.
fn pass_on_plan(drag_active: bool, kind: EventKind, resize_cursor: bool) -> (p: EventPlan)
    ensures
        p == pass_on(drag_active, kind, resize_cursor),
{
    let forwarding = match kind {
        EventKind::Other => Forwarding::Unchanged,
        _ => Forwarding::Scaled,
    };
    EventPlan {
        drag_active,
        record_drag_start: false,
        resize_to_pointer: false,
        capture: Capture::Keep,
        resize_cursor,
        handled: false,
        repaint: false,
        forwarding,
    }
}

/// Decides what the resizable-scale wrapper does with one input event; see
/// [`plan_event_spec`].
pub fn plan_event(drag_active: bool, kind: EventKind, in_handle: bool) -> (p: EventPlan)
    ensures
        p == plan_event_spec(drag_active, kind, in_handle),
        p.resize_to_pointer == (kind == EventKind::Move && drag_active),
        p.record_drag_start == (kind == EventKind::Press && in_handle),
{
    match kind {
        EventKind::Press if in_handle => EventPlan {
            drag_active: true,
            record_drag_start: true,
            resize_to_pointer: false,
            capture: Capture::Take,
            resize_cursor: false,
            handled: true,
            repaint: true,
            forwarding: Forwarding::Withheld,
        },
        EventKind::Move if drag_active => EventPlan {
            drag_active: true,
            record_drag_start: false,
            resize_to_pointer: true,
            capture: Capture::Keep,
            resize_cursor: false,
            handled: true,
            repaint: false,
            forwarding: Forwarding::Withheld,
        },
        EventKind::Move => pass_on_plan(drag_active, kind, in_handle),
        EventKind::Release if drag_active => EventPlan {
            drag_active: false,
            record_drag_start: false,
            resize_to_pointer: false,
            capture: Capture::Give,
            resize_cursor: false,
            handled: true,
            repaint: true,
            forwarding: Forwarding::Withheld,
        },
        _ => pass_on_plan(drag_active, kind, false),
    }
}

/// An event is marked as handled exactly when the wrapped widget does not
/// receive it.
pub proof fn lemma_handled_iff_withheld(drag_active: bool, kind: EventKind, in_handle: bool)
    ensures
        plan_event_spec(drag_active, kind, in_handle).handled <==> plan_event_spec(
            drag_active,
            kind,
            in_handle,
        ).forwarding == Forwarding::Withheld,
{
}

/// A drag starts only with a press on the resize handle, and ends only with
/// a release; the capture is taken exactly when a drag starts and given up
/// exactly when it ends.
pub proof fn lemma_drag_starts_and_ends(drag_active: bool, kind: EventKind, in_handle: bool)
    ensures
        ({
            let p = plan_event_spec(drag_active, kind, in_handle);
            &&& (p.drag_active && !drag_active) ==> (kind == EventKind::Press && in_handle)
            &&& (!p.drag_active && drag_active) ==> kind == EventKind::Release
            &&& (p.capture == Capture::Take) <==> (kind == EventKind::Press && in_handle)
            &&& (p.capture == Capture::Give) <==> (!p.drag_active && drag_active)
            &&& p.record_drag_start ==> p.drag_active
            &&& p.resize_to_pointer ==> (drag_active && p.drag_active)
        }),
{
}

/// While a drag is under way the wrapped widget never sees a pointer move
/// or a release, and after a release no drag is under way.
pub proof fn lemma_drag_withholds_pointer(kind: EventKind, in_handle: bool)
    ensures
        (kind == EventKind::Move || kind == EventKind::Release) ==> plan_event_spec(
            true,
            kind,
            in_handle,
        ).forwarding == Forwarding::Withheld,
        kind == EventKind::Release ==> !plan_event_spec(true, kind, in_handle).drag_active,
{
}

/// Whatever the wrapped widget receives of an event with window coordinates
/// it receives in its own coordinates, divided by the user scale factor;
/// other events it receives unchanged.
pub proof fn lemma_forwarded_in_child_coordinates(
    drag_active: bool,
    kind: EventKind,
    in_handle: bool,
)
    ensures
        ({
            let p = plan_event_spec(drag_active, kind, in_handle);
            &&& (p.forwarding == Forwarding::Unchanged) <==> (kind == EventKind::Other)
            &&& (p.forwarding == Forwarding::Scaled) ==> carries_coordinates(kind)
        }),
{
}

/// Every field of the answer, stated from the inputs: a press on the handle
/// starts a drag, every pointer move during a drag resizes the window to
/// follow the pointer (wherever the pointer is), a release during a drag
/// ends it, a move outside a drag shows the resize cursor exactly over the
/// handle, and whatever is not consumed reaches the wrapped widget, scaled
/// unless it carries no coordinates.
pub proof fn lemma_event_answer(drag_active: bool, kind: EventKind, in_handle: bool)
    ensures
        ({
            let p = plan_event_spec(drag_active, kind, in_handle);
            let starts = kind == EventKind::Press && in_handle;
            let follows = kind == EventKind::Move && drag_active;
            let ends = kind == EventKind::Release && drag_active;
            &&& p.drag_active == (if starts {
                true
            } else if ends {
                false
            } else {
                drag_active
            })
            &&& p.record_drag_start == starts
            &&& p.resize_to_pointer == follows
            &&& p.capture == (if starts {
                Capture::Take
            } else if ends {
                Capture::Give
            } else {
                Capture::Keep
            })
            &&& p.resize_cursor == (kind == EventKind::Move && !drag_active && in_handle)
            &&& p.handled == (starts || follows || ends)
            &&& p.repaint == (starts || ends)
            &&& p.forwarding == (if starts || follows || ends {
                Forwarding::Withheld
            } else if kind == EventKind::Other {
                Forwarding::Unchanged
            } else {
                Forwarding::Scaled
            })
        }),
{
}

/// During a drag every pointer move resizes the window, on the handle or off it.
pub proof fn lemma_drag_move_resizes(in_handle: bool)
    ensures
        plan_event_spec(true, EventKind::Move, in_handle).resize_to_pointer,
        plan_event_spec(true, EventKind::Move, in_handle).drag_active,
{
}

} // verus!
