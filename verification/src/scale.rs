//! Negotiating a change of the user scale factor with the host.
//!
//! The wrapper stores a new scale factor in the shared editor state before it
//! asks the host to resize the window (the host reads the new window size
//! from that state), and takes the change back when the host refuses. It
//! remembers the factor the host last agreed to, so that a change made by
//! someone else is noticed and negotiated too. The factor itself is opaque
//! here: `S` is whatever type the caller keeps it in.
use vstd::prelude::*;

verus! {

/// What to do once the host has answered a resize request.
#[derive(Clone, Copy, Debug)]
pub struct Settlement<S> {
    /// A scale factor to write back into the shared editor state, where the
    /// change is taken back.
    pub store: Option<S>,
    /// Whether to resize the window to the size the new factor gives, and to
    /// lay out and repaint the contents.
    pub reconfigure: bool,
}

/// The scale factor in the shared editor state once `settlement` has been
/// carried out, where `written` stood there while the host was asked.
pub open spec fn stored_after<S>(written: S, settlement: Settlement<S>) -> S {
    match settlement.store {
        Some(s) => s,
        None => written,
    }
}

/// The scale factor that the host last agreed to.
#[derive(Clone, Copy, Debug)]
pub struct ScaleTracker<S> {
    /// The user scale factor of the last resize the host accepted (or the
    /// factor in force when the wrapper was made).
    pub last_applied: S,
}

impl<S: Copy> ScaleTracker<S> {
    /// A tracker for a wrapper made while `current` is the user scale factor.
    pub fn new(current: S) -> (t: Self)
        ensures
            t.last_applied == current,
    {
        ScaleTracker { last_applied: current }
    }

    /// Settles a resize started by the user: `previous` stood in the shared
    /// state, `requested` (already limited to the allowed range) was written
    /// in its place, and the host was asked to resize. If it accepted, the
    /// window is reconfigured and `requested` is the factor in force; if it
    /// refused, `previous` is written back and stays in force.
    pub fn settle_resize(&mut self, previous: S, requested: S, host_accepted: bool) -> (r:
        Settlement<S>)
        ensures
            host_accepted ==> {
                &&& final(self).last_applied == requested
                &&& r.store == None::<S>
                &&& r.reconfigure
            },
            !host_accepted ==> {
                &&& final(self).last_applied == previous
                &&& r.store == Some(previous)
                &&& !r.reconfigure
            },
            stored_after(requested, r) == final(self).last_applied,
    {
        if host_accepted {
            self.last_applied = requested;
            Settlement { store: None, reconfigure: true }
        } else {
            self.last_applied = previous;
            Settlement { store: Some(previous), reconfigure: false }
        }
    }

    /// Settles a change of the shared scale factor to `current` that the
    /// wrapper did not make itself (it differs from the factor last agreed
    /// to) and about which the host was asked. If the host accepted, the
    /// window is reconfigured and `current` is the factor in force; if it
    /// refused, the factor last agreed to is written back.
    pub fn settle_sync(&mut self, current: S, host_accepted: bool) -> (r: Settlement<S>)
        ensures
            host_accepted ==> {
                &&& final(self).last_applied == current
                &&& r.store == None::<S>
                &&& r.reconfigure
            },
            !host_accepted ==> {
                &&& final(self).last_applied == old(self).last_applied
                &&& r.store == Some(old(self).last_applied)
                &&& !r.reconfigure
            },
            stored_after(current, r) == final(self).last_applied,
    {
        if host_accepted {
            self.last_applied = current;
            Settlement { store: None, reconfigure: true }
        } else {
            Settlement { store: Some(self.last_applied), reconfigure: false }
        }
    }
}

} // verus!
