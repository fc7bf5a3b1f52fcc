//! When an editor window may be opened, how it is closed, and when the
//! host may still change the scale factor of the editor.
//!
//! The shared editor state carries an `open` flag. Opening the editor sets
//! it, and the GUI thread or the closing of the editor clears it again. Only
//! one editor window exists at a time: a second request to open one while
//! the flag is set is ignored and answered with a handle that owns nothing.
use vstd::prelude::*;

verus! {

/// The answer to a request to open the editor.
#[derive(Clone, Copy, Debug, PartialEq, Eq, Structural)]
pub enum SpawnPlan {
    /// An editor window is already open: launch nothing and hand out a
    /// handle that does not own a GUI.
    Duplicate,
    /// Launch the GUI thread and hand out a handle that owns it.
    Launch,
}

/// The open flag after a request to open the editor: set, whatever it was.
pub open spec fn open_after_spawn(was_open: bool) -> bool {
    true
}

/// The answer to a request to open the editor while the open flag was
/// `was_open` (the request sets the flag).
pub open spec fn spawn_plan_spec(was_open: bool) -> SpawnPlan {
    if was_open {
        SpawnPlan::Duplicate
    } else {
        SpawnPlan::Launch
    }
}

/// Whether a handle of this answer owns the GUI.
pub open spec fn owns_gui(plan: SpawnPlan) -> bool {
    plan == SpawnPlan::Launch
}

/// Decides a request to open the editor, given whether the open flag was set
/// when the request set it.
pub fn plan_spawn(was_open: bool) -> (p: SpawnPlan)
    ensures
        p == spawn_plan_spec(was_open),
{
    if was_open {
        SpawnPlan::Duplicate
    } else {
        SpawnPlan::Launch
    }
}

/// The host sets the scale factor of the editor: refused while the editor is
/// open; otherwise the factor is kept for the next time the editor opens.
pub fn set_scale_factor<F>(open: bool, pending: &mut Option<F>, factor: F) -> (accepted: bool)
    ensures
        accepted == !open,
        accepted ==> *final(pending) == Some(factor),
        !accepted ==> *final(pending) == *old(pending),
{
    if open {
        return false;
    }
    *pending = Some(factor);
    true
}

/// The GUI thread of a handle, as the handle finds it when it is closed.
#[derive(Clone, Copy, Debug, PartialEq, Eq, Structural)]
pub enum GuiThread {
    /// The handle has no thread (any more).
    Absent,
    /// The thread has finished running.
    Finished,
    /// The thread is still running.
    Running,
}

/// How the GUI thread of a closed handle is joined.
#[derive(Clone, Copy, Debug, PartialEq, Eq, Structural)]
pub enum Join {
    /// There is nothing to join.
    Nothing,
    /// Join it right away.
    Now,
    /// Join it from a thread of its own, so that closing does not block.
    InBackground,
}

/// What to do when a handle is closed.
#[derive(Clone, Copy, Debug, PartialEq, Eq, Structural)]
pub struct ClosePlan {
    /// Tell the GUI to close its windows and quit.
    pub ask_gui_to_quit: bool,
    /// How to join the GUI thread.
    pub join: Join,
    /// Clear the open flag: once the join is done where there is one, at
    /// once where there is none.
    pub clear_open: bool,
}

/// The plan for closing a handle: a handle that does not own the GUI does
/// nothing; one that does asks the GUI to quit (where it can reach it),
/// joins the GUI thread (at once if it has finished, from a thread of its
/// own if it still runs) and then clears the open flag.
pub open spec fn close_plan_spec(owns_gui: bool, can_reach_gui: bool, thread: GuiThread) -> ClosePlan {
    if !owns_gui {
        ClosePlan { ask_gui_to_quit: false, join: Join::Nothing, clear_open: false }
    } else {
        ClosePlan {
            ask_gui_to_quit: can_reach_gui,
            join: match thread {
                GuiThread::Absent => Join::Nothing,
                GuiThread::Finished => Join::Now,
                GuiThread::Running => Join::InBackground,
            },
            clear_open: true,
        }
    }
}

/// The open flag once a close by `plan` is carried out (and its join, if
/// any, is done), where it was `open` before.
pub open spec fn open_after_close(open: bool, plan: ClosePlan) -> bool {
    if plan.clear_open {
        false
    } else {
        open
    }
}

/// Decides how to close a handle; see [`close_plan_spec`].
pub fn plan_close(owns_gui: bool, can_reach_gui: bool, thread: GuiThread) -> (p: ClosePlan)
    ensures
        p == close_plan_spec(owns_gui, can_reach_gui, thread),
        (owns_gui && thread == GuiThread::Running) ==> p.join == Join::InBackground,
        (owns_gui && thread == GuiThread::Finished) ==> p.join == Join::Now,
        (!owns_gui || thread == GuiThread::Absent) ==> p.join == Join::Nothing,
        p.ask_gui_to_quit == (owns_gui && can_reach_gui),
        p.clear_open == owns_gui,
{
    if !owns_gui {
        return ClosePlan { ask_gui_to_quit: false, join: Join::Nothing, clear_open: false };
    }
    let join = match thread {
        GuiThread::Absent => Join::Nothing,
        GuiThread::Finished => Join::Now,
        GuiThread::Running => Join::InBackground,
    };
    ClosePlan { ask_gui_to_quit: can_reach_gui, join, clear_open: true }
}

/// Two requests to open the editor, with no close in between, launch at most
/// one GUI: the second is always a duplicate.
pub proof fn lemma_single_editor(was_open: bool)
    ensures
        spawn_plan_spec(open_after_spawn(was_open)) == SpawnPlan::Duplicate,
        !(owns_gui(spawn_plan_spec(was_open)) && owns_gui(
            spawn_plan_spec(open_after_spawn(was_open)),
        )),
{
}

/// A request to open the editor launches a GUI exactly when none is open,
/// and the handle it gives owns the GUI exactly then.
pub proof fn lemma_spawn_launches_iff_closed(was_open: bool)
    ensures
        (spawn_plan_spec(was_open) == SpawnPlan::Launch) <==> !was_open,
        owns_gui(spawn_plan_spec(was_open)) <==> !was_open,
{
}

/// Closing a handle that does not own the GUI changes nothing, so the editor
/// that is open stays open; closing the one that does always clears the open
/// flag in the end, so that the next request to open the editor launches a
/// GUI again, and never leaves a GUI thread unjoined.
pub proof fn lemma_close(open: bool, owns_gui: bool, can_reach_gui: bool, thread: GuiThread)
    ensures
        ({
            let p = close_plan_spec(owns_gui, can_reach_gui, thread);
            &&& !owns_gui ==> (!p.ask_gui_to_quit && p.join == Join::Nothing && open_after_close(
                open,
                p,
            ) == open)
            &&& owns_gui ==> spawn_plan_spec(open_after_close(open, p)) == SpawnPlan::Launch
            &&& (owns_gui && thread != GuiThread::Absent) ==> p.join != Join::Nothing
        }),
{
}

/// Every field of the closing plan, stated from the inputs: only the owner
/// acts; it asks the GUI to quit exactly when it can reach it, joins a
/// finished GUI thread at once and a running one in the background (so that
/// the host's thread never blocks on a running GUI), and clears the open flag.
pub proof fn lemma_close_plan(owns_gui: bool, can_reach_gui: bool, thread: GuiThread)
    ensures
        ({
            let p = close_plan_spec(owns_gui, can_reach_gui, thread);
            &&& p.ask_gui_to_quit == (owns_gui && can_reach_gui)
            &&& p.clear_open == owns_gui
            &&& (owns_gui && thread == GuiThread::Running) ==> p.join == Join::InBackground
            &&& (owns_gui && thread == GuiThread::Finished) ==> p.join == Join::Now
            &&& (!owns_gui || thread == GuiThread::Absent) ==> p.join == Join::Nothing
        }),
{
}

/// The number of times the editor tries to attach its AppKit window to the
/// host's view before it gives up.
pub const EMBED_ATTEMPTS: u32 = 120;

/// The number of times the attached window's frame is matched to the host's
/// view after attaching, while the host finishes its own layout.
pub const FRAME_SYNCS: u32 = 50;

/// The outcome of one attempt to attach the editor's window to the host's view.
#[derive(Clone, Copy, Debug, PartialEq, Eq, Structural)]
pub enum EmbedStep {
    /// Attached: match the frame [`FRAME_SYNCS`] times, then stop.
    Embedded,
    /// Not attached yet: wait a moment and try again.
    WaitAndRetry,
    /// Not attached: wait a moment, then give up and report the failure.
    WaitAndGiveUp,
}

/// How many attempts to attach the editor's window have been made.
#[derive(Clone, Copy, Debug)]
pub struct EmbedRetry {
    /// Attempts made so far.
    pub attempts: u32,
}

impl EmbedRetry {
    /// No attempt made yet.
    pub fn new() -> (r: Self)
        ensures
            r.attempts == 0,
    {
        EmbedRetry { attempts: 0 }
    }

    /// Records an attempt that attached the window or not (the host's view
    /// is sometimes not ready yet when the editor opens) and says what to do
    /// next. An attempt is only made while fewer than [`EMBED_ATTEMPTS`] were.
    pub fn after_attempt(&mut self, embedded: bool) -> (step: EmbedStep)
        requires
            old(self).attempts < EMBED_ATTEMPTS,
        ensures
            final(self).attempts == old(self).attempts + 1,
            embedded ==> step == EmbedStep::Embedded,
            (!embedded && final(self).attempts < EMBED_ATTEMPTS) ==> step == EmbedStep::WaitAndRetry,
            (!embedded && final(self).attempts == EMBED_ATTEMPTS) ==> step
                == EmbedStep::WaitAndGiveUp,
    {
        self.attempts = self.attempts + 1;
        if embedded {
            EmbedStep::Embedded
        } else if self.attempts < EMBED_ATTEMPTS {
            EmbedStep::WaitAndRetry
        } else {
            EmbedStep::WaitAndGiveUp
        }
    }
}

} // verus!
