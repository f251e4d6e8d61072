//! The worker's dispatch-loop decision.
//!
//! The worker thread repeats one check cycle: it looks for the one-shot
//! shutdown signal first, and only then considers starting a queued unit of
//! work. `next_action` is that decision as a pure function; the host loop
//! performs whatever action it picks.

use vstd::prelude::*;

verus! {

/// Where an executor instance stands in its lifecycle.
#[derive(Clone, Copy, PartialEq, Eq, Structural, Debug)]
pub enum Phase {
    /// The worker thread is spawned and is acquiring the resource handle.
    Initializing,
    /// The dispatch loop is cycling: check shutdown, then fetch work.
    Running,
    /// The stop signal has been observed; the loop exits after the current
    /// cycle and releases the resource on the worker thread.
    ShuttingDown,
    /// Terminal: the worker's loop has exited and the resource handle has
    /// been released.
    Stopped,
}

/// What the worker does next in one cycle of its dispatch loop.
#[derive(Clone, Copy, PartialEq, Eq, Structural, Debug)]
pub enum WorkerAction {
    /// Perform the one-time resource acquisition, on this thread.
    AcquireResource,
    /// Run the earliest queued unit of work to completion.
    RunTask,
    /// Nothing to do: wait until either new work or the stop signal
    /// arrives, then run another cycle.
    WaitForEvent,
    /// Release the resource handle on this thread and exit the loop.
    ReleaseAndExit,
}

/// The dispatch decision: shutdown is checked before any new unit of work
/// is started, and a unit is started only when one is queued.
pub open spec fn next_action_spec(phase: Phase, stop_observed: bool, work_available: bool) -> WorkerAction {
    match phase {
        Phase::Initializing => WorkerAction::AcquireResource,
        Phase::Running => if stop_observed {
            WorkerAction::ReleaseAndExit
        } else if work_available {
            WorkerAction::RunTask
        } else {
            WorkerAction::WaitForEvent
        },
        Phase::ShuttingDown => WorkerAction::ReleaseAndExit,
        Phase::Stopped => WorkerAction::WaitForEvent,
    }
}

/// Decides one cycle of the dispatch loop from what the worker has just
/// observed: whether the stop signal has arrived, and whether a unit of
/// work is queued. Once the loop has stopped there is no next action.
pub fn next_action(phase: Phase, stop_observed: bool, work_available: bool) -> (a: WorkerAction)
    requires
        phase !is Stopped,
    ensures
        a == next_action_spec(phase, stop_observed, work_available),
{
    match phase {
        Phase::Initializing => WorkerAction::AcquireResource,
        Phase::Running => if stop_observed {
            WorkerAction::ReleaseAndExit
        } else if work_available {
            WorkerAction::RunTask
        } else {
            WorkerAction::WaitForEvent
        },
        Phase::ShuttingDown => WorkerAction::ReleaseAndExit,
        Phase::Stopped => WorkerAction::WaitForEvent,
    }
}

/// The check order of the dispatch loop: shutdown is observed before new
/// work is started. Once the stop signal has been seen, no decision in any
/// phase ever starts another unit of work, whether or not work is queued.
pub proof fn lemma_shutdown_checked_first(phase: Phase, work_available: bool)
    ensures
        next_action_spec(phase, true, work_available) !is RunTask,
{
}

} // verus!
