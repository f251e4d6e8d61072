use affine_executor::dispatch::{next_action, Phase, WorkerAction};

#[test]
fn initializing_worker_acquires_first() {
    assert_eq!(
        next_action(Phase::Initializing, false, false),
        WorkerAction::AcquireResource
    );
    assert_eq!(
        next_action(Phase::Initializing, false, true),
        WorkerAction::AcquireResource
    );
}

#[test]
fn running_worker_takes_queued_work() {
    assert_eq!(
        next_action(Phase::Running, false, true),
        WorkerAction::RunTask
    );
}

#[test]
fn running_worker_waits_when_idle() {
    assert_eq!(
        next_action(Phase::Running, false, false),
        WorkerAction::WaitForEvent
    );
}

#[test]
fn shutdown_is_checked_before_new_work() {
    // Even with work queued, an observed stop signal wins the check cycle.
    assert_eq!(
        next_action(Phase::Running, true, true),
        WorkerAction::ReleaseAndExit
    );
    assert_eq!(
        next_action(Phase::Running, true, false),
        WorkerAction::ReleaseAndExit
    );
}

#[test]
fn shutting_down_worker_releases_and_exits() {
    assert_eq!(
        next_action(Phase::ShuttingDown, false, true),
        WorkerAction::ReleaseAndExit
    );
    assert_eq!(
        next_action(Phase::ShuttingDown, true, false),
        WorkerAction::ReleaseAndExit
    );
}
