use affine_executor::dispatch::Phase;
use affine_executor::errors::{ExecutionError, InitError, ReplyError, SubmissionError};
use affine_executor::executor::{AffineExecutor, ReplyState};
use ndarray::Array2;

#[test]
fn scenario_matrix_sum_error_then_recovery() {
    // Construct an executor whose worker thread carries identifier 41.
    let mut exec: AffineExecutor<f64> = AffineExecutor::new(41);
    exec.complete_acquisition(true)
        .expect("resource acquisition succeeds");
    assert_eq!(exec.phase, Phase::Running);

    // First unit of work: the sum of a 3x3 matrix of ones.
    let a = exec.submit().expect("a running executor accepts work");
    let ones: Array2<f64> = Array2::ones((3, 3));
    exec.complete_next_task(Ok(ones.sum()));
    assert_eq!(exec.receive(a), Ok(9.0));

    // Second unit of work: deliberately fails internally.
    let b = exec.submit().expect("the executor still accepts work");
    exec.complete_next_task(Err(ExecutionError));
    assert_eq!(exec.receive(b), Err(ReplyError::Execution(ExecutionError)));

    // Third unit of work: still succeeds on the same executor.
    let c = exec.submit().expect("a failed unit does not kill the executor");
    exec.complete_next_task(Ok(1.5));
    assert_eq!(exec.receive(c), Ok(1.5));

    // Drop the executor: the worker thread is joined before teardown ends.
    exec.shutdown();
    assert_eq!(exec.phase, Phase::Stopped);
    assert!(exec.worker_joined);
}

#[test]
fn submission_is_queue_only() {
    let mut exec: AffineExecutor<u64> = AffineExecutor::new(1);
    exec.complete_acquisition(true).unwrap();
    let a = exec.submit().unwrap();
    let b = exec.submit().unwrap();
    assert_eq!(a, 0);
    assert_eq!(b, 1);
    // Submitting started no unit of work and resolved no reply.
    assert_eq!(exec.dispatched, 0);
    assert!(matches!(exec.replies[a], ReplyState::Pending));
    assert!(matches!(exec.replies[b], ReplyState::Pending));
}

#[test]
fn results_follow_submission_order() {
    let mut exec: AffineExecutor<u64> = AffineExecutor::new(1);
    exec.complete_acquisition(true).unwrap();
    let a = exec.submit().unwrap();
    let b = exec.submit().unwrap();
    // The worker starts the earliest submission first, and its result is
    // observable before the later one begins.
    let first = exec.complete_next_task(Ok(10));
    assert_eq!(first, a);
    assert_eq!(exec.dispatched, 1);
    assert_eq!(exec.receive(a), Ok(10));
    let second = exec.complete_next_task(Ok(20));
    assert_eq!(second, b);
    assert_eq!(exec.receive(b), Ok(20));
    exec.shutdown();
}

#[test]
fn resource_confined_to_worker_thread() {
    let mut exec: AffineExecutor<u64> = AffineExecutor::new(7);
    assert_eq!(exec.acquired_on, None);
    exec.complete_acquisition(true).unwrap();
    assert_eq!(exec.acquired_on, Some(7));
    assert_eq!(exec.released_on, None);
    exec.shutdown();
    // Acquisition and release happened on the same, dedicated thread.
    assert_eq!(exec.acquired_on, Some(7));
    assert_eq!(exec.released_on, Some(7));
}

#[test]
fn shutdown_with_pending_work_closes_replies() {
    let mut exec: AffineExecutor<u64> = AffineExecutor::new(1);
    exec.complete_acquisition(true).unwrap();
    let a = exec.submit().unwrap();
    let b = exec.submit().unwrap();
    exec.shutdown();
    assert_eq!(exec.phase, Phase::Stopped);
    assert!(exec.worker_joined);
    // The pending units never ran; their replies are closed, not dropped.
    assert_eq!(exec.receive(a), Err(ReplyError::ChannelClosed));
    assert_eq!(exec.receive(b), Err(ReplyError::ChannelClosed));
}

#[test]
fn shutdown_with_empty_queue_joins_worker() {
    let mut exec: AffineExecutor<u64> = AffineExecutor::new(1);
    exec.complete_acquisition(true).unwrap();
    exec.shutdown();
    assert_eq!(exec.phase, Phase::Stopped);
    assert!(exec.worker_joined);
}

#[test]
fn failed_acquisition_fails_construction() {
    let mut exec: AffineExecutor<u64> = AffineExecutor::new(3);
    let queued = exec.submit().unwrap();
    assert_eq!(exec.complete_acquisition(false), Err(InitError));
    // No loop ever starts and the resource was never held.
    assert_eq!(exec.phase, Phase::Stopped);
    assert_eq!(exec.acquired_on, None);
    assert_eq!(exec.released_on, None);
    // The submission queued before the failure is closed, not stranded.
    assert_eq!(exec.receive(queued), Err(ReplyError::ChannelClosed));
    // Further submissions fail fast.
    assert_eq!(exec.submit(), Err(SubmissionError));
}

#[test]
fn submission_after_stop_fails_fast() {
    let mut exec: AffineExecutor<u64> = AffineExecutor::new(1);
    exec.complete_acquisition(true).unwrap();
    exec.stop();
    assert_eq!(exec.submit(), Err(SubmissionError));
    // The explicit stop path still winds the worker down cleanly.
    exec.observe_shutdown();
    exec.finish_shutdown();
    exec.join_worker();
    assert_eq!(exec.phase, Phase::Stopped);
    assert!(exec.worker_joined);
    assert_eq!(exec.released_on, Some(1));
}

#[test]
fn failure_is_isolated_to_its_own_reply() {
    let mut exec: AffineExecutor<u64> = AffineExecutor::new(1);
    exec.complete_acquisition(true).unwrap();
    let bad = exec.submit().unwrap();
    let good = exec.submit().unwrap();
    exec.complete_next_task(Err(ExecutionError));
    exec.complete_next_task(Ok(99));
    assert_eq!(exec.phase, Phase::Running);
    assert_eq!(exec.receive(bad), Err(ReplyError::Execution(ExecutionError)));
    assert_eq!(exec.receive(good), Ok(99));
    exec.shutdown();
}

#[test]
fn queued_work_is_reported() {
    let mut exec: AffineExecutor<u64> = AffineExecutor::new(1);
    exec.complete_acquisition(true).unwrap();
    assert!(!exec.has_queued_work());
    exec.submit().unwrap();
    assert!(exec.has_queued_work());
    exec.complete_next_task(Ok(0));
    assert!(!exec.has_queued_work());
    exec.shutdown();
}
