use obsidian_scheduler::error::SchedulerError;
use tokio::sync::broadcast::error::RecvError;

#[test]
fn recv_error_converts_to_broadcast_error() {
    let e: SchedulerError = RecvError::Lagged(3).into();
    assert_eq!(e, SchedulerError::BroadcastError(RecvError::Lagged(3)));
    let closed: SchedulerError = SchedulerError::from(RecvError::Closed);
    assert_eq!(closed, SchedulerError::BroadcastError(RecvError::Closed));
}
