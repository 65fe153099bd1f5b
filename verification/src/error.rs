//! Errors reported by the timers.
use vstd::prelude::*;
use tokio::sync::broadcast::error::RecvError;

verus! {

/// `tokio::sync::broadcast::error::RecvError`, carried opaquely inside
/// [`SchedulerError::BroadcastError`].
#[verifier::external_type_specification]
#[verifier::external_body]
pub struct ExRecvError(RecvError);

/// Every error that a timer operation can report.
#[derive(Debug, PartialEq, Eq)]
pub enum SchedulerError {
    /// A timer with this name already exists, or the timer is already running.
    TimerAlreadyExists(String),
    /// No timer with this name is registered.
    TimerNotFound(String),
    /// The timer with this name is not running.
    TimerNotRunning(String),
    /// The timer could not be started.
    TimerStartError(String),
    /// The timer could not be stopped.
    TimerStopError(String),
    /// Receiving from a timer's broadcast channel failed.
    BroadcastError(RecvError),
    /// Waiting on a timer's task failed.
    JoinHandleError(String),
}

impl From<RecvError> for SchedulerError {
    fn from(e: RecvError) -> (r: SchedulerError) {
        SchedulerError::BroadcastError(e)
    }
}

impl vstd::std_specs::convert::FromSpecImpl<RecvError> for SchedulerError {
    open spec fn obeys_from_spec() -> bool {
        true
    }

    open spec fn from_spec(e: RecvError) -> SchedulerError {
        SchedulerError::BroadcastError(e)
    }
}

} // verus!
