//! Timers that run a callback at a fixed interval.
//!
//! A callback timer holds its callback, its interval and the slot of its
//! background task. The background task sleeps for the interval, runs the
//! callback with a [`TimerHandle`], and goes on whatever the callback returned;
//! [`after_callback`] is the decision it takes after each run.
use vstd::prelude::*;
use std::sync::Arc;
use std::time::Duration;
use tokio::sync::Mutex;
use tokio::task::JoinHandle;
use crate::runtime::{lock_created_with, new_slot_lock, share};
use crate::task::TaskSlot;

verus! {

/// The slot of a timer's background task, shared between the timer, its
/// clones and the handles given to its callback.
pub type SharedTaskSlot = Arc<Mutex<TaskSlot<JoinHandle<()>>>>;

/// A fresh shared slot, holding no task.
pub(crate) fn new_shared_slot() -> (slot: SharedTaskSlot)
    ensures
        lock_created_with(*slot) is None,
{
    Arc::new(new_slot_lock(TaskSlot::new()))
}

/// The name that a callback timer's errors carry.
pub fn callback_timer_name() -> (name: String)
    ensures
        name@ == "CallbackTimer"@,
{
    "CallbackTimer".to_owned()
}

/// A handle through which a callback controls the timer that runs it.
pub struct TimerHandle {
    handle: SharedTaskSlot,
}

impl TimerHandle {
    /// The task slot that this handle controls.
    pub closed spec fn slot_view(&self) -> SharedTaskSlot {
        self.handle
    }

    /// The task slot that this handle controls, shared.
    pub fn slot(&self) -> (slot: SharedTaskSlot)
        ensures
            slot == self.slot_view(),
    {
        share(&self.handle)
    }
}

impl Clone for TimerHandle {
    /// Another handle on the same timer.
    fn clone(&self) -> (copy: Self)
        ensures
            copy.slot_view() == self.slot_view(),
    {
        TimerHandle { handle: share(&self.handle) }
    }
}

/// A timer that runs a callback every `interval` while it is running.
pub struct CallbackTimer<C> {
    callback: Arc<C>,
    interval: Duration,
    handle: SharedTaskSlot,
}

impl<C> CallbackTimer<C> {
    /// The callback that each tick runs.
    pub closed spec fn callback_view(&self) -> C {
        *self.callback
    }

    /// The time between two ticks.
    pub closed spec fn interval_view(&self) -> Duration {
        self.interval
    }

    /// The slot of the timer's background task.
    pub closed spec fn slot_view(&self) -> SharedTaskSlot {
        self.handle
    }

    /// A stopped timer that will run `callback` every `interval` once started.
    pub fn new(callback: C, interval: Duration) -> (timer: Arc<Self>)
        ensures
            timer.callback_view() == callback,
            timer.interval_view() == interval,
            lock_created_with(*timer.slot_view()) is None,
    {
        Arc::new(CallbackTimer { callback: Arc::new(callback), interval, handle: new_shared_slot() })
    }

    /// The callback, shared with the background task.
    pub fn callback(&self) -> (callback: Arc<C>)
        ensures
            *callback == self.callback_view(),
    {
        share(&self.callback)
    }

    /// The time between two ticks.
    pub fn interval(&self) -> (interval: Duration)
        ensures
            interval == self.interval_view(),
    {
        self.interval
    }

    /// The slot of the timer's background task, shared.
    pub fn slot(&self) -> (slot: SharedTaskSlot)
        ensures
            slot == self.slot_view(),
    {
        share(&self.handle)
    }

    /// The handle given to the callback: it controls this timer's task.
    pub fn timer_handle(&self) -> (handle: TimerHandle)
        ensures
            handle.slot_view() == self.slot_view(),
    {
        TimerHandle { handle: share(&self.handle) }
    }
}

/// What the background task does once a run of the callback has finished.
#[derive(Debug, Clone, Copy, PartialEq, Eq, Structural)]
pub enum TickAction {
    /// Wait for the next tick.
    Continue,
    /// Report the callback's error, then wait for the next tick.
    ReportAndContinue,
}

/// The decision after a run of the callback: a failed run is reported, and in
/// either case the timer keeps running; only a stop ends it.
pub fn after_callback<E>(outcome: &Result<(), E>) -> (action: TickAction)
    ensures
        action == (if outcome is Ok {
            TickAction::Continue
        } else {
            TickAction::ReportAndContinue
        }),
{
    match outcome {
        Ok(()) => TickAction::Continue,
        Err(_) => TickAction::ReportAndContinue,
    }
}

} // verus!
