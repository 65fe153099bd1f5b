//! The background task of a timer, and the decisions that start, stop and
//! reset it.
//!
//! A timer is running exactly while its slot holds a task. Every control
//! operation of a timer is decided here; the asynchronous layer only spawns
//! the task that a start admits, and aborts the task that a stop hands back.
use vstd::prelude::*;
use crate::error::SchedulerError;

verus! {

/// The task of a running timer, or nothing while the timer is stopped.
#[derive(Debug)]
pub struct TaskSlot<H> {
    task: Option<H>,
}

impl<H> View for TaskSlot<H> {
    type V = Option<H>;

    closed spec fn view(&self) -> Option<H> {
        self.task
    }
}

/// What a request to start a timer named `name` is answered while its slot
/// holds `task`.
pub open spec fn start_answer<H>(task: Option<H>, name: String) -> Result<(), SchedulerError> {
    if task is Some {
        Err(SchedulerError::TimerAlreadyExists(name))
    } else {
        Ok(())
    }
}

/// The slot after a request to stop a timer named `name`, and the answer: the
/// task to abort, or the error of a timer that is not running.
pub open spec fn stop_step<H>(task: Option<H>, name: String) -> (Option<H>, Result<H, SchedulerError>) {
    match task {
        Some(t) => (None, Ok(t)),
        None => (None, Err(SchedulerError::TimerNotRunning(name))),
    }
}

impl<H> TaskSlot<H> {
    /// A slot with no task: the state of a timer that was never started.
    pub fn new() -> (slot: Self)
        ensures
            slot@ is None,
    {
        TaskSlot { task: None }
    }

    /// Whether the timer is running, that is, whether its slot holds a task.
    pub fn is_running(&self) -> (running: bool)
        ensures
            running == self@ is Some,
    {
        self.task.is_some()
    }

    /// Decides a request to start the timer named `name`: admitted while the
    /// timer is stopped, refused with `TimerAlreadyExists(name)` while it runs.
    pub fn check_start(&self, name: &String) -> (answer: Result<(), SchedulerError>)
        ensures
            answer == start_answer(self@, *name),
    {
        if self.task.is_some() {
            Err(SchedulerError::TimerAlreadyExists(name.clone()))
        } else {
            Ok(())
        }
    }

    /// Stores the task that an admitted start spawned.
    pub fn install(&mut self, task: H)
        requires
            old(self)@ is None,
        ensures
            final(self)@ == Some(task),
    {
        self.task = Some(task);
    }

    /// Decides a request to stop the timer named `name`: a running timer hands
    /// back its task, to be aborted, and is stopped; a stopped timer answers
    /// `TimerNotRunning(name)`.
    pub fn stop(&mut self, name: &String) -> (answer: Result<H, SchedulerError>)
        ensures
            (final(self)@, answer) == stop_step(old(self)@, *name),
    {
        match self.task.take() {
            Some(t) => Ok(t),
            None => Err(SchedulerError::TimerNotRunning(name.clone())),
        }
    }

    /// Stops the timer whatever its state, as its own callback does through a
    /// handle: hands back the task to abort, if there was one.
    pub fn cancel(&mut self) -> (task: Option<H>)
        ensures
            task == old(self)@,
            final(self)@ is None,
    {
        self.task.take()
    }

    /// Decides a request to reset the timer named `name`: it is stopped, and a
    /// start is then admitted; the task handed back is to be aborted and a new
    /// one installed. A stopped timer answers `TimerNotRunning(name)`.
    pub fn begin_reset(&mut self, name: &String) -> (answer: Result<H, SchedulerError>)
        ensures
            (final(self)@, answer) == stop_step(old(self)@, *name),
            answer is Ok ==> start_answer(final(self)@, *name) is Ok,
    {
        self.stop(name)
    }
}

/// A started timer is running, and starting it again is refused with
/// `TimerAlreadyExists`.
pub proof fn law_start_refused_while_running<H>(task: H, name: String)
    ensures
        start_answer(None::<H>, name) is Ok,
        start_answer(Some(task), name) == Err::<(), SchedulerError>(SchedulerError::TimerAlreadyExists(name)),
{
}

/// Stopping a started timer hands back exactly the task that the start
/// installed, and leaves the timer stopped.
pub proof fn law_stop_undoes_start<H>(task: H, name: String)
    ensures
        stop_step(Some(task), name) == (None::<H>, Ok::<H, SchedulerError>(task)),
{
}

/// Whatever state a stop is applied to, the timer is stopped afterwards, a
/// start is then admitted, and a second stop is refused with `TimerNotRunning`.
pub proof fn law_after_stop<H>(task: Option<H>, name: String)
    ensures
        stop_step(task, name).0 is None,
        start_answer(stop_step(task, name).0, name) is Ok,
        stop_step(stop_step(task, name).0, name).1 == Err::<H, SchedulerError>(SchedulerError::TimerNotRunning(name)),
{
}

/// Stopping a timer that is not running is refused and changes nothing.
pub proof fn law_stop_refused_while_stopped<H>(name: String)
    ensures
        stop_step(None::<H>, name) == (None::<H>, Err::<H, SchedulerError>(SchedulerError::TimerNotRunning(name))),
{
}

} // verus!
