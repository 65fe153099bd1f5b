//! Verified core of a timer library: the state of a timer's background task,
//! the registry of named event timers, the error type, and the timer values
//! that the asynchronous runtime layer drives.

pub mod error;
pub mod task;
pub mod registry;
pub mod callback;
pub mod event;
pub mod runtime;
