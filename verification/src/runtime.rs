//! The outside types that the timers hold, and the calls into them.
//!
//! The contracts below restate what the outside code does; they are trusted,
//! not proved.
use vstd::prelude::*;
use std::sync::Arc;
use tokio::sync::broadcast::{Receiver, Sender};
use tokio::sync::Mutex;
use tokio::task::{JoinError, JoinHandle};
use crate::task::TaskSlot;

verus! {

/// `tokio::sync::Mutex`, the asynchronous lock around a timer's task slot.
#[verifier::external_type_specification]
#[verifier::external_body]
#[verifier::reject_recursive_types(T)]
pub struct ExMutex<T: ?Sized>(Mutex<T>);

/// `tokio::task::JoinHandle`, the handle of a spawned background task.
#[verifier::external_type_specification]
#[verifier::external_body]
#[verifier::reject_recursive_types(T)]
pub struct ExJoinHandle<T>(JoinHandle<T>);

/// `tokio::task::JoinError`, what awaiting a `JoinHandle` fails with; declared
/// because the output type of a `JoinHandle` names it.
#[verifier::external_type_specification]
#[verifier::external_body]
pub struct ExJoinError(JoinError);

/// `tokio::sync::broadcast::Sender`, the sending half of an event channel.
#[verifier::external_type_specification]
#[verifier::external_body]
#[verifier::reject_recursive_types(T)]
pub struct ExSender<T>(Sender<T>);

/// `tokio::sync::broadcast::Receiver`, the receiving half of an event channel.
#[verifier::external_type_specification]
#[verifier::external_body]
#[verifier::reject_recursive_types(T)]
pub struct ExReceiver<T>(Receiver<T>);

/// The channel that a sender belongs to: the senders and receivers of one
/// channel share it.
pub uninterp spec fn sender_channel(sender: Sender<String>) -> int;

/// The channel that a receiver belongs to.
pub uninterp spec fn receiver_channel(receiver: Receiver<String>) -> int;

/// The capacity that the channel of a sender was created with.
pub uninterp spec fn channel_capacity(sender: Sender<String>) -> nat;

/// Calls `Arc::clone`: a second pointer to the same value. An `Arc` stands for
/// the value it points to, so the clone is equal to the original.
#[verifier::external_body]
pub(crate) fn share<T>(a: &Arc<T>) -> (r: Arc<T>)
    ensures
        r == *a,
{
    Arc::clone(a)
}

/// The slot that a timer's lock was created holding. The lock's content
/// changes later through shared references; this records only what it
/// started with.
pub uninterp spec fn lock_created_with(lock: Mutex<TaskSlot<JoinHandle<()>>>) -> Option<JoinHandle<()>>;

/// Calls `tokio::sync::Mutex::new` on a timer's task slot: the lock is created
/// holding `slot`.
#[verifier::external_body]
pub(crate) fn new_slot_lock(slot: TaskSlot<JoinHandle<()>>) -> (lock: Mutex<TaskSlot<JoinHandle<()>>>)
    ensures
        lock_created_with(lock) == slot@,
{
    Mutex::new(slot)
}

/// Calls `tokio::sync::broadcast::channel`, which panics on a capacity of zero
/// or above `usize::MAX / 2`; those capacities are left out. The two halves
/// belong to one channel, created with `capacity` (which tokio rounds up to a
/// power of two for its buffer).
#[verifier::external_body]
pub(crate) fn broadcast_channel(capacity: usize) -> (halves: (Sender<String>, Receiver<String>))
    requires
        0 < capacity <= usize::MAX / 2,
    ensures
        receiver_channel(halves.1) == sender_channel(halves.0),
        channel_capacity(halves.0) == capacity,
{
    tokio::sync::broadcast::channel(capacity)
}

/// Calls `Sender::subscribe`: a new receiver of the sender's channel. The call
/// panics once `usize::MAX / 4` receivers are alive at the same time, a count
/// that lives in the channel and that no contract here follows.
#[verifier::external_body]
pub(crate) fn subscribe_receiver(sender: &Sender<String>) -> (receiver: Receiver<String>)
    ensures
        receiver_channel(receiver) == sender_channel(*sender),
{
    sender.subscribe()
}

/// Calls `Sender::clone`: another sender holding the same pointer to the same
/// channel, and so equal to the original, as a cloned `Arc` is.
#[verifier::external_body]
pub(crate) fn clone_sender(sender: &Sender<String>) -> (copy: Sender<String>)
    ensures
        copy == *sender,
        sender_channel(copy) == sender_channel(*sender),
{
    sender.clone()
}

} // verus!
