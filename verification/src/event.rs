//! Named timers that broadcast their name to every subscriber at each tick.
//!
//! Each event timer is registered under its name when it is created; a second
//! timer with the same name is refused. A timer can be found again by its name,
//! from any task, and its clones share one channel and one task slot.
use vstd::prelude::*;
use std::time::Duration;
use tokio::sync::broadcast::{Receiver, Sender};
use crate::callback::{new_shared_slot, SharedTaskSlot, TickAction};
use crate::error::SchedulerError;
use crate::registry::TimerRegistry;
use crate::runtime::{
    broadcast_channel, channel_capacity, lock_created_with, clone_sender, receiver_channel, sender_channel, share,
    subscribe_receiver,
};

verus! {

/// The capacity that an event timer's channel is created with: a subscriber
/// may fall that many events behind (tokio rounds it up to 128) before it
/// starts to lose events.
pub const EVENT_CHANNEL_CAPACITY: usize = 100;

/// A timer that sends its name to all of its subscribers every `interval`
/// while it is running.
#[derive(Debug)]
pub struct EventTimer {
    /// The name under which the timer is registered, and the event it sends.
    pub event_name: String,
    /// The time between two events.
    pub interval: Duration,
    sender: Sender<String>,
    handle: SharedTaskSlot,
}

/// What looking up `name` in a registry of event timers finds.
pub open spec fn lookup(registry: Map<Seq<char>, EventTimer>, name: Seq<char>) -> Option<EventTimer> {
    if registry.contains_key(name) {
        Some(registry[name])
    } else {
        None
    }
}

impl Clone for EventTimer {
    /// The same timer: same name, interval, channel and task slot.
    fn clone(&self) -> (copy: Self)
        ensures
            copy == *self,
    {
        EventTimer {
            event_name: self.event_name.clone(),
            interval: self.interval,
            sender: clone_sender(&self.sender),
            handle: share(&self.handle),
        }
    }
}

impl EventTimer {
    /// The timer's name.
    pub closed spec fn name_view(&self) -> String {
        self.event_name
    }

    /// The time between two events.
    pub closed spec fn interval_view(&self) -> Duration {
        self.interval
    }

    /// The sending half of the timer's channel.
    pub closed spec fn sender_view(&self) -> Sender<String> {
        self.sender
    }

    /// The slot of the timer's background task.
    pub closed spec fn slot_view(&self) -> SharedTaskSlot {
        self.handle
    }

    /// Creates a stopped timer named `event_name` and registers it in
    /// `registry`. A name that is already registered is refused with
    /// `TimerAlreadyExists(event_name)`, and the registry is left as it was.
    pub fn new(event_name: String, interval: Duration, registry: &mut TimerRegistry<EventTimer>) -> (created: Result<EventTimer, SchedulerError>)
        ensures
            old(registry)@.contains_key(event_name@) ==> {
                &&& created == Err::<EventTimer, SchedulerError>(SchedulerError::TimerAlreadyExists(event_name))
                &&& final(registry)@ == old(registry)@
            },
            !old(registry)@.contains_key(event_name@) ==> {
                &&& created is Ok
                &&& created->Ok_0.name_view() == event_name
                &&& created->Ok_0.interval_view() == interval
                &&& channel_capacity(created->Ok_0.sender_view()) == EVENT_CHANNEL_CAPACITY
                &&& lock_created_with(*created->Ok_0.slot_view()) is None
                &&& final(registry)@ == old(registry)@.insert(event_name@, created->Ok_0)
            },
    {
        let (sender, _receiver) = broadcast_channel(EVENT_CHANNEL_CAPACITY);
        let timer = EventTimer { event_name, interval, sender, handle: new_shared_slot() };
        match timer.register_timer(registry) {
            Ok(()) => Ok(timer),
            Err(e) => Err(e),
        }
    }

    /// Registers this timer under its name, unless that name is taken.
    fn register_timer(&self, registry: &mut TimerRegistry<EventTimer>) -> (registered: Result<(), SchedulerError>)
        ensures
            old(registry)@.contains_key(self.event_name@) ==> {
                &&& registered == Err::<(), SchedulerError>(SchedulerError::TimerAlreadyExists(self.event_name))
                &&& final(registry)@ == old(registry)@
            },
            !old(registry)@.contains_key(self.event_name@) ==> {
                &&& registered is Ok
                &&& final(registry)@ == old(registry)@.insert(self.event_name@, *self)
            },
    {
        if registry.contains(&self.event_name) {
            return Err(SchedulerError::TimerAlreadyExists(self.event_name.clone()));
        }
        registry.insert_new(self.event_name.clone(), self.clone());
        Ok(())
    }

    /// A new receiver of the timer's events: from now on it gets the timer's
    /// name at each tick.
    pub fn subscribe(&self) -> (receiver: Receiver<String>)
        ensures
            receiver_channel(receiver) == sender_channel(self.sender_view()),
    {
        subscribe_receiver(&self.sender)
    }

    /// The timer registered under `name` in `registry`, if there is one.
    pub fn get_timer_by_name(registry: &TimerRegistry<EventTimer>, name: &str) -> (found: Option<EventTimer>)
        ensures
            found == lookup(registry@, name@),
    {
        let key = name.to_owned();
        match registry.get(&key) {
            Some(timer) => Some(timer.clone()),
            None => None,
        }
    }

    /// Takes the timer's name out of `registry`, so that the name can be used
    /// again; answers whether it was registered.
    pub fn unregister(&self, registry: &mut TimerRegistry<EventTimer>) -> (was_registered: bool)
        ensures
            final(registry)@ == old(registry)@.remove(self.name_view()@),
            was_registered == old(registry)@.contains_key(self.name_view()@),
    {
        registry.remove(&self.event_name).is_some()
    }

    /// The event that each tick sends: the timer's name.
    pub fn event(&self) -> (event: String)
        ensures
            event == self.name_view(),
    {
        self.event_name.clone()
    }

    /// The sending half of the timer's channel, for its background task.
    pub fn sender(&self) -> (sender: Sender<String>)
        ensures
            sender == self.sender_view(),
    {
        clone_sender(&self.sender)
    }

    /// The slot of the timer's background task, shared.
    pub fn slot(&self) -> (slot: SharedTaskSlot)
        ensures
            slot == self.slot_view(),
    {
        share(&self.handle)
    }
}

/// The decision after an event timer's tick has sent its event: a send fails
/// only while the timer has no subscriber, and the timer keeps running either
/// way.
pub fn after_send<E>(outcome: &Result<usize, E>) -> (action: TickAction)
    ensures
        action == TickAction::Continue,
{
    match outcome {
        Ok(_) => TickAction::Continue,
        Err(_) => TickAction::Continue,
    }
}

/// A timer created under a fresh name is the one that a lookup of that name
/// finds, and creating it changes no lookup of another name.
pub proof fn law_found_after_create(registry: Map<Seq<char>, EventTimer>, timer: EventTimer, other: Seq<char>)
    requires
        !registry.contains_key(timer.name_view()@),
        other != timer.name_view()@,
    ensures
        lookup(registry.insert(timer.name_view()@, timer), timer.name_view()@) == Some(timer),
        lookup(registry.insert(timer.name_view()@, timer), other) == lookup(registry, other),
{
}

/// Once a timer is unregistered, its name finds nothing.
pub proof fn law_not_found_after_unregister(registry: Map<Seq<char>, EventTimer>, name: Seq<char>)
    ensures
        lookup(registry.remove(name), name) is None,
{
}

} // verus!
