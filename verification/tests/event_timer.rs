use obsidian_scheduler::error::SchedulerError;
use obsidian_scheduler::callback::TickAction;
use obsidian_scheduler::event::{after_send, EventTimer, EVENT_CHANNEL_CAPACITY};
use obsidian_scheduler::registry::TimerRegistry;
use std::sync::Arc;
use std::time::Duration;

#[test]
fn new_timer_is_registered_under_its_name() {
    let mut registry = TimerRegistry::new();
    let timer = EventTimer::new("my_timer".to_string(), Duration::from_secs(5), &mut registry)
        .expect("fresh name");
    assert_eq!(timer.event_name, "my_timer");
    assert_eq!(timer.interval, Duration::from_secs(5));
    assert!(registry.contains(&"my_timer".to_string()));
}

#[test]
fn second_timer_with_same_name_is_refused() {
    let mut registry = TimerRegistry::new();
    let first = EventTimer::new("dup".to_string(), Duration::from_secs(1), &mut registry);
    assert!(first.is_ok());
    let second = EventTimer::new("dup".to_string(), Duration::from_secs(2), &mut registry);
    match second {
        Err(SchedulerError::TimerAlreadyExists(n)) => assert_eq!(n, "dup"),
        _ => panic!("a duplicate name must be refused"),
    }
    let found = EventTimer::get_timer_by_name(&registry, "dup").expect("registered");
    assert_eq!(found.interval, Duration::from_secs(1));
}

#[test]
fn timer_is_found_by_name() {
    let mut registry = TimerRegistry::new();
    let timer = EventTimer::new("cross_thread_timer".to_string(), Duration::from_secs(2), &mut registry)
        .expect("fresh name");
    let found = EventTimer::get_timer_by_name(&registry, "cross_thread_timer").expect("registered");
    assert_eq!(found.event_name, "cross_thread_timer");
    assert_eq!(found.interval, Duration::from_secs(2));
    assert!(Arc::ptr_eq(&found.slot(), &timer.slot()));
    assert!(EventTimer::get_timer_by_name(&registry, "other").is_none());
}

#[test]
fn unregistered_timer_is_not_found() {
    let mut registry = TimerRegistry::new();
    let timer = EventTimer::new("gone".to_string(), Duration::from_secs(1), &mut registry)
        .expect("fresh name");
    assert!(timer.unregister(&mut registry));
    assert!(EventTimer::get_timer_by_name(&registry, "gone").is_none());
    assert!(!timer.unregister(&mut registry));
    let again = EventTimer::new("gone".to_string(), Duration::from_secs(3), &mut registry);
    assert!(again.is_ok());
}

#[test]
fn subscribers_receive_the_event_name() {
    let mut registry = TimerRegistry::new();
    let timer = EventTimer::new("tick".to_string(), Duration::from_secs(1), &mut registry)
        .expect("fresh name");
    let mut first = timer.subscribe();
    let mut second = timer.subscribe();
    let sender = timer.sender();
    assert_eq!(sender.receiver_count(), 2);
    sender.send(timer.event()).expect("two receivers");
    assert_eq!(first.try_recv().expect("event"), "tick");
    assert_eq!(second.try_recv().expect("event"), "tick");
}

#[test]
fn clone_shares_channel_and_slot() {
    let mut registry = TimerRegistry::new();
    let timer = EventTimer::new("shared".to_string(), Duration::from_millis(10), &mut registry)
        .expect("fresh name");
    let copy = timer.clone();
    assert_eq!(copy.event_name, "shared");
    assert!(Arc::ptr_eq(&copy.slot(), &timer.slot()));
    assert!(copy.sender().same_channel(&timer.sender()));
    let mut receiver = copy.subscribe();
    timer.sender().send(timer.event()).expect("one receiver");
    assert_eq!(receiver.try_recv().expect("event"), "shared");
}

#[test]
fn event_timer_starts_stopped() {
    let mut registry = TimerRegistry::new();
    let timer = EventTimer::new("idle".to_string(), Duration::from_secs(1), &mut registry)
        .expect("fresh name");
    let slot = timer.slot();
    let guard = slot.try_lock().expect("unlocked");
    assert!(!guard.is_running());
}

#[test]
fn channel_capacity_is_one_hundred() {
    assert_eq!(EVENT_CHANNEL_CAPACITY, 100);
}

#[test]
fn channel_buffers_a_full_capacity_of_events() {
    let mut registry = TimerRegistry::new();
    let timer = EventTimer::new("burst".to_string(), Duration::from_secs(1), &mut registry)
        .expect("fresh name");
    let mut receiver = timer.subscribe();
    let sender = timer.sender();
    for _ in 0..EVENT_CHANNEL_CAPACITY {
        sender.send(timer.event()).expect("one receiver");
    }
    for _ in 0..EVENT_CHANNEL_CAPACITY {
        assert_eq!(receiver.try_recv().expect("no event lost"), "burst");
    }
}

#[test]
fn failed_send_keeps_event_timer_running() {
    let sent: Result<usize, String> = Ok(2);
    let unsent: Result<usize, String> = Err("no subscriber".to_string());
    assert_eq!(after_send(&sent), TickAction::Continue);
    assert_eq!(after_send(&unsent), TickAction::Continue);
}

#[test]
fn event_timer_has_debug_output() {
    let mut registry = TimerRegistry::new();
    let timer = EventTimer::new("dbg".to_string(), Duration::from_secs(1), &mut registry)
        .expect("fresh name");
    assert!(format!("{:?}", timer).contains("dbg"));
}
