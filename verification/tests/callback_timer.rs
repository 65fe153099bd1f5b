use obsidian_scheduler::callback::{after_callback, callback_timer_name, CallbackTimer, TickAction};
use std::sync::Arc;
use std::time::Duration;

#[test]
fn new_timer_keeps_callback_and_interval() {
    let timer = CallbackTimer::new(|x: u32| x + 1, Duration::from_secs(5));
    assert_eq!(timer.interval(), Duration::from_secs(5));
    let callback = timer.callback();
    assert_eq!(callback(41), 42);
}

#[test]
fn callback_timer_starts_stopped() {
    let timer = CallbackTimer::new(|| (), Duration::from_secs(1));
    let slot = timer.slot();
    let guard = slot.try_lock().expect("unlocked");
    assert!(!guard.is_running());
}

#[test]
fn timer_handle_controls_the_same_slot() {
    let timer = CallbackTimer::new(|| (), Duration::from_secs(1));
    let handle = timer.timer_handle();
    assert!(Arc::ptr_eq(&handle.slot(), &timer.slot()));
    let copy = handle.clone();
    assert!(Arc::ptr_eq(&copy.slot(), &timer.slot()));
}

#[test]
fn two_timers_have_separate_slots() {
    let a = CallbackTimer::new(|| (), Duration::from_secs(1));
    let b = CallbackTimer::new(|| (), Duration::from_secs(1));
    assert!(!Arc::ptr_eq(&a.slot(), &b.slot()));
}

#[test]
fn callback_timer_errors_carry_its_name() {
    assert_eq!(callback_timer_name(), "CallbackTimer");
}

#[test]
fn failed_callback_is_reported_and_timer_goes_on() {
    let ok: Result<(), String> = Ok(());
    let failed: Result<(), String> = Err("boom".to_string());
    assert_eq!(after_callback(&ok), TickAction::Continue);
    assert_eq!(after_callback(&failed), TickAction::ReportAndContinue);
}
