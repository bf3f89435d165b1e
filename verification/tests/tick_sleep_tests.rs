//! The tick clock and tick-aware sleeping, driven through the library's
//! public surface together with the real channels underneath it.

use std::sync::atomic::Ordering;

use tick_bridge::sleep::sleep_step;
use tick_bridge::BridgeError;
use tick_bridge::BridgeHandle;
use tick_bridge::SignalPoll;
use tick_bridge::SleepWait;
use tick_bridge::TickClock;

#[test]
fn advance_returns_successive_ticks() {
    let mut clock = TickClock::new();
    assert_eq!(clock.current(), 0);
    assert_eq!(clock.advance(), 1);
    assert_eq!(clock.advance(), 2);
    assert_eq!(clock.advance(), 3);
    assert_eq!(clock.current(), 3);
}

#[test]
fn counter_handle_mirrors_every_advance() {
    let mut clock = TickClock::new();
    let mirror = clock.counter_handle();
    assert_eq!(mirror.load(Ordering::SeqCst), 0);
    clock.advance();
    assert_eq!(mirror.load(Ordering::SeqCst), 1);
    clock.advance();
    clock.advance();
    // The mirror never runs backwards and shows the latest advance.
    assert_eq!(mirror.load(Ordering::SeqCst), 3);
}

#[test]
fn subscription_reports_changes_and_teardown() {
    let mut clock = TickClock::new();
    let rx = clock.subscribe();
    assert_eq!(rx.has_changed().unwrap(), false);
    clock.advance();
    assert_eq!(rx.has_changed().unwrap(), true);
    drop(clock);
    assert!(rx.has_changed().is_err());
}

#[test]
fn sleep_threshold_not_reached_early() {
    let wait = SleepWait::new(0, 3);
    assert!(!wait.is_done(0));
    assert!(!wait.is_done(1));
    assert!(!wait.is_done(2));
    assert!(wait.is_done(3));
}

#[test]
fn sleep_resumes_on_overshoot() {
    // Coalescing: the clock may advance past the target between two
    // observations; a late check must still resume.
    let wait = SleepWait::new(2, 3);
    assert!(wait.is_done(5));
    assert!(wait.is_done(17));
}

#[test]
fn sleep_target_wraps_on_overflow() {
    let wait = SleepWait::new(u64::MAX, 2);
    // The target wrapped to 1, so tick 1 completes the sleep.
    assert!(!wait.is_done(0));
    assert!(wait.is_done(1));
}

#[test]
fn sleep_three_updates_wakes_exactly_once_after_third_tick() {
    // Tick starts at 0; the task asks to sleep 3 updates; the pump then
    // advances three times in a row without the task observing ticks 1 or
    // 2. The task's threshold check resumes it exactly once, after tick 3.
    let mut handle: BridgeHandle<u8> = BridgeHandle::new();
    let mut ctx = handle.task_context();
    let wait = ctx.begin_sleep(3);
    let mut out: Vec<u8> = Vec::new();
    for _ in 0..3 {
        handle.tick_pump(&mut out).unwrap();
    }
    // The notification coalesced: one pending change, not three.
    assert_eq!(ctx.poll_tick_change(), SignalPoll::Changed);
    assert_eq!(ctx.poll_tick_change(), SignalPoll::Unchanged);
    // The single late check resumes the sleep: the clock, now at 3,
    // reached the target even though ticks 1 and 2 were never observed.
    assert_eq!(ctx.current_tick(), 3);
    assert!(wait.is_done(ctx.current_tick()));
    // Tick 2 alone would not have resumed it.
    assert!(!wait.is_done(2));
}

#[test]
fn world_thread_sleep_completes_after_exact_count() {
    let mut handle: BridgeHandle<u8> = BridgeHandle::new();
    let mut out: Vec<u8> = Vec::new();
    handle.tick_pump(&mut out).unwrap();
    let wait = handle.begin_sleep(2);
    assert!(!wait.is_done(handle.current_tick()));
    handle.tick_pump(&mut out).unwrap();
    assert!(!wait.is_done(handle.current_tick()));
    handle.tick_pump(&mut out).unwrap();
    assert!(wait.is_done(handle.current_tick()));
}

#[test]
fn sleep_step_decides_resume_wait_or_closed() {
    let wait = SleepWait::new(0, 3);
    // Target reached: resume, even if the clock is closing down.
    assert_eq!(sleep_step(&wait, 3, SignalPoll::Unchanged), Ok(true));
    assert_eq!(sleep_step(&wait, 9, SignalPoll::Closed), Ok(true));
    // Target not reached: keep waiting while the clock lives...
    assert_eq!(sleep_step(&wait, 2, SignalPoll::Changed), Ok(false));
    assert_eq!(sleep_step(&wait, 0, SignalPoll::Unchanged), Ok(false));
    // ...and surface teardown as an early wake, not a completed sleep.
    assert_eq!(sleep_step(&wait, 2, SignalPoll::Closed), Err(BridgeError::ClockClosed));
}

#[test]
fn poll_tick_change_reports_closed_after_teardown() {
    let handle: BridgeHandle<u8> = BridgeHandle::new();
    let mut ctx = handle.task_context();
    assert_eq!(ctx.poll_tick_change(), SignalPoll::Unchanged);
    drop(handle);
    assert_eq!(ctx.poll_tick_change(), SignalPoll::Closed);
}
