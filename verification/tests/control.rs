use crane::control::{rearm, tick, Tick, TICK_PERIOD_MILLIS};
use crane::timer::RandomExpBackoffTimer;
use crane::ui::Summary;

#[test]
fn shutdown_wins_over_everything() {
    assert_eq!(tick(false, true), Tick::Stop);
    assert_eq!(tick(false, false), Tick::Stop);
}

#[test]
fn a_due_timer_starts_an_attempt() {
    assert_eq!(tick(true, true), Tick::Attempt);
    assert_eq!(tick(true, false), Tick::Wait);
}

#[test]
fn tick_period_is_short() {
    assert_eq!(TICK_PERIOD_MILLIS, 64);
}

#[test]
fn rearm_sets_timer_and_retry_window() {
    let mut timer = RandomExpBackoffTimer::new(0);
    let mut summary = Summary::new(Vec::new(), 0);
    let due = rearm(&mut timer, &mut summary, 5000, 1234);
    assert_eq!(due, 8234);
    assert_eq!(timer.due_time(), 8234);
    assert!(!timer.is_due(8233));
    assert!(timer.is_due(8234));
    let window = summary.retry_window();
    assert_eq!(window.start_time, 5000);
    assert_eq!(window.due_time, 8234);
    assert_eq!(window.window_millis(), 3234);
    assert_eq!(tick(true, timer.is_due(6000)), Tick::Wait);
    assert_eq!(tick(true, timer.is_due(9000)), Tick::Attempt);
    assert_eq!(tick(false, timer.is_due(9000)), Tick::Stop);
}
