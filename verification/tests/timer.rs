use crane::timer::{backoff_millis, RandomExpBackoffTimer, MAX_DELAY_MILLIS, MIN_DELAY_MILLIS};

#[test]
fn backoff_starts_at_the_floor() {
    assert_eq!(backoff_millis(0), 2000);
    assert_eq!(backoff_millis(1), 2001);
    assert_eq!(backoff_millis(2999), 4999);
}

#[test]
fn backoff_is_cut_off_at_the_ceiling() {
    assert_eq!(backoff_millis(17999), 19999);
    assert_eq!(backoff_millis(18000), 20000);
    assert_eq!(backoff_millis(18001), 20000);
    assert_eq!(backoff_millis(u64::MAX), 20000);
}

#[test]
fn new_timer_is_due_at_once() {
    let timer = RandomExpBackoffTimer::new(500);
    assert!(timer.is_due(500));
    assert!(timer.is_due(501));
    assert!(!timer.is_due(499));
    assert_eq!(timer.due_time(), 500);
}

#[test]
fn reset_moves_the_due_time_into_the_window() {
    let mut timer = RandomExpBackoffTimer::new(0);
    let mut jitter: u64 = 0;
    while jitter < 40000 {
        let now = 1000 + jitter;
        let due = timer.reset(now, jitter);
        assert!(due >= u128::from(now + MIN_DELAY_MILLIS));
        assert!(due <= u128::from(now + MAX_DELAY_MILLIS));
        assert_eq!(timer.due_time(), due);
        assert!(!timer.is_due(now));
        assert!(!timer.is_due(u64::try_from(due).unwrap() - 1));
        assert!(timer.is_due(u64::try_from(due).unwrap()));
        jitter += 777;
    }
}

#[test]
fn reset_adds_the_exact_delay() {
    let mut timer = RandomExpBackoffTimer::new(0);
    assert_eq!(timer.reset(10, 0), 2010);
    assert_eq!(timer.reset(10, 1500), 3510);
    assert_eq!(timer.reset(2010, 100000), 22010);
}

#[test]
fn reset_is_bounded_at_the_end_of_the_clock() {
    let mut timer = RandomExpBackoffTimer::new(u64::MAX);
    assert!(timer.is_due(u64::MAX));
    let due = timer.reset(u64::MAX, 0);
    assert_eq!(due, u128::from(u64::MAX) + 2000);
    assert!(!timer.is_due(u64::MAX));
    let due = timer.reset(u64::MAX - 5, u64::MAX);
    assert_eq!(due, u128::from(u64::MAX) - 5 + 20000);
    assert_eq!(timer.due_time(), due);
}

#[test]
fn the_wait_follows_from_the_draw_alone() {
    let mut first = RandomExpBackoffTimer::new(0);
    let mut second = RandomExpBackoffTimer::new(999_999);
    let a = first.reset(1_000, 700) - 1_000;
    let b = second.reset(50_000, 700) - 50_000;
    let c = second.reset(50_000, 701) - 50_000;
    assert_eq!(a, 2700);
    assert_eq!(a, b);
    assert_eq!(c, 2701);
}
