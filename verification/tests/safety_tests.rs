use gsteng::safety::Safety;

#[test]
fn moves_are_rate_limited() {
    let mut s = Safety::new(1000);
    assert!(!s.check_move_allowed(1050));
    assert!(s.check_move_allowed(1100));
    assert_eq!(s.last_move_ms, 1100);
    assert!(!s.check_move_allowed(1199));
    assert!(s.check_move_allowed(1200));
}

#[test]
fn a_clock_reading_earlier_allows_nothing() {
    let mut s = Safety::new(5000);
    assert!(!s.check_move_allowed(10));
    assert_eq!(s.last_move_ms, 5000);
}

#[test]
fn watchdog_raises_a_sticky_emergency() {
    let mut s = Safety::new(0);
    s.feed_watchdog(1000);
    assert!(!s.watchdog_check(4000));
    assert!(!s.is_emergency());
    assert!(s.watchdog_check(4001));
    assert!(s.is_emergency());
    s.feed_watchdog(5000);
    assert!(!s.watchdog_check(5001));
    assert!(s.is_emergency());
    s.check_move_allowed(10_000);
    assert!(s.is_emergency());
}

#[test]
fn trigger_emergency_by_hand() {
    let mut s = Safety::new(0);
    s.trigger_emergency();
    assert!(s.is_emergency());
    assert_eq!(s.rate_limit_ms, 100);
    assert_eq!(s.connection_timeout_ms, 3000);
}
