use aucore::Clock;

#[test]
fn clock_accumulates_elapsed_time() {
    let c = Clock(5).tick(7).tick(8);
    assert_eq!(c.0, 20);
}

#[test]
fn clock_restarts_when_a_tick_reaches_the_top() {
    assert_eq!(Clock(u64::MAX - 5).tick(5).0, 0);
    assert_eq!(Clock(u64::MAX - 5).tick(100).0, 0);
    assert_eq!(Clock(u64::MAX - 5).tick(4).0, u64::MAX - 1);
}

#[test]
fn clock_starts_at_zero() {
    assert_eq!(Clock::default().0, 0);
}
