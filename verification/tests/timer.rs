use quiz_trainer::timer::Timer;

#[test]
fn fresh_timer_is_not_expired() {
    let t = Timer::new(60, 1000);
    assert!(!t.is_expired(1000));
    assert!(t.remaining(1000) <= 60);
    assert_eq!(t.remaining(1000), 60);
    assert_eq!(t.elapsed(1000), 0);
}

#[test]
fn elapsed_counts_from_start() {
    let t = Timer::new(60, 100);
    assert_eq!(t.elapsed(100), 0);
    assert_eq!(t.elapsed(130), 30);
    assert_eq!(t.elapsed(159), 59);
    // A reading older than the start counts as no time passed.
    assert_eq!(t.elapsed(40), 0);
}

#[test]
fn remaining_is_clamped_at_zero() {
    let t = Timer::new(60, 100);
    assert_eq!(t.remaining(100), 60);
    assert_eq!(t.remaining(159), 1);
    assert_eq!(t.remaining(160), 0);
    assert_eq!(t.remaining(10_000), 0);
}

#[test]
fn expiry_at_and_past_the_limit() {
    let t = Timer::new(60, 100);
    assert!(!t.is_expired(159));
    assert!(t.is_expired(160));
    assert!(t.is_expired(161));
    assert_eq!(t.remaining(160), 0);
    assert_eq!(t.remaining(500), 0);
}

#[test]
fn expiry_stays_once_reached() {
    let t = Timer::new(5, 0);
    let mut now = 5;
    while now < 50 {
        assert!(t.is_expired(now));
        now += 7;
    }
}

#[test]
fn reset_discards_prior_state() {
    let mut t = Timer::new(5, 0);
    assert!(t.is_expired(5));
    t.reset(30, 5);
    assert!(!t.is_expired(5));
    assert_eq!(t.remaining(5), 30);
    assert!(t.is_expired(35));
}

#[test]
fn reset_twice_same_limit_is_idempotent() {
    let mut once = Timer::new(60, 0);
    once.reset(30, 20);
    let mut twice = Timer::new(60, 0);
    twice.reset(30, 10);
    twice.reset(30, 20);
    // Measured from the second reset the two timers are indistinguishable.
    assert_eq!(once.elapsed(25), twice.elapsed(25));
    assert_eq!(once.remaining(25), twice.remaining(25));
    assert_eq!(once.is_expired(50), twice.is_expired(50));
    assert_eq!(once.started_at, twice.started_at);
    assert_eq!(once.limit, twice.limit);
}
