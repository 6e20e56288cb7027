use aura_core::clock::{saturating_nanos, MonotonicClock};

#[test]
fn nanos_below_the_limit_pass_through() {
    assert_eq!(saturating_nanos(0), 0);
    assert_eq!(saturating_nanos(1_500_000_000), 1_500_000_000);
    assert_eq!(saturating_nanos(u64::MAX as u128), u64::MAX);
}

#[test]
fn nanos_above_the_limit_saturate() {
    assert_eq!(saturating_nanos(u64::MAX as u128 + 1), u64::MAX);
    assert_eq!(saturating_nanos(u128::MAX), u64::MAX);
}

#[test]
fn clock_readings_do_not_go_back() {
    let clock = MonotonicClock::start();
    let a = clock.now_ns();
    let b = clock.now_ns();
    assert!(b >= a);
}
