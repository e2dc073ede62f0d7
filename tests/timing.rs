use rustcraft::timing::{elapsed_micros, Clock, is_stall, rate_milli_hz, threshold_or_default, DEFAULT_STALL_MICROS};

#[test]
fn elapsed_forward() {
    assert_eq!(elapsed_micros(1_000, 21_000), 20_000);
    assert_eq!(elapsed_micros(-5, 5), 10);
}

#[test]
fn elapsed_clock_stepped_back_is_zero() {
    assert_eq!(elapsed_micros(21_000, 1_000), 0);
}

#[test]
fn elapsed_full_range() {
    assert_eq!(elapsed_micros(i64::MIN, i64::MAX), u64::MAX);
}

#[test]
fn stall_is_strictly_above_threshold() {
    assert!(is_stall(30_000, 16_670));
    assert!(!is_stall(16_670, 16_670));
    assert!(!is_stall(10_000, 16_670));
}

#[test]
fn rate_of_twenty_ms_is_fifty_hz() {
    assert_eq!(rate_milli_hz(Some(20_000)), 50_000);
    assert_eq!(rate_milli_hz(Some(20_000)) / 1000, 50);
}

#[test]
fn rate_sentinel_without_duration() {
    assert_eq!(rate_milli_hz(None), 0);
    assert_eq!(rate_milli_hz(Some(0)), 0);
}

#[test]
fn rate_truncates() {
    assert_eq!(rate_milli_hz(Some(16_670)), 59_988);
    assert_eq!(rate_milli_hz(Some(1)), 1_000_000_000);
}

#[test]
fn threshold_default_and_set() {
    assert_eq!(DEFAULT_STALL_MICROS, 16_670);
    assert_eq!(threshold_or_default(None), 16_670);
    assert_eq!(threshold_or_default(Some(33_000)), 33_000);
}


#[test]
fn clock_readings_do_not_go_back() {
    let clock = Clock::start();
    let a = clock.now_micros();
    let mut spin = 0u64;
    for i in 0..100_000u64 {
        spin = spin.wrapping_add(i);
    }
    assert!(spin > 0);
    let b = clock.now_micros();
    assert!(a >= 0);
    assert!(b >= a);
    assert!(b < 60_000_000);
}
