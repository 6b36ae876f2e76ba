use std::time::Instant;

use test_gpu::delta_time::{CheckedDelta, DeltaTime, DeltaValue};

fn nanos_since(origin: Instant) -> u64 {
    origin.elapsed().as_nanos() as u64
}

#[test]
fn test_delta_time() {
    let origin = Instant::now();
    let mut d = DeltaTime::new(nanos_since(origin));
    d.update(nanos_since(origin));
    assert!(d.delta().is_some());
}

#[test]
fn delta_time_has_no_delta_before_second_sample() {
    let d = DeltaTime::new(1_000);
    assert_eq!(d.delta(), None);
}

#[test]
fn delta_time_measures_between_samples() {
    let mut d = DeltaTime::new(1_000);
    d.update(1_500);
    assert_eq!(d.delta(), Some(500));
    d.update(4_000);
    assert_eq!(d.delta(), Some(2_500));
    d.update(4_000);
    assert_eq!(d.delta(), Some(0));
}

#[test]
fn delta_time_saturates_when_clock_goes_back() {
    let mut d = DeltaTime::new(10_000);
    d.update(9_000);
    assert_eq!(d.delta(), Some(0));
    d.update(9_250);
    assert_eq!(d.delta(), Some(250));
}

#[test]
fn delta_value_returns_difference_and_moves_on() {
    let mut v = DeltaValue::new(10u64);
    assert_eq!(v.update(25), Some(15));
    assert_eq!(v.update(27), Some(2));
}

#[test]
fn delta_value_keeps_previous_when_difference_underflows() {
    let mut v = DeltaValue::new(10u32);
    assert_eq!(v.update(4), None);
    assert_eq!(v.update(12), Some(2));
}

#[test]
fn delta_value_signed_overflow() {
    let mut v = DeltaValue::new(i64::MIN);
    assert_eq!(v.update(1), None);
    assert_eq!(v.update(-1), Some(i64::MAX));
    let mut w = DeltaValue::new(5i64);
    assert_eq!(w.update(-3), Some(-8));
}

#[test]
fn checked_delta_on_integers() {
    assert_eq!(7u128.checked_delta(&3), Some(4));
    assert_eq!(3usize.checked_delta(&7), None);
    assert_eq!(u64::MAX.checked_delta(&0), Some(u64::MAX));
}
