use zeebe_rs::time::Duration;

#[test]
fn from_secs_in_millis() {
    assert_eq!(Duration::from_secs(10).as_millis(), 10_000);
    assert_eq!(Duration::from_secs(u64::MAX).as_millis(), u64::MAX as u128 * 1000);
}

#[test]
fn from_millis_round_trips() {
    let d = Duration::from_millis(2_500);
    assert_eq!(d.as_secs(), 2);
    assert_eq!(d.subsec_nanos(), 500_000_000);
    assert_eq!(d.as_millis(), 2_500);
}

#[test]
fn new_carries_nanoseconds() {
    let d = Duration::new(1, 2_000_000_001);
    assert_eq!(d.as_secs(), 3);
    assert_eq!(d.subsec_nanos(), 1);
    assert_eq!(d.as_millis(), 3_000);
    assert_eq!(Duration::new(0, 999_999).as_millis(), 0);
}

#[test]
fn zero_is_empty() {
    assert_eq!(Duration::zero().as_millis(), 0);
    assert_eq!(Duration::zero(), Duration::from_secs(0));
}
