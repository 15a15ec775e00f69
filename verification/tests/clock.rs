use heating_control::clock::{Timestamp, NANOS_PER_SECOND};

#[test]
fn elapsed_time_is_clamped_at_zero() {
    let early = Timestamp::from_nanos(1_000);
    let late = Timestamp::from_nanos(3_500_000_123);
    assert_eq!(late.nanos_since(&early), 3_499_999_123);
    assert_eq!(early.nanos_since(&late), 0);
    assert_eq!(late.nanos_since(&late), 0);
    assert_eq!(late.seconds_since(&early), 3);
    assert_eq!(early.seconds_since(&late), 0);
    assert_eq!(Timestamp::from_nanos(u128::MAX).nanos_since(&Timestamp::from_nanos(0)), u128::MAX);
}

#[test]
fn whole_seconds_round_down() {
    let start = Timestamp::from_nanos(7);
    assert_eq!(Timestamp::from_nanos(7 + NANOS_PER_SECOND - 1).seconds_since(&start), 0);
    assert_eq!(Timestamp::from_nanos(7 + NANOS_PER_SECOND).seconds_since(&start), 1);
    assert_eq!(Timestamp::from_nanos(7 + 900 * NANOS_PER_SECOND + 5).seconds_since(&start), 900);
}
