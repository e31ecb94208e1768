use nippy::protocol::{ShortFormat, TimestampFormat};
use nippy::{Instant, InvariantViolation, EPOCH_DELTA};

#[test]
fn new_accepts_same_sign_components() {
    let i = Instant::new(5, 500_000_000).unwrap();
    assert_eq!(i.secs(), 5);
    assert_eq!(i.subsec_nanos(), 500_000_000);
    assert!(Instant::new(0, 0).is_ok());
    assert!(Instant::new(-5, -1).is_ok());
    assert!(Instant::new(0, 7).is_ok());
    assert!(Instant::new(-7, 0).is_ok());
}

#[test]
fn new_rejects_sign_mismatch() {
    assert_eq!(Instant::new(5, -1), Err(InvariantViolation));
    assert_eq!(Instant::new(-5, 1), Err(InvariantViolation));
}

#[test]
fn now_components_share_a_sign() {
    let i = Instant::now();
    if i.secs() > 0 {
        assert!(i.subsec_nanos() >= 0);
    }
    if i.secs() < 0 {
        assert!(i.subsec_nanos() <= 0);
    }
    assert!(i.subsec_nanos() > -1_000_000_000);
    assert!(i.subsec_nanos() < 1_000_000_000);
}

#[test]
fn ntp_epoch_maps_to_unix_epoch() {
    let t = TimestampFormat { seconds: 2_208_988_800, fraction: 0 };
    let i = Instant::from_timestamp_format(t);
    assert_eq!(i.secs(), 0);
    assert_eq!(i.subsec_nanos(), 0);
}

#[test]
fn timestamp_half_second_fraction() {
    let t = TimestampFormat { seconds: 2_208_988_805, fraction: 0x8000_0000 };
    let i = Instant::from_timestamp_format(t);
    assert_eq!(i.secs(), 5);
    assert_eq!(i.subsec_nanos(), 500_000_000);
}

#[test]
fn short_format_half_second_borrows_across_epoch() {
    let t = ShortFormat { seconds: 1, fraction: 32768 };
    let i = Instant::from_short_format(t);
    // The raw components would be 1 - EPOCH_DELTA seconds and a positive
    // half second; one second is borrowed so both carry the pre-epoch
    // sign while the represented time is unchanged.
    assert_eq!(i.secs(), 1 - EPOCH_DELTA + 1);
    assert_eq!(i.subsec_nanos(), -500_000_000);
    let total_nanos = i.secs() as i128 * 1_000_000_000 + i.subsec_nanos() as i128;
    assert_eq!(
        total_nanos,
        (1 - EPOCH_DELTA) as i128 * 1_000_000_000 + 500_000_000,
    );
}

#[test]
fn unix_epoch_encodes_to_ntp_epoch() {
    let i = Instant::new(0, 0).unwrap();
    let t = i.to_timestamp_format();
    assert_eq!(t.seconds, 2_208_988_800);
    assert_eq!(t.fraction, 0);
}

#[test]
fn half_second_encodes_exactly() {
    let i = Instant::new(0, 500_000_000).unwrap();
    let t = i.to_timestamp_format();
    assert_eq!(t.seconds, 2_208_988_800);
    assert_eq!(t.fraction, 0x8000_0000);
    let s = i.to_short_format();
    assert_eq!(s.seconds, (2_208_988_800u64 % 0x1_0000) as u16);
    assert_eq!(s.fraction, 0x8000);
}

#[test]
fn timestamp_round_trip_is_exact() {
    for (secs, nanos) in [
        (0i64, 0i32),
        (5, 123_456_789),
        (1_700_000_000, 999_999_999),
        (2_000_000_000, 1),
    ] {
        let i = Instant::new(secs, nanos).unwrap();
        let t = i.to_timestamp_format();
        let back = Instant::from_timestamp_format(t);
        assert_eq!(back.secs(), secs);
        assert_eq!(back.subsec_nanos(), nanos);
    }
}

#[test]
fn pre_epoch_instant_loses_fraction_when_encoded() {
    let i = Instant::new(-1, -5).unwrap();
    let t = i.to_timestamp_format();
    assert_eq!(t.seconds, 2_208_988_799);
    assert_eq!(t.fraction, 0);
}

#[test]
fn oversized_nanoseconds_saturate_the_fraction() {
    let i = Instant::new(5, 2_000_000_000).unwrap();
    let t = i.to_timestamp_format();
    assert_eq!(t.fraction, 0xFFFF_FFFF);
    let s = i.to_short_format();
    assert_eq!(s.fraction, 0xFFFF);
}

#[test]
fn short_format_fraction_is_monotonic() {
    let mut last = 0u16;
    for nanos in (0..1_000_000_000i32).step_by(10_000_000) {
        let i = Instant::new(3, nanos).unwrap();
        let s = i.to_short_format();
        assert!(s.fraction >= last);
        last = s.fraction;
    }
}
