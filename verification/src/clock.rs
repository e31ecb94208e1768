//! Trusted declarations for the system wall clock.

use vstd::prelude::*;

verus! {

#[verifier::external_type_specification]
#[verifier::external_body]
pub struct ExSystemTime(std::time::SystemTime);

#[verifier::external_type_specification]
#[verifier::external_body]
pub struct ExSystemTimeError(std::time::SystemTimeError);

/// Relies on std::time::SystemTime::now: an opaque wall-clock reading;
/// nothing is promised of its value.
pub assume_specification[ std::time::SystemTime::now ]() -> std::time::SystemTime;

/// Relies on std::time::SystemTime::duration_since: the distance from
/// `earlier` to `t`, or an error when `t` lies before `earlier`; the
/// distance itself is opaque.
pub assume_specification[ std::time::SystemTime::duration_since ](
    t: &std::time::SystemTime,
    earlier: std::time::SystemTime,
) -> Result<core::time::Duration, std::time::SystemTimeError>;

/// Relies on std::time::SystemTimeError::duration: how far the reading
/// lay before the reference time.
pub assume_specification[ std::time::SystemTimeError::duration ](
    e: &std::time::SystemTimeError,
) -> core::time::Duration;

/// Relies on core::time::Duration::as_secs: the whole-second part of
/// the duration.
pub assume_specification[ core::time::Duration::as_secs ](d: &core::time::Duration) -> u64;

/// Relies on core::time::Duration::subsec_nanos: the fractional part in
/// nanoseconds, documented to be less than one billion.
pub assume_specification[ core::time::Duration::subsec_nanos ](d: &core::time::Duration) -> (r:
    u32)
    ensures
        r < 1_000_000_000,
;

/// Relies on std::time::UNIX_EPOCH: the instant 1970-01-01 00:00:00 UTC
/// that `Instant` values are measured from.
#[verifier::external_body]
pub(crate) fn unix_epoch() -> std::time::SystemTime {
    std::time::UNIX_EPOCH
}

} // verus!
