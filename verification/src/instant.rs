//! A signed, Unix-epoch-relative point in time, and its conversions to
//! and from the NTP fixed-point formats.

use vstd::prelude::*;
use vstd::arithmetic::div_mod::{
    lemma_basic_div, lemma_div_is_ordered, lemma_div_pos_is_pos, lemma_fundamental_div_mod,
    lemma_fundamental_div_mod_converse_div, lemma_mod_division_less_than_divisor,
    lemma_mod_multiples_vanish, lemma_small_mod,
};
use crate::clock;
use crate::protocol::{ShortFormat, TimestampFormat};

verus! {

/// Seconds from 1900-01-01 00:00:00 UTC, the NTP era origin, to the
/// Unix epoch.
pub const EPOCH_DELTA: i64 = 2_208_988_800;

/// Error returned when the two components handed to `Instant::new`
/// disagree in sign.
#[derive(Clone, Copy, Debug, PartialEq, Eq, Structural)]
pub struct InvariantViolation;

/// Whether a seconds and a nanoseconds component lie on the same side
/// of zero, the invariant every `Instant` keeps.
pub open spec fn same_sign(secs: int, nanos: int) -> bool {
    (secs >= 0 && nanos >= 0) || (secs <= 0 && nanos <= 0)
}

/// Nanoseconds named by a 32-bit NTP fraction, rounded to nearest.
pub open spec fn frac32_nanos(f: int) -> int {
    (f * 1_000_000_000 + 0x8000_0000) / 0x1_0000_0000
}

/// Nanoseconds named by a 16-bit NTP fraction, rounded to nearest.
pub open spec fn frac16_nanos(f: int) -> int {
    (f * 1_000_000_000 + 0x8000) / 0x1_0000
}

/// The 32-bit NTP fraction encoding a nanoseconds component, truncated
/// toward zero and clamped to the fraction's range.
pub open spec fn nanos_frac32(n: int) -> int {
    if n <= 0 {
        0
    } else if n * 0x1_0000_0000 / 1_000_000_000 > 0xFFFF_FFFF {
        0xFFFF_FFFF
    } else {
        n * 0x1_0000_0000 / 1_000_000_000
    }
}

/// The 16-bit NTP fraction encoding a nanoseconds component, truncated
/// toward zero and clamped to the fraction's range.
pub open spec fn nanos_frac16(n: int) -> int {
    if n <= 0 {
        0
    } else if n * 0x1_0000 / 1_000_000_000 > 0xFFFF {
        0xFFFF
    } else {
        n * 0x1_0000 / 1_000_000_000
    }
}

/// A seconds value reduced to the unsigned 32-bit range, as a cast to
/// that width wraps it.
pub open spec fn wrap32(x: int) -> int {
    x % 0x1_0000_0000
}

/// A seconds value reduced to the unsigned 16-bit range.
pub open spec fn wrap16(x: int) -> int {
    x % 0x1_0000
}

/// Components brought back to one sign: when the seconds are negative
/// but the nanoseconds positive, one second is borrowed into the
/// nanoseconds, leaving the represented time unchanged.
pub open spec fn normalized(secs: int, nanos: int) -> (int, int) {
    if secs < 0 && nanos > 0 {
        (secs + 1, nanos - 1_000_000_000)
    } else {
        (secs, nanos)
    }
}

/// A point in time relative to the Unix epoch, 1970-01-01 00:00:00 UTC:
/// whole seconds plus a fractional part in nanoseconds. For a time
/// before the epoch both components are non-positive; after it, both
/// non-negative.
#[derive(Clone, Copy, Debug, PartialEq, Eq, Structural)]
pub struct Instant {
    secs: i64,
    subsec_nanos: i32,
}

impl Instant {
    #[verifier::type_invariant]
    spec fn wf(self) -> bool {
        same_sign(self.secs as int, self.subsec_nanos as int)
    }

    /// The seconds component, as a mathematical integer.
    pub closed spec fn sec_part(self) -> int {
        self.secs as int
    }

    /// The nanoseconds component, as a mathematical integer.
    pub closed spec fn nano_part(self) -> int {
        self.subsec_nanos as int
    }

    /// Build an `Instant` from its components; fails exactly when they
    /// disagree in sign, rather than yield an ambiguous value.
    pub fn new(secs: i64, subsec_nanos: i32) -> (r: Result<Instant, InvariantViolation>)
        ensures
            r is Ok <==> same_sign(secs as int, subsec_nanos as int),
            r matches Ok(i) ==> i.sec_part() == secs && i.nano_part() == subsec_nanos,
    {
        if secs > 0 && subsec_nanos < 0 {
            return Err(InvariantViolation);
        }
        if secs < 0 && subsec_nanos > 0 {
            return Err(InvariantViolation);
        }
        Ok(Instant { secs, subsec_nanos })
    }

    /// Read the wall clock. A reading at or after the Unix epoch yields
    /// non-negative components, an earlier one the negated magnitudes
    /// of its distance before the epoch.
    pub fn now() -> (r: Instant)
        ensures
            same_sign(r.sec_part(), r.nano_part()),
            -1_000_000_000 < r.nano_part() < 1_000_000_000,
    {
        let t = std::time::SystemTime::now();
        match t.duration_since(clock::unix_epoch()) {
            Ok(d) => {
                let s = d.as_secs();
                let n = d.subsec_nanos();
                let secs: i64 = if s > 0x7fff_ffff_ffff_ffff {
                    i64::MAX
                } else {
                    s as i64
                };
                Instant { secs, subsec_nanos: n as i32 }
            },
            Err(e) => {
                let d = e.duration();
                let s = d.as_secs();
                let n = d.subsec_nanos();
                let secs: i64 = if s > 0x7fff_ffff_ffff_ffff {
                    i64::MAX
                } else {
                    s as i64
                };
                Instant { secs: -secs, subsec_nanos: -(n as i32) }
            },
        }
    }

    /// The seconds component.
    pub fn secs(&self) -> (r: i64)
        ensures
            r == self.sec_part(),
    {
        self.secs
    }

    /// The nanoseconds component.
    pub fn subsec_nanos(&self) -> (r: i32)
        ensures
            r == self.nano_part(),
    {
        self.subsec_nanos
    }

    /// The instant a timestamp-format time names: its seconds moved
    /// from the 1900 era origin to the Unix epoch, its fraction rounded
    /// to nanoseconds, and the two brought to one sign.
    pub fn from_timestamp_format(t: TimestampFormat) -> (r: Instant)
        ensures
            r.sec_part() == normalized(
                t.seconds - EPOCH_DELTA,
                frac32_nanos(t.fraction as int),
            ).0,
            r.nano_part() == normalized(
                t.seconds - EPOCH_DELTA,
                frac32_nanos(t.fraction as int),
            ).1,
    {
        let secs0: i64 = t.seconds as i64 - EPOCH_DELTA;
        let scaled: u64 = (t.fraction as u64) * 1_000_000_000 + 0x8000_0000;
        let nanos0: u64 = scaled / 0x1_0000_0000;
        proof {
            lemma_div_is_ordered(
                scaled as int,
                0xFFFF_FFFFu64 * 1_000_000_000 + 0x8000_0000,
                0x1_0000_0000,
            );
            lemma_fundamental_div_mod_converse_div(
                0xFFFF_FFFFu64 * 1_000_000_000 + 0x8000_0000,
                0x1_0000_0000,
                1_000_000_000,
                1_147_483_648,
            );
        }
        Self::from_parts_normalized(secs0, nanos0 as i32)
    }

    /// The instant a short-format duration names under the shared
    /// conversion formula: the same era shift applied to its 16-bit
    /// seconds, and its fraction rounded to nanoseconds.
    pub fn from_short_format(t: ShortFormat) -> (r: Instant)
        ensures
            r.sec_part() == normalized(
                t.seconds - EPOCH_DELTA,
                frac16_nanos(t.fraction as int),
            ).0,
            r.nano_part() == normalized(
                t.seconds - EPOCH_DELTA,
                frac16_nanos(t.fraction as int),
            ).1,
    {
        let secs0: i64 = t.seconds as i64 - EPOCH_DELTA;
        let scaled: u64 = (t.fraction as u64) * 1_000_000_000 + 0x8000;
        let nanos0: u64 = scaled / 0x1_0000;
        proof {
            lemma_div_is_ordered(
                scaled as int,
                0xFFFFu64 * 1_000_000_000 + 0x8000,
                0x1_0000,
            );
            lemma_fundamental_div_mod_converse_div(
                0xFFFFu64 * 1_000_000_000 + 0x8000,
                0x1_0000,
                999_984_741,
                46_592,
            );
        }
        Self::from_parts_normalized(secs0, nanos0 as i32)
    }

    /// The timestamp-format encoding of this instant: seconds moved to
    /// the 1900 era origin and wrapped to 32 bits, nanoseconds scaled
    /// to a 32-bit fraction.
    pub fn to_timestamp_format(&self) -> (r: TimestampFormat)
        ensures
            r.seconds == wrap32(self.sec_part() + EPOCH_DELTA),
            r.fraction == nanos_frac32(self.nano_part()),
    {
        let total: i128 = self.secs as i128 + EPOCH_DELTA as i128;
        let shifted: i128 = total + 0x8000_0000_0000_0000;
        let m: i128 = shifted % 0x1_0000_0000;
        proof {
            lemma_mod_multiples_vanish(0x8000_0000, total as int, 0x1_0000_0000);
            lemma_mod_division_less_than_divisor(shifted as int, 0x1_0000_0000);
        }
        let n = self.subsec_nanos;
        let fraction: u32 = if n <= 0 {
            0
        } else {
            let f: u64 = (n as u64) * 0x1_0000_0000 / 1_000_000_000;
            if f > 0xFFFF_FFFF {
                0xFFFF_FFFF
            } else {
                f as u32
            }
        };
        TimestampFormat { seconds: m as u32, fraction }
    }

    /// The short-format encoding of this instant: seconds moved to the
    /// 1900 era origin and wrapped to 16 bits, nanoseconds scaled to a
    /// 16-bit fraction.
    pub fn to_short_format(&self) -> (r: ShortFormat)
        ensures
            r.seconds == wrap16(self.sec_part() + EPOCH_DELTA),
            r.fraction == nanos_frac16(self.nano_part()),
    {
        let total: i128 = self.secs as i128 + EPOCH_DELTA as i128;
        let shifted: i128 = total + 0x8000_0000_0000_0000;
        let m: i128 = shifted % 0x1_0000;
        proof {
            lemma_mod_multiples_vanish(0x8000_0000_0000, total as int, 0x1_0000);
            lemma_mod_division_less_than_divisor(shifted as int, 0x1_0000);
        }
        let n = self.subsec_nanos;
        let fraction: u16 = if n <= 0 {
            0
        } else {
            let f: u64 = (n as u64) * 0x1_0000 / 1_000_000_000;
            if f > 0xFFFF {
                0xFFFF
            } else {
                f as u16
            }
        };
        ShortFormat { seconds: m as u16, fraction }
    }

    /// Bring raw conversion components to one sign and wrap them.
    fn from_parts_normalized(secs0: i64, nanos0: i32) -> (r: Instant)
        requires
            0 <= nanos0 <= 1_000_000_000,
        ensures
            r.sec_part() == normalized(secs0 as int, nanos0 as int).0,
            r.nano_part() == normalized(secs0 as int, nanos0 as int).1,
    {
        if secs0 < 0 && nanos0 > 0 {
            Instant { secs: secs0 + 1, subsec_nanos: nanos0 - 1_000_000_000 }
        } else {
            Instant { secs: secs0, subsec_nanos: nanos0 }
        }
    }
}

/// Round trip through timestamp format: an instant at or after the
/// Unix epoch whose seconds fit the format's 32-bit range and whose
/// nanoseconds name a proper subsecond part is restored exactly, in
/// both components.
pub proof fn lemma_timestamp_round_trip(secs: int, nanos: int)
    requires
        0 <= secs,
        secs + EPOCH_DELTA < 0x1_0000_0000,
        0 <= nanos < 1_000_000_000,
    ensures
        normalized(wrap32(secs + EPOCH_DELTA) - EPOCH_DELTA, frac32_nanos(nanos_frac32(nanos))).0
            == secs,
        normalized(wrap32(secs + EPOCH_DELTA) - EPOCH_DELTA, frac32_nanos(nanos_frac32(nanos))).1
            == nanos,
{
    lemma_small_mod((secs + EPOCH_DELTA) as nat, 0x1_0000_0000);
    assert(wrap32(secs + EPOCH_DELTA) == secs + EPOCH_DELTA);
    if nanos == 0 {
        lemma_basic_div(0x8000_0000, 0x1_0000_0000);
    } else {
        let f = nanos * 0x1_0000_0000 / 1_000_000_000;
        lemma_div_is_ordered(
            nanos * 0x1_0000_0000,
            999_999_999int * 0x1_0000_0000,
            1_000_000_000,
        );
        lemma_fundamental_div_mod_converse_div(
            999_999_999int * 0x1_0000_0000,
            1_000_000_000,
            4_294_967_291,
            705_032_704,
        );
        assert(f <= 0xFFFF_FFFF);
        lemma_fundamental_div_mod(nanos * 0x1_0000_0000, 1_000_000_000);
        lemma_mod_division_less_than_divisor(nanos * 0x1_0000_0000, 1_000_000_000);
        let r = nanos * 0x1_0000_0000 % 1_000_000_000;
        lemma_fundamental_div_mod_converse_div(
            f * 1_000_000_000 + 0x8000_0000,
            0x1_0000_0000,
            nanos,
            0x8000_0000 - r,
        );
    }
}

/// A larger nanoseconds component never encodes to a smaller 32-bit
/// fraction: the conversion to timestamp format is monotonic.
pub proof fn lemma_fraction_monotonic(n1: int, n2: int)
    requires
        n1 <= n2,
    ensures
        nanos_frac32(n1) <= nanos_frac32(n2),
{
    if n2 <= 0 {
    } else if n1 <= 0 {
        lemma_div_pos_is_pos(n2 * 0x1_0000_0000, 1_000_000_000);
    } else {
        lemma_div_is_ordered(n1 * 0x1_0000_0000, n2 * 0x1_0000_0000, 1_000_000_000);
    }
}

/// A larger nanoseconds component never encodes to a smaller 16-bit
/// fraction: the conversion to short format is monotonic.
pub proof fn lemma_short_fraction_monotonic(n1: int, n2: int)
    requires
        n1 <= n2,
    ensures
        nanos_frac16(n1) <= nanos_frac16(n2),
{
    if n2 <= 0 {
    } else if n1 <= 0 {
        lemma_div_pos_is_pos(n2 * 0x1_0000, 1_000_000_000);
    } else {
        lemma_div_is_ordered(n1 * 0x1_0000, n2 * 0x1_0000, 1_000_000_000);
    }
}

} // verus!
