//! Points in time.
//!
//! A [`Timestamp`] is a count of whole seconds since the Unix epoch and a
//! count of nanoseconds within that second. The clock is read in one place;
//! every rule that depends on time takes the instant as an argument.

use vstd::prelude::*;

verus! {

/// An instant on the UTC time line.
///
/// `seconds` counts non-leap seconds since 1970-01-01T00:00:00Z. `nanos`
/// counts nanoseconds since the last second boundary; a value of one billion
/// or more stands for a leap second.
#[derive(Debug, Clone, Copy, PartialEq, Eq, Hash, Structural)]
pub struct Timestamp {
    pub seconds: i64,
    pub nanos: u32,
}

/// Reads the system clock.
///
/// Calls `chrono::Utc::now` and takes the result apart with
/// `DateTime::timestamp` and `DateTime::timestamp_subsec_nanos`. The clock
/// reading is built from a duration since the Unix epoch, so the seconds are
/// not negative and the nanoseconds are below one billion. Nothing else is
/// known of the result. `chrono` panics when the system clock is set before
/// 1970.
#[verifier::external_body]
pub(crate) fn utc_now() -> (t: Timestamp)
    ensures
        t.seconds >= 0,
        t.nanos < 1_000_000_000,
{
    let now = chrono::Utc::now();
    Timestamp { seconds: now.timestamp(), nanos: now.timestamp_subsec_nanos() }
}

impl Timestamp {
    /// `self` is strictly later than `other`: seconds decide, nanoseconds
    /// break the tie.
    pub open spec fn later_than(self, other: Timestamp) -> bool {
        self.seconds > other.seconds || (self.seconds == other.seconds && self.nanos
            > other.nanos)
    }

    /// Milliseconds since the epoch, before reduction to 64 bits.
    pub open spec fn millis(self) -> int {
        self.seconds * 1000 + (self.nanos / 1_000_000) as int
    }

    /// The instant `seconds` after `self`, with the seconds saturating at the
    /// largest value the field can hold.
    pub open spec fn after(self, seconds: u32) -> Timestamp {
        Timestamp {
            seconds: if self.seconds + seconds > i64::MAX {
                i64::MAX
            } else {
                (self.seconds + seconds) as i64
            },
            nanos: self.nanos,
        }
    }

    /// Creates a timestamp from its two parts.
    pub fn new(seconds: i64, nanos: u32) -> (t: Self)
        ensures
            t.seconds == seconds,
            t.nanos == nanos,
    {
        Timestamp { seconds, nanos }
    }

    /// The current instant according to the system clock.
    pub fn now() -> (t: Self)
        ensures
            t.seconds >= 0,
            t.nanos < 1_000_000_000,
    {
        utc_now()
    }

    /// Whether `self` is strictly later than `other`.
    pub fn is_after(&self, other: &Timestamp) -> (b: bool)
        ensures
            b == self.later_than(*other),
    {
        self.seconds > other.seconds || (self.seconds == other.seconds && self.nanos
            > other.nanos)
    }

    /// The instant `seconds` later; see [`Timestamp::after`].
    pub fn plus_seconds(&self, seconds: u32) -> (t: Self)
        ensures
            t == self.after(seconds),
    {
        let wide: i128 = self.seconds as i128 + seconds as i128;
        let sum: i64 = if wide > i64::MAX as i128 {
            i64::MAX
        } else {
            wide as i64
        };
        Timestamp { seconds: sum, nanos: self.nanos }
    }

    /// Milliseconds since the epoch, reduced modulo 2^64 as a machine cast
    /// reduces them.
    pub fn unix_millis(&self) -> (ms: u64)
        ensures
            ms == self.millis() % 0x1_0000_0000_0000_0000,
    {
        // 2^74 is a multiple of 2^64 and lifts every possible value above zero.
        let lifted: u128 = ((self.seconds as i128) * 1000 + (self.nanos / 1_000_000) as i128
            + 0x400_0000_0000_0000_0000) as u128;
        let ms: u64 = #[verifier::truncate] (lifted as u64);
        assert(ms == lifted % 0x1_0000_0000_0000_0000) by (bit_vector)
            requires
                ms == #[verifier::truncate] (lifted as u64),
        ;
        ms
    }
}

} // verus!
