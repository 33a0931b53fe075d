//! Instants in UTC, kept as nanoseconds since the Unix epoch over the range
//! that `chrono::DateTime<Utc>` can hold.

use vstd::prelude::*;

verus! {

/// Nanoseconds in one second.
pub const NANOS_PER_SECOND: i128 = 1_000_000_000;

/// Nanoseconds in one millisecond.
pub const NANOS_PER_MILLI: i128 = 1_000_000;

/// The earliest representable instant: -262143-01-01T00:00:00Z.
pub const MIN_NANOS: i128 = -8_334_601_315_200_000_000_000;

/// The latest representable instant: +262142-12-31T23:59:59.999999999Z.
pub const MAX_NANOS: i128 = 8_210_266_876_799_999_999_999;

/// Largest whole number of seconds a `chrono::TimeDelta` holds (`i64::MAX / 1000`).
pub const MAX_DELTA_SECONDS: i64 = 9_223_372_036_854_775;

/// A point in time in UTC.
#[derive(Debug, Clone, Copy, PartialEq, Eq, PartialOrd, Ord, Hash, Structural)]
pub struct UtcTime {
    /// Nanoseconds since 1970-01-01T00:00:00Z.
    pub nanos: i128,
}

/// An instant `nanos` lies within the representable range.
pub open spec fn nanos_in_range(nanos: int) -> bool {
    MIN_NANOS <= nanos <= MAX_NANOS
}

impl UtcTime {
    /// The instant lies within the representable range.
    pub open spec fn valid(self) -> bool {
        nanos_in_range(self.nanos as int)
    }

    /// The instant `secs` whole seconds after the epoch, when representable
    /// (`Utc.timestamp_opt(secs, 0).single()`).
    pub fn from_timestamp(secs: i64) -> (r: Option<UtcTime>)
        ensures
            nanos_in_range(secs * NANOS_PER_SECOND) ==> r == Some(
                UtcTime { nanos: (secs * NANOS_PER_SECOND) as i128 },
            ),
            !nanos_in_range(secs * NANOS_PER_SECOND) ==> r is None,
    {
        let n: i128 = (secs as i128) * NANOS_PER_SECOND;
        if MIN_NANOS <= n && n <= MAX_NANOS {
            Some(UtcTime { nanos: n })
        } else {
            None
        }
    }

    /// The instant `secs` seconds and `subsec` nanoseconds after the epoch.
    pub fn from_parts(secs: i64, subsec: u32) -> (r: UtcTime)
        ensures
            r.nanos == secs * NANOS_PER_SECOND + subsec,
    {
        UtcTime { nanos: (secs as i128) * NANOS_PER_SECOND + (subsec as i128) }
    }

    /// This instant moved by `secs` whole seconds (`DateTime + TimeDelta::seconds`).
    pub fn plus_seconds(self, secs: i128) -> (r: UtcTime)
        requires
            self.valid(),
            nanos_in_range(self.nanos + secs * NANOS_PER_SECOND),
        ensures
            r.nanos == self.nanos + secs * NANOS_PER_SECOND,
    {
        UtcTime { nanos: self.nanos + secs * NANOS_PER_SECOND }
    }

    /// Strictly later than `other`.
    pub fn is_after(&self, other: &UtcTime) -> (r: bool)
        ensures
            r == (self.nanos > other.nanos),
    {
        self.nanos > other.nanos
    }

    /// The later of two instants.
    pub fn latest(self, other: UtcTime) -> (r: UtcTime)
        ensures
            r == (if self.nanos >= other.nanos { self } else { other }),
    {
        if self.nanos >= other.nanos {
            self
        } else {
            other
        }
    }
}

/// Whole milliseconds from `start` to `end`, truncated toward zero
/// (`TimeDelta::num_milliseconds`).
pub open spec fn millis_between(start: UtcTime, end: UtcTime) -> int {
    let d: int = end.nanos - start.nanos;
    if d >= 0 {
        d / (NANOS_PER_MILLI as int)
    } else {
        -((-d) / (NANOS_PER_MILLI as int))
    }
}

/// Whole milliseconds from `start` to `end`, truncated toward zero.
pub fn elapsed_millis(start: UtcTime, end: UtcTime) -> (r: i64)
    requires
        start.valid(),
        end.valid(),
    ensures
        r == millis_between(start, end),
{
    let d: i128 = end.nanos - start.nanos;
    if d >= 0 {
        (d / NANOS_PER_MILLI) as i64
    } else {
        let m: i128 = (-d) / NANOS_PER_MILLI;
        -(m as i64)
    }
}

/// `DateTime::<Utc>::from(SystemTime::now())`: the system clock read as
/// whole seconds since the epoch and the nanoseconds past them. The reading
/// depends on the clock; only what holds of every `DateTime<Utc>` is stated:
/// the nanoseconds are below a second (a system time is never a leap
/// second) and the instant lies in the representable range. The conversion
/// handles clocks before 1970; it panics only for a clock reading beyond
/// the representable range, which no system clock gives.
#[verifier::external_body]
fn clock_reading() -> (r: (i64, u32))
    ensures
        r.1 < NANOS_PER_SECOND,
        nanos_in_range(r.0 * NANOS_PER_SECOND + r.1),
{
    let now = chrono::DateTime::<chrono::Utc>::from(std::time::SystemTime::now());
    (now.timestamp(), now.timestamp_subsec_nanos())
}

/// The current instant, read from the system clock. What comes back depends
/// on the clock; only that it lies in the representable range is stated.
pub(crate) fn utc_now() -> (r: UtcTime)
    ensures
        r.valid(),
{
    let (secs, subsec) = clock_reading();
    UtcTime::from_parts(secs, subsec)
}

} // verus!
