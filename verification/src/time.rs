//! Instants and spans of time, held as plain seconds and nanoseconds.

use vstd::prelude::*;

verus! {

/// Nanoseconds in one second.
pub const NANOS_PER_SEC: i128 = 1_000_000_000;

/// Seconds in one hour.
pub const SECS_PER_HOUR: i64 = 3_600;

/// Seconds in one day.
pub const SECS_PER_DAY: i64 = 86_400;

/// A span of time: `secs` whole seconds and `nanos` nanoseconds on top.
#[derive(Clone, Copy, Debug, PartialEq, Eq, Structural)]
pub struct Duration {
    pub secs: i64,
    pub nanos: u32,
}

impl Duration {
    /// The span in nanoseconds.
    pub open spec fn total_nanos(self) -> int {
        self.secs * 1_000_000_000 + self.nanos
    }

    /// A span of `secs` seconds.
    pub fn seconds(secs: i64) -> (r: Duration)
        ensures
            r == (Duration { secs, nanos: 0 }),
            r.total_nanos() == secs * 1_000_000_000,
    {
        Duration { secs, nanos: 0 }
    }

    /// A span of `hours` hours.
    pub fn hours(hours: i64) -> (r: Duration)
        requires
            i64::MIN <= hours * 3_600 <= i64::MAX,
        ensures
            r == (Duration { secs: (hours * 3_600) as i64, nanos: 0 }),
            r.total_nanos() == hours * 3_600 * 1_000_000_000,
    {
        Duration { secs: hours * SECS_PER_HOUR, nanos: 0 }
    }

    /// A span of `days` days.
    pub fn days(days: i64) -> (r: Duration)
        requires
            i64::MIN <= days * 86_400 <= i64::MAX,
        ensures
            r == (Duration { secs: (days * 86_400) as i64, nanos: 0 }),
            r.total_nanos() == days * 86_400 * 1_000_000_000,
    {
        Duration { secs: days * SECS_PER_DAY, nanos: 0 }
    }

    /// Whether the span is empty.
    pub fn is_zero(&self) -> (r: bool)
        ensures
            r == (self.total_nanos() == 0),
    {
        self.secs as i128 * NANOS_PER_SEC + self.nanos as i128 == 0
    }

    /// Whether this span is at most as long as `other`.
    pub fn le(&self, other: &Duration) -> (r: bool)
        ensures
            r == (self.total_nanos() <= other.total_nanos()),
    {
        let a: i128 = self.secs as i128 * NANOS_PER_SEC + self.nanos as i128;
        let b: i128 = other.secs as i128 * NANOS_PER_SEC + other.nanos as i128;
        a <= b
    }
}

/// A point in time: `secs` whole seconds since 1970-01-01T00:00:00Z, not
/// counting leap seconds, and `nanos` nanoseconds on top. A leap second is
/// written as second 59 of its minute with `nanos` of a thousand million or
/// more, so instants are ordered by `secs` first and by `nanos` second.
#[derive(Clone, Copy, Debug, PartialEq, Eq, Structural)]
pub struct Timestamp {
    pub secs: i64,
    pub nanos: u32,
}

/// 9999-12-31T23:59:59Z in seconds since the epoch.
pub const END_OF_TIME_SECS: i64 = 253_402_300_799;

impl Timestamp {
    /// Whether this instant lies strictly before `other`.
    pub open spec fn precedes(self, other: Timestamp) -> bool {
        self.secs < other.secs || (self.secs == other.secs && self.nanos < other.nanos)
    }

    /// Seconds and nanoseconds of this instant moved forward by `span`.
    pub open spec fn plus(self, span: Duration) -> (int, int) {
        let n = self.nanos + span.nanos;
        (self.secs + span.secs + n / 1_000_000_000, n % 1_000_000_000)
    }

    /// Seconds and nanoseconds of this instant moved back by `span`.
    pub open spec fn minus(self, span: Duration) -> (int, int) {
        let n = self.nanos - span.nanos;
        (self.secs - span.secs + n / 1_000_000_000, n % 1_000_000_000)
    }

    /// The instant that `parts` names, if its seconds fit.
    pub open spec fn from_parts(parts: (int, int)) -> Option<Timestamp> {
        if i64::MIN <= parts.0 <= i64::MAX {
            Some(Timestamp { secs: parts.0 as i64, nanos: parts.1 as u32 })
        } else {
            None
        }
    }

    pub fn new(secs: i64, nanos: u32) -> (r: Timestamp)
        ensures
            r == (Timestamp { secs, nanos }),
    {
        Timestamp { secs, nanos }
    }

    /// The last second of the year 9999.
    pub fn end_of_time() -> (r: Timestamp)
        ensures
            r == (Timestamp { secs: 253_402_300_799, nanos: 0 }),
    {
        Timestamp { secs: END_OF_TIME_SECS, nanos: 0 }
    }

    /// The current time of the system clock. The clock counts whole
    /// nanoseconds within the second and never writes a leap second, so
    /// `nanos` stays below a thousand million.
    pub fn now() -> (r: Timestamp)
        ensures
            r.nanos < 1_000_000_000,
    {
        system_clock()
    }

    /// Whether this instant lies strictly before `other`.
    pub fn is_before(&self, other: &Timestamp) -> (r: bool)
        ensures
            r == self.precedes(*other),
    {
        self.secs < other.secs || (self.secs == other.secs && self.nanos < other.nanos)
    }

    /// This instant moved forward by `span`; `None` where the seconds leave
    /// the range of `i64`.
    pub fn checked_add_signed(&self, span: &Duration) -> (r: Option<Timestamp>)
        ensures
            r == Timestamp::from_parts(self.plus(*span)),
    {
        let n: i128 = self.nanos as i128 + span.nanos as i128;
        let secs: i128 = self.secs as i128 + span.secs as i128 + n / NANOS_PER_SEC;
        let nanos: i128 = n % NANOS_PER_SEC;
        if secs < i64::MIN as i128 || secs > i64::MAX as i128 {
            None
        } else {
            Some(Timestamp { secs: secs as i64, nanos: nanos as u32 })
        }
    }

    /// This instant moved back by `span`; `None` where the seconds leave the
    /// range of `i64`.
    pub fn checked_sub_signed(&self, span: &Duration) -> (r: Option<Timestamp>)
        ensures
            r == Timestamp::from_parts(self.minus(*span)),
    {
        // Five seconds are lent to the nanoseconds so that the division
        // works on a positive number, and taken back from the seconds.
        let n: i128 = self.nanos as i128 - span.nanos as i128 + 5 * NANOS_PER_SEC;
        let secs: i128 = self.secs as i128 - span.secs as i128 + n / NANOS_PER_SEC - 5;
        let nanos: i128 = n % NANOS_PER_SEC;
        if secs < i64::MIN as i128 || secs > i64::MAX as i128 {
            None
        } else {
            Some(Timestamp { secs: secs as i64, nanos: nanos as u32 })
        }
    }
}

/// Reads the system clock through `chrono::Utc::now` and hands back its
/// `timestamp()` and `timestamp_subsec_nanos()`. The instant changes from
/// call to call, so nothing is claimed of which instant it is. `Utc::now`
/// makes its date from the time that has passed since the epoch, counted
/// in seconds and the nanoseconds within the second; so the nanoseconds
/// stay below a thousand million. On a machine whose clock stands before
/// 1970 `Utc::now` stops the program.
#[verifier::external_body]
fn system_clock() -> (r: Timestamp)
    ensures
        r.nanos < 1_000_000_000,
{
    let now = chrono::Utc::now();
    Timestamp { secs: now.timestamp(), nanos: now.timestamp_subsec_nanos() }
}

} // verus!
