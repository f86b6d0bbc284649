//! Instants on the UTC time line, as whole seconds since the Unix epoch and
//! nanoseconds within the second.

use vstd::prelude::*;

verus! {

/// An instant: seconds since the Unix epoch, and nanoseconds since the last
/// second boundary. Instants are ordered by seconds first, nanoseconds
/// second.
#[derive(Clone, Copy, Debug, PartialEq, Eq, Structural)]
pub struct Timestamp {
    pub secs: i64,
    pub nanos: u32,
}

impl Timestamp {
    /// Three-way order of two instants: -1 when `self` is earlier, 0 when
    /// they are the same, 1 when `self` is later.
    pub open spec fn order(self, other: Timestamp) -> int {
        if self.secs < other.secs {
            -1
        } else if self.secs > other.secs {
            1
        } else if self.nanos < other.nanos {
            -1
        } else if self.nanos > other.nanos {
            1
        } else {
            0
        }
    }

    /// `self` is strictly earlier than `other`.
    pub open spec fn earlier_than(self, other: Timestamp) -> bool {
        self.order(other) < 0
    }

    /// Whole seconds from `self` to `later`, rounded down.
    pub open spec fn whole_seconds_until(self, later: Timestamp) -> int {
        later.secs - self.secs - if later.nanos < self.nanos {
            1int
        } else {
            0int
        }
    }

    /// The instant at the start of the given second.
    pub fn from_secs(secs: i64) -> (r: Timestamp)
        ensures
            r.secs == secs,
            r.nanos == 0,
    {
        Timestamp { secs, nanos: 0 }
    }

    /// Compares two instants.
    pub fn compare(&self, other: &Timestamp) -> (r: i8)
        ensures
            r == self.order(*other),
    {
        if self.secs < other.secs {
            -1
        } else if self.secs > other.secs {
            1
        } else if self.nanos < other.nanos {
            -1
        } else if self.nanos > other.nanos {
            1
        } else {
            0
        }
    }

    /// Whether `self` is strictly earlier than `other`.
    pub fn is_before(&self, other: &Timestamp) -> (r: bool)
        ensures
            r == self.earlier_than(*other),
    {
        self.compare(other) < 0
    }
}

/// The instant that a text denotes in RFC 3339 notation, or `None` where the
/// text is not in that notation.
pub uninterp spec fn rfc3339_instant(text: Seq<char>) -> Option<Timestamp>;

/// Calls `chrono::DateTime::parse_from_rfc3339`. The result is named, not
/// described: where chrono accepts the text, it is the accepted instant's
/// `timestamp()` and `timestamp_subsec_nanos()`; where chrono rejects it,
/// `None`.
#[verifier::external_body]
pub(crate) fn parse_rfc3339(text: &str) -> (r: Option<Timestamp>)
    ensures
        r == rfc3339_instant(text@),
{
    match chrono::DateTime::parse_from_rfc3339(text) {
        Ok(instant) => Some(
            Timestamp { secs: instant.timestamp(), nanos: instant.timestamp_subsec_nanos() },
        ),
        Err(_) => None,
    }
}

/// The first second that the calendar of `chrono` can hold, counted from
/// the Unix epoch: the start of the year -262143.
pub const FIRST_SECOND: i64 = -8_334_601_228_800;

/// The last second that the calendar of `chrono` can hold, counted from the
/// Unix epoch: the end of the year 262142.
pub const LAST_SECOND: i64 = 8_210_266_876_799;

/// Whether a count of seconds since the Unix epoch falls on a date that the
/// calendar of `chrono` can hold.
pub open spec fn unix_seconds_in_range(secs: int) -> bool {
    FIRST_SECOND <= secs <= LAST_SECOND
}

/// Calls `chrono::DateTime::from_timestamp` with no nanoseconds. Chrono
/// returns `None` on a number of seconds whose day lies outside the years
/// that its dates can hold; otherwise the instant it returns has that
/// number as its `timestamp()`, at the start of the second.
#[verifier::external_body]
pub(crate) fn instant_from_unix_seconds(secs: i64) -> (r: Option<Timestamp>)
    ensures
        r is Some <==> unix_seconds_in_range(secs as int),
        r matches Some(t) ==> t.secs == secs && t.nanos == 0,
{
    match chrono::DateTime::from_timestamp(secs, 0) {
        Some(instant) => Some(
            Timestamp { secs: instant.timestamp(), nanos: instant.timestamp_subsec_nanos() },
        ),
        None => None,
    }
}

} // verus!
