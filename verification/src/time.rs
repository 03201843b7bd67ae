//! Instants in time, held as integers.

use chrono::{DateTime, Utc};
use vstd::prelude::*;

verus! {

/// An instant in UTC: whole seconds since 1970-01-01T00:00:00Z and the
/// nanoseconds since that second began. During a leap second the nanoseconds
/// run past 999,999,999.
#[derive(Debug, Clone, Copy, PartialEq, Eq, Structural)]
pub struct Timestamp {
    pub secs: i64,
    pub nanos: u32,
}

impl Timestamp {
    /// Whether this instant lies strictly before `other`: seconds decide, and
    /// nanoseconds break a tie.
    pub open spec fn spec_is_before(&self, other: &Timestamp) -> bool {
        self.secs < other.secs || (self.secs == other.secs && self.nanos < other.nanos)
    }

    /// Whether this instant lies strictly after `other`.
    pub open spec fn spec_is_after(&self, other: &Timestamp) -> bool {
        other.spec_is_before(self)
    }

    /// Makes an instant from its two parts.
    pub fn new(secs: i64, nanos: u32) -> (t: Timestamp)
        ensures
            t.secs == secs,
            t.nanos == nanos,
    {
        Timestamp { secs, nanos }
    }

    /// Tests whether this instant lies strictly before `other`.
    #[verifier::when_used_as_spec(spec_is_before)]
    pub fn is_before(&self, other: &Timestamp) -> (r: bool)
        ensures
            r == self.spec_is_before(other),
    {
        self.secs < other.secs || (self.secs == other.secs && self.nanos < other.nanos)
    }

    /// Tests whether this instant lies strictly after `other`.
    #[verifier::when_used_as_spec(spec_is_after)]
    pub fn is_after(&self, other: &Timestamp) -> (r: bool)
        ensures
            r == self.spec_is_after(other),
    {
        other.is_before(self)
    }
}

/// The instant that chrono reads from a text as a `DateTime<Utc>`, or `None`
/// where chrono rejects the text.
pub uninterp spec fn parsed_timestamp(text: Seq<char>) -> Option<Timestamp>;

/// `<DateTime<Utc> as FromStr>::from_str`, with `DateTime::timestamp` and
/// `DateTime::timestamp_subsec_nanos` to hold the result as integers. Chrono
/// accepts a relaxed RFC 3339 form; which texts it accepts, and the instant it
/// reads from each, are known by name only.
#[verifier::external_body]
pub(crate) fn parse_timestamp(text: &str) -> (r: Option<Timestamp>)
    ensures
        r == parsed_timestamp(text@),
{
    match text.parse::<DateTime<Utc>>() {
        Ok(dt) => Some(Timestamp { secs: dt.timestamp(), nanos: dt.timestamp_subsec_nanos() }),
        Err(_) => None,
    }
}

} // verus!
