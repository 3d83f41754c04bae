//! Instants, as the API writes them.

use vstd::prelude::*;

verus! {

/// An instant in UTC: seconds since 1970-01-01T00:00:00Z, not counting leap
/// seconds, and the nanoseconds since that second began. During a leap second
/// `nanoseconds` exceeds 999,999,999.
#[derive(Clone, Copy, Debug, PartialEq, Eq, Structural)]
pub struct Timestamp {
    pub seconds: i64,
    pub nanoseconds: u32,
}

/// The instant that `chrono` reads from a text in its relaxed form of RFC
/// 3339, or `None` where it refuses the text.
pub uninterp spec fn timestamp_of(text: Seq<char>) -> Option<(i64, u32)>;

/// `str::parse::<chrono::DateTime<chrono::Utc>>`, with the instant handed out
/// through `DateTime::timestamp` and `DateTime::timestamp_subsec_nanos`. The
/// outcome depends on the text alone; the contract gives it the name
/// `timestamp_of`.
#[verifier::external_body]
fn parse_utc(text: &str) -> (r: Option<(i64, u32)>)
    ensures
        r == timestamp_of(text@),
{
    match text.parse::<chrono::DateTime<chrono::Utc>>() {
        Ok(t) => Some((t.timestamp(), t.timestamp_subsec_nanos())),
        Err(_) => None,
    }
}

impl Timestamp {
    /// The instant a text denotes, if it denotes one.
    pub open spec fn of(text: Seq<char>) -> Option<Timestamp> {
        match timestamp_of(text) {
            Some((seconds, nanoseconds)) => Some(Timestamp { seconds, nanoseconds }),
            None => None,
        }
    }

    /// Reads an instant such as `2011-01-26T19:01:12Z`.
    pub fn parse(text: &str) -> (r: Option<Timestamp>)
        ensures
            r == Timestamp::of(text@),
    {
        match parse_utc(text) {
            Some((seconds, nanoseconds)) => Some(Timestamp { seconds, nanoseconds }),
            None => None,
        }
    }
}

} // verus!
