//! Instants in UTC, as seconds and nanoseconds since the Unix epoch.

use vstd::prelude::*;

verus! {

/// An instant in UTC: whole seconds since the epoch and the nanoseconds past that second.
#[derive(Debug, Clone, Copy, PartialEq, Eq, Structural)]
pub struct Timestamp {
    pub seconds: i64,
    pub nanos: u32,
}

/// `a` comes strictly before `b`.
pub open spec fn earlier(a: Timestamp, b: Timestamp) -> bool {
    a.seconds < b.seconds || (a.seconds == b.seconds && a.nanos < b.nanos)
}

/// Optional instants ordered as `Option<DateTime>` orders them: `None` first.
pub open spec fn earlier_opt(a: Option<Timestamp>, b: Option<Timestamp>) -> bool {
    match (a, b) {
        (None, Some(_)) => true,
        (Some(x), Some(y)) => earlier(x, y),
        _ => false,
    }
}

impl Timestamp {
    /// Whether `self` comes strictly before `other`.
    pub fn is_before(&self, other: &Timestamp) -> (r: bool)
        ensures
            r == earlier(*self, *other),
    {
        self.seconds < other.seconds || (self.seconds == other.seconds && self.nanos < other.nanos)
    }

    /// The instant as a file-name stamp, `YYYYMMDD_HHMMSS` in UTC, as chrono writes it;
    /// none for an instant chrono cannot represent.
    pub fn file_stamp(&self) -> (r: Option<String>)
        ensures
            match r {
                Some(s) => stamp_text(self.seconds, self.nanos) == Some(s@),
                None => stamp_text(self.seconds, self.nanos) is None,
            },
    {
        format_stamp(self.seconds, self.nanos)
    }

    /// The current instant, from `chrono::Utc::now`.
    pub fn now() -> (r: Timestamp) {
        let (seconds, nanos) = utc_now();
        Timestamp { seconds, nanos }
    }
}

/// Whether `a` comes strictly before `b`, `None` first.
pub fn is_before_opt(a: &Option<Timestamp>, b: &Option<Timestamp>) -> (r: bool)
    ensures
        r == earlier_opt(*a, *b),
{
    match (a, b) {
        (None, Some(_)) => true,
        (Some(x), Some(y)) => x.is_before(y),
        _ => false,
    }
}

/// Calls `chrono::Utc::now()` and hands back its `timestamp()` and
/// `timestamp_subsec_nanos()`: the clock's reading, of which nothing is claimed.
#[verifier::external_body]
fn utc_now() -> (r: (i64, u32)) {
    let now = chrono::Utc::now();
    (now.timestamp(), now.timestamp_subsec_nanos())
}

/// The text that chrono's `format("%Y%m%d_%H%M%S")` writes for the instant `seconds` and
/// `nanos` after the epoch in UTC, if `DateTime::from_timestamp` can represent it.
pub uninterp spec fn stamp_text(seconds: i64, nanos: u32) -> Option<Seq<char>>;

/// Calls `chrono::DateTime::from_timestamp` and formats the instant with
/// `%Y%m%d_%H%M%S`. Claims: the result is `stamp_text(seconds, nanos)`; the text depends on
/// the instant alone, as it is written in UTC.
#[verifier::external_body]
fn format_stamp(seconds: i64, nanos: u32) -> (r: Option<String>)
    ensures
        match r {
            Some(s) => stamp_text(seconds, nanos) == Some(s@),
            None => stamp_text(seconds, nanos) is None,
        },
{
    match chrono::DateTime::from_timestamp(seconds, nanos) {
        Some(at) => Some(at.format("%Y%m%d_%H%M%S").to_string()),
        None => None,
    }
}

} // verus!
