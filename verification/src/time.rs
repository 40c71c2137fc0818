//! Instants as plain values.
//!
//! A [`Timestamp`] holds the two integers by which an instant is ordered and
//! found again: whole seconds since the Unix epoch and the nanoseconds within
//! that second. Calendar work is left to `chrono`.

use vstd::prelude::*;

verus! {

/// An instant in UTC.
#[derive(Clone, Copy, Debug, PartialEq, Eq, Structural)]
pub struct Timestamp {
    /// Whole seconds since 1970-01-01T00:00:00Z.
    pub secs: i64,
    /// Nanoseconds since the last whole second.
    pub nanos: u32,
}

/// Strict chronological order on instants.
pub open spec fn ts_lt(a: Timestamp, b: Timestamp) -> bool {
    a.secs < b.secs || (a.secs == b.secs && a.nanos < b.nanos)
}

impl Timestamp {
    pub fn new(secs: i64, nanos: u32) -> (t: Timestamp)
        ensures
            t.secs == secs,
            t.nanos == nanos,
    {
        Timestamp { secs, nanos }
    }

    /// Whether `self` lies strictly before `other`.
    pub fn before(&self, other: &Timestamp) -> (b: bool)
        ensures
            b == ts_lt(*self, *other),
    {
        self.secs < other.secs || (self.secs == other.secs && self.nanos < other.nanos)
    }
}

/// The text that `chrono` writes for an instant in RFC 3339 form, or `None`
/// where `chrono` cannot represent the instant.
pub uninterp spec fn rfc3339_text(secs: i64, nanos: u32) -> Option<Seq<char>>;

/// The instant that `chrono` reads from a text in RFC 3339 form, or `None`
/// where it rejects the text.
pub uninterp spec fn rfc3339_instant(text: Seq<char>) -> Option<Timestamp>;

/// Reads the system clock through `chrono::Utc::now`.
///
/// Nothing is claimed of the instant that comes back: two calls may differ.
/// `chrono` panics if the system clock is set before the Unix epoch.
#[verifier::external_body]
pub(crate) fn clock_now() -> (t: Timestamp) {
    let now = chrono::Utc::now();
    Timestamp { secs: now.timestamp(), nanos: now.timestamp_subsec_nanos() }
}

/// Formats an instant with `chrono::DateTime::to_rfc3339`, after building the
/// `DateTime<Utc>` with `DateTime::from_timestamp`.
///
/// The contract only names the text; `None` stands for an instant that
/// `from_timestamp` rejects as out of range.
#[verifier::external_body]
pub(crate) fn format_rfc3339(t: &Timestamp) -> (text: Option<String>)
    ensures
        text.is_some() == rfc3339_text(t.secs, t.nanos).is_some(),
        text.is_some() ==> text.unwrap()@ == rfc3339_text(t.secs, t.nanos).unwrap(),
{
    match chrono::DateTime::from_timestamp(t.secs, t.nanos) {
        Some(instant) => Some(instant.to_rfc3339()),
        None => None,
    }
}

/// Parses a text with `chrono::DateTime::parse_from_rfc3339` and reduces the
/// result to seconds and nanoseconds since the epoch.
///
/// The contract only names the instant; `None` stands for a text that `chrono`
/// rejects.
#[verifier::external_body]
pub(crate) fn parse_rfc3339(text: &str) -> (t: Option<Timestamp>)
    ensures
        t == rfc3339_instant(text@),
{
    match chrono::DateTime::parse_from_rfc3339(text) {
        Ok(instant) => Some(Timestamp { secs: instant.timestamp(), nanos: instant.timestamp_subsec_nanos() }),
        Err(_) => None,
    }
}

/// Writes an instant in RFC 3339 form, as responses and stored items carry
/// it. `None` stands for an instant outside the years that the calendar
/// covers.
pub fn write_instant(t: &Timestamp) -> (text: Option<String>)
    ensures
        text.is_some() == rfc3339_text(t.secs, t.nanos).is_some(),
        text.is_some() ==> text.unwrap()@ == rfc3339_text(t.secs, t.nanos).unwrap(),
{
    format_rfc3339(t)
}

/// Reads an instant from RFC 3339 form.
pub fn read_instant(text: &str) -> (t: Option<Timestamp>)
    ensures
        t == rfc3339_instant(text@),
{
    parse_rfc3339(text)
}

} // verus!
