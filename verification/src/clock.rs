//! Capture instants and their rendering.

use std::fmt::Write;
use vstd::prelude::*;

verus! {

/// An instant: whole seconds since 1970-01-01T00:00:00 UTC, not counting
/// leap seconds, and the nanoseconds since the last whole second.
#[derive(Clone, Copy, Debug, PartialEq, Eq, Structural)]
pub struct Timestamp {
    pub secs: i64,
    pub nanos: u32,
}

impl Timestamp {
    pub fn new(secs: i64, nanos: u32) -> (at: Self)
        ensures
            at.secs == secs,
            at.nanos == nanos,
    {
        Self { secs, nanos }
    }
}

/// The instant rendered in UTC by a strftime-style pattern, or `None` where
/// the instant is out of the calendar's range or the pattern is not valid.
pub uninterp spec fn strftime_text(secs: i64, nanos: u32, pattern: Seq<char>) -> Option<Seq<char>>;

/// Builds the instant with `chrono::DateTime::from_timestamp` and renders it
/// with `chrono::DateTime::format`, written through `Display`. Trusted: the
/// outcome depends on the instant and the pattern alone. It is `None` where
/// chrono refuses the instant or reports a formatting error.
#[verifier::external_body]
pub(crate) fn strftime(at: Timestamp, pattern: &str) -> (out: Option<String>)
    ensures
        out matches Some(text) ==> strftime_text(at.secs, at.nanos, pattern@) == Some(text@),
        out is None ==> strftime_text(at.secs, at.nanos, pattern@) is None,
{
    let instant = chrono::DateTime::<chrono::Utc>::from_timestamp(at.secs, at.nanos)?;
    let mut text = String::new();
    match write!(text, "{}", instant.format(pattern)) {
        Ok(()) => Some(text),
        Err(_) => None,
    }
}

} // verus!
