//! Reading a timestamp out of an annotation value.

use vstd::prelude::*;

verus! {

/// The instant that `text` denotes as an RFC 3339 date and time, in milliseconds
/// since the Unix epoch, as chrono reads it; `None` where chrono does not accept
/// `text` as such a date and time.
pub uninterp spec fn rfc3339_millis(text: Seq<char>) -> Option<i64>;

/// Parses `text` with chrono's `DateTime::parse_from_rfc3339` and converts the
/// instant with `DateTime::timestamp_millis`.
///
/// Trusted: the result is taken to be a function of the text alone. The parser
/// reads nothing but its argument (no clock, no locale, no local time zone). It
/// takes four-digit years only, so the milliseconds of every instant that it
/// accepts fit an `i64` with room to spare.
#[verifier::external_body]
pub(crate) fn parse_rfc3339_millis(text: &str) -> (millis: Option<i64>)
    ensures
        millis == rfc3339_millis(text@),
{
    match chrono::DateTime::parse_from_rfc3339(text) {
        Ok(instant) => Some(instant.timestamp_millis()),
        Err(_) => None,
    }
}

} // verus!
