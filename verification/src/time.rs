//! Instants as text, read and written by the `chrono` crate.
use vstd::prelude::*;

verus! {

/// The instant that `chrono::DateTime::parse_from_rfc3339` reads from `text`, as
/// the seconds since the Unix epoch and the nanoseconds into that second; `None`
/// where it refuses the text.
pub uninterp spec fn rfc3339_instant(text: Seq<char>) -> Option<(i64, u32)>;

/// The text that `chrono::DateTime::to_rfc3339` writes for the instant that
/// `chrono::DateTime::from_timestamp` makes of `seconds` and `nanos`; `None`
/// where it makes none.
pub uninterp spec fn rfc3339_text(seconds: i64, nanos: u32) -> Option<Seq<char>>;

/// Reads `text` with `chrono::DateTime::parse_from_rfc3339` and takes the
/// instant apart with `timestamp` and `timestamp_subsec_nanos`. Nothing is
/// proved of the answer: it is given the name [`rfc3339_instant`].
#[verifier::external_body]
pub(crate) fn parse_rfc3339(text: &str) -> (r: Option<(i64, u32)>)
    ensures
        r == rfc3339_instant(text@),
{
    match chrono::DateTime::parse_from_rfc3339(text) {
        Ok(instant) => Some((instant.timestamp(), instant.timestamp_subsec_nanos())),
        Err(_) => None,
    }
}

/// Makes an instant with `chrono::DateTime::from_timestamp` and writes it with
/// `to_rfc3339`. Nothing is proved of the answer: its characters are given the
/// name [`rfc3339_text`].
#[verifier::external_body]
pub(crate) fn format_rfc3339(seconds: i64, nanos: u32) -> (r: Option<String>)
    ensures
        r is Some == rfc3339_text(seconds, nanos) is Some,
        r matches Some(s) ==> rfc3339_text(seconds, nanos) == Some(s@),
{
    match chrono::DateTime::from_timestamp(seconds, nanos) {
        Some(instant) => Some(instant.to_rfc3339()),
        None => None,
    }
}

} // verus!
