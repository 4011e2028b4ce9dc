//! Timestamp parsing: an RFC 3339 date-and-time string becomes seconds
//! since the Unix epoch. The parse itself is done by chrono; its result is
//! named, not restated.

use vstd::prelude::*;
use chrono::DateTime;

verus! {

/// What parsing an RFC 3339 date-and-time string yields: the instant as
/// seconds since the Unix epoch, or `None` when the string is not a valid
/// RFC 3339 value. A function of the characters alone.
pub uninterp spec fn rfc3339_unix_of(s: Seq<char>) -> Option<i64>;

/// Relies on chrono's `DateTime::parse_from_rfc3339` and
/// `DateTime::timestamp`: both depend only on the string parsed.
#[verifier::external_body]
pub fn parse_rfc3339_unix(s: &str) -> (r: Option<i64>)
    ensures
        r == rfc3339_unix_of(s@),
{
    match DateTime::parse_from_rfc3339(s) {
        Ok(dt) => Some(dt.timestamp()),
        Err(_) => None,
    }
}

} // verus!
