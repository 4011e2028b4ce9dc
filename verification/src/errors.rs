//! The closed taxonomy of upstream failures shared by every upstream call.

use vstd::prelude::*;

verus! {

/// One failure kind per way an upstream call can go wrong.
///
/// `UnknownStatusCode` is the catch-all for a status outside the known
/// table; `ParseError` covers an unreadable response body;
/// `TransportFailure` covers a request that never produced a response.
#[derive(Clone, Debug, PartialEq)]
pub enum YouTubeError {
    AccountClosed,
    AccountTerminated,
    SubscriptionsPrivate,
    NotFound,
    Ratelimited,
    Unauthorized,
    Forbidden,
    InternalServerError,
    UnknownStatusCode(u16),
    ParseError(String),
    TransportFailure(String),
}

} // verus!
