//! The shared classifier that turns an upstream HTTP response into one
//! value of the failure taxonomy.
//!
//! Classification happens in two stages, as the responses demand it: one
//! status table shared by every upstream call decides everything except a
//! 403, whose JSON error message is then held against an exhaustive table
//! of known texts — with three account-state texts meaningful on the
//! subscriptions endpoint alone.

use vstd::prelude::*;
use crate::errors::YouTubeError;
use crate::strutil::{is_prefix, starts_with_str, str_eq};

verus! {

/// Which upstream endpoint a response came from. The status table is the
/// same for all of them; the endpoint only decides whether a 403 body's
/// account-state messages are meaningful (subscriptions only).
#[derive(Clone, Copy, Debug, PartialEq, Eq, Structural)]
pub enum UpstreamEndpoint {
    Channels,
    PlaylistItems,
    Videos,
    Subscriptions,
    ResolveUrl,
    Browse,
}

/// What a status code alone decides: the call succeeded, it failed with a
/// definite kind, or it is a 403 whose error body must be read before the
/// kind is known.
#[derive(Clone, Debug, PartialEq)]
pub enum StatusOutcome {
    Success,
    Failure(YouTubeError),
    ForbiddenWithBody,
}

/// The shared status table: 429, 404, 401, 500 and 503 map directly, a
/// 403 defers to the body, and any other non-200 status is the catch-all
/// unknown-status failure carrying the numeric code.
pub open spec fn status_outcome_of(status: u16) -> StatusOutcome {
    if status == 200u16 {
        StatusOutcome::Success
    } else if status == 429u16 {
        StatusOutcome::Failure(YouTubeError::Ratelimited)
    } else if status == 403u16 {
        StatusOutcome::ForbiddenWithBody
    } else if status == 404u16 {
        StatusOutcome::Failure(YouTubeError::NotFound)
    } else if status == 401u16 {
        StatusOutcome::Failure(YouTubeError::Unauthorized)
    } else if status == 500u16 || status == 503u16 {
        StatusOutcome::Failure(YouTubeError::InternalServerError)
    } else {
        StatusOutcome::Failure(YouTubeError::UnknownStatusCode(status))
    }
}

/// Classifies a response by its status code alone; every upstream call
/// goes through this one table.
pub fn classify_status(status: u16) -> (r: StatusOutcome)
    ensures
        r == status_outcome_of(status),
{
    if status == 200 {
        StatusOutcome::Success
    } else if status == 429 {
        StatusOutcome::Failure(YouTubeError::Ratelimited)
    } else if status == 403 {
        StatusOutcome::ForbiddenWithBody
    } else if status == 404 {
        StatusOutcome::Failure(YouTubeError::NotFound)
    } else if status == 401 {
        StatusOutcome::Failure(YouTubeError::Unauthorized)
    } else if status == 500 || status == 503 {
        StatusOutcome::Failure(YouTubeError::InternalServerError)
    } else {
        StatusOutcome::Failure(YouTubeError::UnknownStatusCode(status))
    }
}

/// The quota-exhaustion prefix that overrides a raw 403 on any endpoint.
pub open spec fn ratelimit_prefix() -> Seq<char> {
    "The request cannot be completed because you have exceeded your"@
}

/// The account-closed message, meaningful on the subscriptions endpoint.
pub open spec fn closed_message() -> Seq<char> {
    "Subscriptions could not be retrieved because the subscriber's account is closed."@
}

/// The account-suspended message, meaningful on the subscriptions endpoint.
pub open spec fn suspended_message() -> Seq<char> {
    "Subscriptions could not be retrieved because the subscriber's account is suspended."@
}

/// The private-subscriptions message, meaningful on the subscriptions
/// endpoint.
pub open spec fn private_message() -> Seq<char> {
    "The requester is not allowed to access the requested subscriptions."@
}

/// The exhaustive message table for a 403 body: the quota prefix maps to
/// `Ratelimited` everywhere; three exact texts are account-state kinds on
/// the subscriptions endpoint only; everything else stays `Forbidden`.
pub open spec fn forbidden_kind_of(endpoint: UpstreamEndpoint, m: Seq<char>) -> YouTubeError {
    if is_prefix(ratelimit_prefix(), m) {
        YouTubeError::Ratelimited
    } else if endpoint == UpstreamEndpoint::Subscriptions && m == closed_message() {
        YouTubeError::AccountClosed
    } else if endpoint == UpstreamEndpoint::Subscriptions && m == suspended_message() {
        YouTubeError::AccountTerminated
    } else if endpoint == UpstreamEndpoint::Subscriptions && m == private_message() {
        YouTubeError::SubscriptionsPrivate
    } else {
        YouTubeError::Forbidden
    }
}

/// Classifies the decoded message of a 403 error body.
pub fn classify_forbidden_message(endpoint: UpstreamEndpoint, message: &str) -> (r: YouTubeError)
    ensures
        r == forbidden_kind_of(endpoint, message@),
{
    if starts_with_str(message, "The request cannot be completed because you have exceeded your") {
        YouTubeError::Ratelimited
    } else if matches!(endpoint, UpstreamEndpoint::Subscriptions) && str_eq(
        message,
        "Subscriptions could not be retrieved because the subscriber's account is closed.",
    ) {
        YouTubeError::AccountClosed
    } else if matches!(endpoint, UpstreamEndpoint::Subscriptions) && str_eq(
        message,
        "Subscriptions could not be retrieved because the subscriber's account is suspended.",
    ) {
        YouTubeError::AccountTerminated
    } else if matches!(endpoint, UpstreamEndpoint::Subscriptions) && str_eq(
        message,
        "The requester is not allowed to access the requested subscriptions.",
    ) {
        YouTubeError::SubscriptionsPrivate
    } else {
        YouTubeError::Forbidden
    }
}

} // verus!
