//! The error shape served to clients, and its mapping to an HTTP status,
//! a stable machine-readable code, and a human message.

use vstd::prelude::*;
use vstd::string::StringExecFns;
use crate::errors::YouTubeError;

verus! {

/// A request-level failure: either a classified upstream failure, a
/// malformed request, or a not-found outcome with a specific reason.
#[derive(Clone, Debug, PartialEq)]
pub enum ApiError {
    YouTubeError(YouTubeError),
    InvalidRequest(String),
    NotFound(String),
}

impl core::convert::From<YouTubeError> for ApiError {
    fn from(err: YouTubeError) -> (r: Self) {
        ApiError::YouTubeError(err)
    }
}

impl vstd::std_specs::convert::FromSpecImpl<YouTubeError> for ApiError {
    open spec fn obeys_from_spec() -> bool {
        true
    }

    open spec fn from_spec(err: YouTubeError) -> Self {
        ApiError::YouTubeError(err)
    }
}

/// The HTTP status each failure is served with.
pub open spec fn http_status_of(e: ApiError) -> u16 {
    match e {
        ApiError::YouTubeError(err) => match err {
            YouTubeError::NotFound => 404u16,
            YouTubeError::Ratelimited => 429u16,
            YouTubeError::Unauthorized => 401u16,
            YouTubeError::Forbidden => 403u16,
            YouTubeError::InternalServerError => 500u16,
            YouTubeError::AccountClosed => 410u16,
            YouTubeError::AccountTerminated => 410u16,
            YouTubeError::SubscriptionsPrivate => 403u16,
            _ => 500u16,
        },
        ApiError::InvalidRequest(_) => 400u16,
        ApiError::NotFound(_) => 404u16,
    }
}

/// The stable machine-readable code each failure is served with.
pub open spec fn error_code_of(e: ApiError) -> Seq<char> {
    match e {
        ApiError::YouTubeError(err) => match err {
            YouTubeError::NotFound => "not_found"@,
            YouTubeError::Ratelimited => "rate_limited"@,
            YouTubeError::Unauthorized => "unauthorized"@,
            YouTubeError::Forbidden => "forbidden"@,
            YouTubeError::InternalServerError => "internal_server_error"@,
            YouTubeError::AccountClosed => "account_closed"@,
            YouTubeError::AccountTerminated => "account_terminated"@,
            YouTubeError::SubscriptionsPrivate => "subscriptions_private"@,
            _ => "unknown_error"@,
        },
        ApiError::InvalidRequest(_) => "invalid_request"@,
        ApiError::NotFound(_) => "not_found"@,
    }
}

/// The human-readable message each failure is served with.
pub open spec fn error_message_of(e: ApiError) -> Seq<char> {
    match e {
        ApiError::YouTubeError(err) => match err {
            YouTubeError::NotFound => "Not found"@,
            YouTubeError::Ratelimited => "Rate limited"@,
            YouTubeError::Unauthorized => "Unauthorized"@,
            YouTubeError::Forbidden => "Forbidden"@,
            YouTubeError::InternalServerError => "Internal server error"@,
            YouTubeError::AccountClosed => "Account is closed"@,
            YouTubeError::AccountTerminated => "Account is terminated"@,
            YouTubeError::SubscriptionsPrivate => "Subscriptions are private"@,
            _ => "Unknown error occurred"@,
        },
        ApiError::InvalidRequest(m) => m@,
        ApiError::NotFound(m) => m@,
    }
}

/// The complete response mapping: HTTP status, error code, and message
/// for one failure.
pub fn error_parts(e: ApiError) -> (r: (u16, String, String))
    ensures
        r.0 == http_status_of(e),
        r.1@ == error_code_of(e),
        r.2@ == error_message_of(e),
{
    match e {
        ApiError::YouTubeError(err) => match err {
            YouTubeError::NotFound => (
                404u16,
                String::from_str("not_found"),
                String::from_str("Not found"),
            ),
            YouTubeError::Ratelimited => (
                429u16,
                String::from_str("rate_limited"),
                String::from_str("Rate limited"),
            ),
            YouTubeError::Unauthorized => (
                401u16,
                String::from_str("unauthorized"),
                String::from_str("Unauthorized"),
            ),
            YouTubeError::Forbidden => (
                403u16,
                String::from_str("forbidden"),
                String::from_str("Forbidden"),
            ),
            YouTubeError::InternalServerError => (
                500u16,
                String::from_str("internal_server_error"),
                String::from_str("Internal server error"),
            ),
            YouTubeError::AccountClosed => (
                410u16,
                String::from_str("account_closed"),
                String::from_str("Account is closed"),
            ),
            YouTubeError::AccountTerminated => (
                410u16,
                String::from_str("account_terminated"),
                String::from_str("Account is terminated"),
            ),
            YouTubeError::SubscriptionsPrivate => (
                403u16,
                String::from_str("subscriptions_private"),
                String::from_str("Subscriptions are private"),
            ),
            _ => (
                500u16,
                String::from_str("unknown_error"),
                String::from_str("Unknown error occurred"),
            ),
        },
        ApiError::InvalidRequest(m) => (400u16, String::from_str("invalid_request"), m),
        ApiError::NotFound(m) => (404u16, String::from_str("not_found"), m),
    }
}

} // verus!
