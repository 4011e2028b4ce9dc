use tubegate::api_error::{error_parts, ApiError};
use tubegate::classify::{classify_forbidden_message, classify_status, StatusOutcome, UpstreamEndpoint};
use tubegate::errors::YouTubeError;

#[test]
fn shared_status_table() {
    assert_eq!(classify_status(200), StatusOutcome::Success);
    assert_eq!(classify_status(429), StatusOutcome::Failure(YouTubeError::Ratelimited));
    assert_eq!(classify_status(403), StatusOutcome::ForbiddenWithBody);
    assert_eq!(classify_status(404), StatusOutcome::Failure(YouTubeError::NotFound));
    assert_eq!(classify_status(401), StatusOutcome::Failure(YouTubeError::Unauthorized));
    assert_eq!(classify_status(500), StatusOutcome::Failure(YouTubeError::InternalServerError));
    assert_eq!(classify_status(503), StatusOutcome::Failure(YouTubeError::InternalServerError));
    assert_eq!(
        classify_status(418),
        StatusOutcome::Failure(YouTubeError::UnknownStatusCode(418))
    );
    assert_eq!(
        classify_status(302),
        StatusOutcome::Failure(YouTubeError::UnknownStatusCode(302))
    );
}

#[test]
fn subscriptions_private_only_in_subscriptions_context() {
    let msg = "The requester is not allowed to access the requested subscriptions.";
    assert_eq!(
        classify_forbidden_message(UpstreamEndpoint::Subscriptions, msg),
        YouTubeError::SubscriptionsPrivate
    );
    assert_eq!(
        classify_forbidden_message(UpstreamEndpoint::Channels, msg),
        YouTubeError::Forbidden
    );
    assert_eq!(
        classify_forbidden_message(UpstreamEndpoint::PlaylistItems, msg),
        YouTubeError::Forbidden
    );
}

#[test]
fn account_state_messages() {
    assert_eq!(
        classify_forbidden_message(
            UpstreamEndpoint::Subscriptions,
            "Subscriptions could not be retrieved because the subscriber's account is closed.",
        ),
        YouTubeError::AccountClosed
    );
    assert_eq!(
        classify_forbidden_message(
            UpstreamEndpoint::Subscriptions,
            "Subscriptions could not be retrieved because the subscriber's account is suspended.",
        ),
        YouTubeError::AccountTerminated
    );
}

#[test]
fn quota_prefix_overrides_forbidden_everywhere() {
    let msg = "The request cannot be completed because you have exceeded your quota.";
    assert_eq!(
        classify_forbidden_message(UpstreamEndpoint::Channels, msg),
        YouTubeError::Ratelimited
    );
    assert_eq!(
        classify_forbidden_message(UpstreamEndpoint::Subscriptions, msg),
        YouTubeError::Ratelimited
    );
}

#[test]
fn unknown_forbidden_message_stays_forbidden() {
    assert_eq!(
        classify_forbidden_message(UpstreamEndpoint::Subscriptions, "Access denied."),
        YouTubeError::Forbidden
    );
    // Close to, but not exactly, an account-state message.
    assert_eq!(
        classify_forbidden_message(
            UpstreamEndpoint::Subscriptions,
            "Subscriptions could not be retrieved because the subscriber's account is closed",
        ),
        YouTubeError::Forbidden
    );
}

#[test]
fn error_parts_upstream_kinds() {
    let (status, code, message) = error_parts(ApiError::YouTubeError(YouTubeError::NotFound));
    assert_eq!((status, code.as_str(), message.as_str()), (404, "not_found", "Not found"));
    let (status, code, _) = error_parts(ApiError::YouTubeError(YouTubeError::Ratelimited));
    assert_eq!((status, code.as_str()), (429, "rate_limited"));
    let (status, code, message) = error_parts(ApiError::YouTubeError(YouTubeError::AccountClosed));
    assert_eq!((status, code.as_str(), message.as_str()), (410, "account_closed", "Account is closed"));
    let (status, code, _) = error_parts(ApiError::YouTubeError(YouTubeError::AccountTerminated));
    assert_eq!((status, code.as_str()), (410, "account_terminated"));
    let (status, code, _) = error_parts(ApiError::YouTubeError(YouTubeError::SubscriptionsPrivate));
    assert_eq!((status, code.as_str()), (403, "subscriptions_private"));
    let (status, code, message) =
        error_parts(ApiError::YouTubeError(YouTubeError::UnknownStatusCode(418)));
    assert_eq!((status, code.as_str(), message.as_str()), (500, "unknown_error", "Unknown error occurred"));
    let (status, code, _) =
        error_parts(ApiError::YouTubeError(YouTubeError::ParseError("bad json".to_string())));
    assert_eq!((status, code.as_str()), (500, "unknown_error"));
}

#[test]
fn error_parts_request_kinds() {
    let (status, code, message) = error_parts(ApiError::InvalidRequest("bad shape".to_string()));
    assert_eq!((status, code.as_str(), message.as_str()), (400, "invalid_request", "bad shape"));
    let (status, code, message) = error_parts(ApiError::NotFound("Channel not found".to_string()));
    assert_eq!((status, code.as_str(), message.as_str()), (404, "not_found", "Channel not found"));
}

#[test]
fn api_error_from_upstream() {
    let e = ApiError::from(YouTubeError::Unauthorized);
    assert_eq!(e, ApiError::YouTubeError(YouTubeError::Unauthorized));
}
