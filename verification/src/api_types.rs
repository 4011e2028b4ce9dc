//! The request and response shapes of the gateway's three operations.

use vstd::prelude::*;
use crate::models::{Channel, Subscription, Video};

verus! {

/// The page-size cap of the two paginated list operations.
pub const PAGE_SIZE_CAP: u32 = 50;

/// The five identifier namespaces a caller can claim for a lookup.
#[derive(Clone, Copy, Debug, PartialEq, Eq, Structural)]
pub enum LookupType {
    CustomUrl,
    Vanity,
    Username,
    Handle,
    ChannelId,
}

/// A channel lookup: a claimed identifier kind and the identifier itself.
#[derive(Clone, Debug, PartialEq)]
pub struct ChannelLookupRequest {
    pub kind: LookupType,
    pub id: String,
}

/// A resolved channel, with the canonical URL the identifier redirects to
/// when one was detected.
#[derive(Clone, Debug, PartialEq)]
pub struct ChannelLookupResponse {
    pub channel: Channel,
    pub redirect_url: Option<String>,
}

/// A paginated list request: the owning id and the page to continue from.
#[derive(Clone, Debug, PartialEq)]
pub struct PaginatedRequest {
    pub id: String,
    pub page_token: Option<String>,
}

/// One page of playlist videos.
#[derive(Clone, Debug, PartialEq)]
pub struct PlaylistItemsResponse {
    pub items: Vec<Video>,
    pub page_token: Option<String>,
}

/// One page of subscriptions.
#[derive(Clone, Debug, PartialEq)]
pub struct SubscriptionsResponse {
    pub items: Vec<Subscription>,
    pub page_token: Option<String>,
}

} // verus!
