//! The records the gateway serves: the canonical channel record, playlist
//! video entries, and subscription entries, each with a mathematical view.

use vstd::prelude::*;

verus! {

/// Verification state of a channel, derived from its badge image
/// identifier; an unrecognized or missing badge means `Unverified`.
#[derive(Clone, Copy, Debug, PartialEq, Eq, Structural)]
pub enum VerificationStatus {
    Unverified,
    Verified,
    OAC,
}

/// Canonical record for one creator account.
///
/// The last four fields are filled only by enrichment: they all start
/// unset, and when enrichment detects a redirect, only
/// `conditional_redirect` is set.
#[derive(Clone, Debug, PartialEq)]
pub struct Channel {
    pub user_id: String,
    pub display_name: Option<String>,
    pub description: Option<String>,
    pub handle: Option<String>,
    pub profile_picture: Option<String>,
    pub banner: Option<String>,
    pub created_at: i64,
    pub country: Option<String>,
    pub view_count: i64,
    pub subscriber_count: i64,
    pub video_count: i64,
    pub made_for_kids: bool,
    pub keywords: Option<Vec<String>>,
    pub trailer: Option<String>,
    pub analytics_account_id: Option<String>,
    pub conditional_redirect: Option<String>,
    pub no_index: Option<bool>,
    pub verification: Option<VerificationStatus>,
    pub blocked_countries: Option<Vec<String>>,
}

/// The abstraction of a `Channel`: every text field as a `Seq<char>`.
pub struct ChannelView {
    pub user_id: Seq<char>,
    pub display_name: Option<Seq<char>>,
    pub description: Option<Seq<char>>,
    pub handle: Option<Seq<char>>,
    pub profile_picture: Option<Seq<char>>,
    pub banner: Option<Seq<char>>,
    pub created_at: i64,
    pub country: Option<Seq<char>>,
    pub view_count: i64,
    pub subscriber_count: i64,
    pub video_count: i64,
    pub made_for_kids: bool,
    pub keywords: Option<Seq<Seq<char>>>,
    pub trailer: Option<Seq<char>>,
    pub analytics_account_id: Option<Seq<char>>,
    pub conditional_redirect: Option<Seq<char>>,
    pub no_index: Option<bool>,
    pub verification: Option<VerificationStatus>,
    pub blocked_countries: Option<Seq<Seq<char>>>,
}

impl View for Channel {
    type V = ChannelView;

    open spec fn view(&self) -> ChannelView {
        ChannelView {
            user_id: self.user_id@,
            display_name: self.display_name.deep_view(),
            description: self.description.deep_view(),
            handle: self.handle.deep_view(),
            profile_picture: self.profile_picture.deep_view(),
            banner: self.banner.deep_view(),
            created_at: self.created_at,
            country: self.country.deep_view(),
            view_count: self.view_count,
            subscriber_count: self.subscriber_count,
            video_count: self.video_count,
            made_for_kids: self.made_for_kids,
            keywords: self.keywords.deep_view(),
            trailer: self.trailer.deep_view(),
            analytics_account_id: self.analytics_account_id.deep_view(),
            conditional_redirect: self.conditional_redirect.deep_view(),
            no_index: self.no_index,
            verification: self.verification,
            blocked_countries: self.blocked_countries.deep_view(),
        }
    }
}

impl DeepView for Channel {
    type V = ChannelView;

    open spec fn deep_view(&self) -> ChannelView {
        self.view()
    }
}

impl ChannelView {
    /// The fields that a plain channel fetch fills, before enrichment.
    pub open spec fn base_fields_equal(self, other: ChannelView) -> bool {
        &&& self.user_id == other.user_id
        &&& self.display_name == other.display_name
        &&& self.description == other.description
        &&& self.profile_picture == other.profile_picture
        &&& self.banner == other.banner
        &&& self.created_at == other.created_at
        &&& self.country == other.country
        &&& self.view_count == other.view_count
        &&& self.subscriber_count == other.subscriber_count
        &&& self.video_count == other.video_count
        &&& self.made_for_kids == other.made_for_kids
        &&& self.keywords == other.keywords
        &&& self.trailer == other.trailer
        &&& self.analytics_account_id == other.analytics_account_id
    }

    /// True while none of the enrichment-only fields has been filled.
    pub open spec fn enrichment_unset(self) -> bool {
        &&& self.conditional_redirect is None
        &&& self.no_index is None
        &&& self.verification is None
        &&& self.blocked_countries is None
    }
}

/// One entry of a playlist page; the stats fields are filled by a separate
/// enrichment pass and start unset.
#[derive(Clone, Debug, PartialEq)]
pub struct Video {
    pub video_id: String,
    pub title: String,
    pub description: String,
    pub created_at: i64,
    pub livestream: bool,
    pub views: Option<i64>,
    pub likes: Option<i64>,
    pub comments: Option<i64>,
}

/// The abstraction of a `Video`.
pub struct VideoView {
    pub video_id: Seq<char>,
    pub title: Seq<char>,
    pub description: Seq<char>,
    pub created_at: i64,
    pub livestream: bool,
    pub views: Option<i64>,
    pub likes: Option<i64>,
    pub comments: Option<i64>,
}

impl View for Video {
    type V = VideoView;

    open spec fn view(&self) -> VideoView {
        VideoView {
            video_id: self.video_id@,
            title: self.title@,
            description: self.description@,
            created_at: self.created_at,
            livestream: self.livestream,
            views: self.views,
            likes: self.likes,
            comments: self.comments,
        }
    }
}

impl DeepView for Video {
    type V = VideoView;

    open spec fn deep_view(&self) -> VideoView {
        self.view()
    }
}

/// One entry of a subscriptions page.
#[derive(Clone, Debug, PartialEq)]
pub struct Subscription {
    pub channel_id: String,
    pub title: String,
    pub created_at: i64,
    pub profile_picture: Option<String>,
}

/// The abstraction of a `Subscription`.
pub struct SubscriptionView {
    pub channel_id: Seq<char>,
    pub title: Seq<char>,
    pub created_at: i64,
    pub profile_picture: Option<Seq<char>>,
}

impl View for Subscription {
    type V = SubscriptionView;

    open spec fn view(&self) -> SubscriptionView {
        SubscriptionView {
            channel_id: self.channel_id@,
            title: self.title@,
            created_at: self.created_at,
            profile_picture: self.profile_picture.deep_view(),
        }
    }
}

impl DeepView for Subscription {
    type V = SubscriptionView;

    open spec fn deep_view(&self) -> SubscriptionView {
        self.view()
    }
}

} // verus!