//! Construction of the canonical `Channel` record from the fields a
//! channel-list response carries: asset paths are stripped of their sizing
//! parameters, the handle is read off the custom URL, counts and the
//! creation timestamp are parsed with absent or malformed values
//! defaulting to zero, and the keyword field is tokenized.

use vstd::prelude::*;
use vstd::string::StrSliceExecFns;
use crate::errors::YouTubeError;
use crate::keywords::{keyword_tokens, parse_keywords};
use crate::models::{Channel, ChannelView};
use crate::numparse::{parse_i64_spec, parse_i64_str};
use crate::rfc3339::{parse_rfc3339_unix, rfc3339_unix_of};
use crate::strutil::{
    char_pos, is_prefix, prefix_before, skip_leading, strip_prefix_str, trim_start_matches_char,
};

verus! {

/// The three ways a channel can be fetched directly.
#[derive(Clone, Debug, PartialEq)]
pub enum LookupType {
    Username(String),
    Handle(String),
    ChannelID(String),
}

/// The flat fields of one channel entry as the upstream list serves them;
/// a field is `None` when the entry or any structure holding it is absent.
#[derive(Clone, Debug, PartialEq)]
pub struct RawChannel {
    pub id: String,
    pub title: Option<String>,
    pub description: Option<String>,
    pub custom_url: Option<String>,
    pub published_at: Option<String>,
    pub thumbnail_url: Option<String>,
    pub country: Option<String>,
    pub view_count: Option<String>,
    pub subscriber_count: Option<String>,
    pub video_count: Option<String>,
    pub made_for_kids: Option<bool>,
    pub keywords: Option<String>,
    pub trailer: Option<String>,
    pub analytics_account_id: Option<String>,
    pub banner_url: Option<String>,
}

/// An avatar URL with its host and sizing parameters stripped: the part
/// before the first `=`, after the known host prefix if one is there.
pub open spec fn avatar_path_of(u: Seq<char>) -> Seq<char> {
    let host = "https://yt3.ggpht.com/"@;
    let stripped = if is_prefix(host, u) {
        u.subrange(host.len() as int, u.len() as int)
    } else {
        u
    };
    stripped.subrange(0, char_pos(stripped, '='))
}

/// A banner URL treated like the avatar, with either of the two known
/// hosts stripped.
pub open spec fn banner_path_of(u: Seq<char>) -> Seq<char> {
    let host_a = "https://yt3.googleusercontent.com/"@;
    let host_b = "https://lh3.googleusercontent.com/"@;
    let stripped = if is_prefix(host_a, u) {
        u.subrange(host_a.len() as int, u.len() as int)
    } else if is_prefix(host_b, u) {
        u.subrange(host_b.len() as int, u.len() as int)
    } else {
        u
    };
    stripped.subrange(0, char_pos(stripped, '='))
}

/// The handle a custom URL names: the text after its leading `@` signs,
/// present only when the custom URL starts with `@`.
pub open spec fn handle_of_custom(custom: Option<Seq<char>>) -> Option<Seq<char>> {
    match custom {
        Some(h) => if h.len() > 0 && h[0] == '@' {
            Some(h.subrange(skip_leading(h, '@'), h.len() as int))
        } else {
            None
        },
        None => None,
    }
}

/// The creation timestamp: the parsed RFC 3339 instant, with an absent or
/// malformed value defaulting to zero.
pub open spec fn created_at_of(published: Option<Seq<char>>) -> i64 {
    match published {
        Some(p) => match rfc3339_unix_of(p) {
            Some(t) => t,
            None => 0,
        },
        None => 0,
    }
}

/// A count served as a decimal string, with an absent or malformed value
/// defaulting to zero.
pub open spec fn count_of(count: Option<Seq<char>>) -> i64 {
    match count {
        Some(c) => match parse_i64_spec(c) {
            Some(v) => v,
            None => 0,
        },
        None => 0,
    }
}

/// How a built channel relates to the raw entry it came from, field by
/// field. The four enrichment-only fields start unset.
pub open spec fn channel_built_from(c: ChannelView, raw: RawChannel) -> bool {
    &&& c.user_id == raw.id@
    &&& c.display_name == raw.title.deep_view()
    &&& c.description == raw.description.deep_view()
    &&& c.handle == handle_of_custom(raw.custom_url.deep_view())
    &&& c.profile_picture == match raw.thumbnail_url.deep_view() {
        Some(u) => Some(avatar_path_of(u)),
        None => None::<Seq<char>>,
    }
    &&& c.banner == match raw.banner_url.deep_view() {
        Some(u) => Some(banner_path_of(u)),
        None => None::<Seq<char>>,
    }
    &&& c.created_at == created_at_of(raw.published_at.deep_view())
    &&& c.country == raw.country.deep_view()
    &&& c.view_count == count_of(raw.view_count.deep_view())
    &&& c.subscriber_count == count_of(raw.subscriber_count.deep_view())
    &&& c.video_count == count_of(raw.video_count.deep_view())
    &&& c.made_for_kids == match raw.made_for_kids {
        Some(b) => b,
        None => false,
    }
    &&& c.keywords == match raw.keywords.deep_view() {
        Some(k) => Some(keyword_tokens(k)),
        None => None::<Seq<Seq<char>>>,
    }
    &&& c.trailer == raw.trailer.deep_view()
    &&& c.analytics_account_id == raw.analytics_account_id.deep_view()
    &&& c.conditional_redirect is None
    &&& c.no_index is None
    &&& c.verification is None
    &&& c.blocked_countries is None
}

/// Strips one known host prefix and cuts at the first `=`.
pub(crate) fn trim_asset_path(url: &str, host: &str) -> (r: String)
    ensures
        ({
            let stripped = if is_prefix(host@, url@) {
                url@.subrange(host@.len() as int, url@.len() as int)
            } else {
                url@
            };
            r@ == stripped.subrange(0, char_pos(stripped, '='))
        }),
{
    let rest: &str = match strip_prefix_str(url, host) {
        Some(t) => t,
        None => url,
    };
    let cut = prefix_before(rest, '=');
    cut.to_owned()
}

/// Builds the canonical channel record from one raw entry.
pub fn build_channel(raw: RawChannel) -> (r: Channel)
    ensures
        channel_built_from(r@, raw),
{
    let handle: Option<String> = match &raw.custom_url {
        Some(h) => {
            if h.as_str().unicode_len() > 0 && h.as_str().get_char(0) == '@' {
                Some(trim_start_matches_char(h.as_str(), '@').to_owned())
            } else {
                None
            }
        },
        None => None,
    };
    let profile_picture: Option<String> = match &raw.thumbnail_url {
        Some(u) => Some(trim_asset_path(u.as_str(), "https://yt3.ggpht.com/")),
        None => None,
    };
    let banner: Option<String> = match &raw.banner_url {
        Some(u) => {
            if starts_with_banner_host_a(u.as_str()) {
                Some(trim_asset_path(u.as_str(), "https://yt3.googleusercontent.com/"))
            } else {
                Some(trim_asset_path(u.as_str(), "https://lh3.googleusercontent.com/"))
            }
        },
        None => None,
    };
    let created_at: i64 = match &raw.published_at {
        Some(p) => match parse_rfc3339_unix(p.as_str()) {
            Some(t) => t,
            None => 0,
        },
        None => 0,
    };
    let view_count = parse_count(&raw.view_count);
    let subscriber_count = parse_count(&raw.subscriber_count);
    let video_count = parse_count(&raw.video_count);
    let keywords: Option<Vec<String>> = match &raw.keywords {
        Some(k) => Some(parse_keywords(k.as_str())),
        None => None,
    };
    Channel {
        user_id: raw.id,
        display_name: raw.title,
        description: raw.description,
        handle,
        profile_picture,
        banner,
        created_at,
        country: raw.country,
        view_count,
        subscriber_count,
        video_count,
        made_for_kids: match raw.made_for_kids {
            Some(b) => b,
            None => false,
        },
        keywords,
        trailer: raw.trailer,
        analytics_account_id: raw.analytics_account_id,
        conditional_redirect: None,
        no_index: None,
        verification: None,
        blocked_countries: None,
    }
}

/// True when the banner URL carries the first of the two known hosts.
fn starts_with_banner_host_a(u: &str) -> (r: bool)
    ensures
        r == is_prefix("https://yt3.googleusercontent.com/"@, u@),
{
    crate::strutil::starts_with_str(u, "https://yt3.googleusercontent.com/")
}

/// Parses one count field, defaulting to zero.
fn parse_count(count: &Option<String>) -> (r: i64)
    ensures
        r == count_of(count.deep_view()),
{
    match count {
        Some(c) => match parse_i64_str(c.as_str()) {
            Some(v) => v,
            None => 0,
        },
        None => 0,
    }
}

/// The channel of a list response: the last entry of the item list, built;
/// an absent or empty list means the channel does not exist.
pub fn channel_from_items(items: Option<Vec<RawChannel>>) -> (r: Result<Channel, YouTubeError>)
    ensures
        match r {
            Ok(c) => match items {
                Some(list) => list@.len() > 0 && channel_built_from(c@, list@[list@.len() - 1]),
                None => false,
            },
            Err(e) => e == YouTubeError::NotFound && match items {
                Some(list) => list@.len() == 0,
                None => true,
            },
        },
{
    match items {
        Some(mut list) => match list.pop() {
            Some(raw) => Ok(build_channel(raw)),
            None => Err(YouTubeError::NotFound),
        },
        None => Err(YouTubeError::NotFound),
    }
}

} // verus!
