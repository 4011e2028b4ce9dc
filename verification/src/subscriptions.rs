//! Decoding of one subscriptions page: entries missing a required field
//! or carrying an unparseable timestamp are silently dropped, never
//! surfaced as a partial error.

use vstd::prelude::*;
use vstd::string::StrSliceExecFns;
use crate::channels::{avatar_path_of, trim_asset_path};
use crate::models::{Subscription, SubscriptionView};
use crate::rfc3339::{parse_rfc3339_unix, rfc3339_unix_of};

verus! {

/// The flat fields of one subscriptions entry as the upstream serves it.
#[derive(Clone, Debug, PartialEq)]
pub struct RawSubscription {
    pub channel_id: Option<String>,
    pub title: Option<String>,
    pub published_at: Option<String>,
    pub thumbnail_url: Option<String>,
}

/// What one raw entry decodes to: `None` when the channel id, the title or
/// the timestamp is absent, or the timestamp does not parse.
pub open spec fn subscription_of_raw(raw: RawSubscription) -> Option<SubscriptionView> {
    match raw.channel_id.deep_view() {
        Some(id) => match raw.title.deep_view() {
            Some(title) => match raw.published_at.deep_view() {
                Some(p) => match rfc3339_unix_of(p) {
                    Some(ts) => Some(
                        SubscriptionView {
                            channel_id: id,
                            title: title,
                            created_at: ts,
                            profile_picture: match raw.thumbnail_url.deep_view() {
                                Some(u) => Some(avatar_path_of(u)),
                                None => None::<Seq<char>>,
                            },
                        },
                    ),
                    None => None,
                },
                None => None,
            },
            None => None,
        },
        None => None,
    }
}

/// The page decoded entry by entry, drops included.
pub open spec fn subscriptions_of_raws(items: Seq<RawSubscription>) -> Seq<SubscriptionView>
    decreases items.len(),
{
    if items.len() == 0 {
        Seq::empty()
    } else {
        let rest = subscriptions_of_raws(items.drop_last());
        match subscription_of_raw(items.last()) {
            Some(s) => rest.push(s),
            None => rest,
        }
    }
}

/// Decodes one raw entry.
fn subscription_of(it: &RawSubscription) -> (r: Option<Subscription>)
    ensures
        r.deep_view() == subscription_of_raw(*it),
{
    let id = match &it.channel_id {
        Some(s) => s,
        None => {
            return None;
        },
    };
    let title = match &it.title {
        Some(s) => s,
        None => {
            return None;
        },
    };
    let published = match &it.published_at {
        Some(s) => s,
        None => {
            return None;
        },
    };
    let ts = match parse_rfc3339_unix(published.as_str()) {
        Some(t) => t,
        None => {
            return None;
        },
    };
    let profile_picture = match &it.thumbnail_url {
        Some(u) => Some(trim_asset_path(u.as_str(), "https://yt3.ggpht.com/")),
        None => None,
    };
    Some(
        Subscription {
            channel_id: id.clone(),
            title: title.clone(),
            created_at: ts,
            profile_picture,
        },
    )
}

/// Decodes a whole page, dropping incomplete entries.
pub fn subscriptions_from_items(items: &Vec<RawSubscription>) -> (r: Vec<Subscription>)
    ensures
        r.deep_view() == subscriptions_of_raws(items@),
{
    let mut out: Vec<Subscription> = Vec::new();
    let mut i: usize = 0;
    proof {
        assert(out.deep_view() =~= subscriptions_of_raws(items@.subrange(0, 0)));
    }
    while i < items.len()
        invariant
            i <= items.len(),
            out.deep_view() == subscriptions_of_raws(items@.subrange(0, i as int)),
        decreases items.len() - i,
    {
        let ghost pre = out.deep_view();
        match subscription_of(&items[i]) {
            Some(s) => {
                let ghost sv = s.deep_view();
                out.push(s);
                proof {
                    assert(out.deep_view() =~= pre.push(sv));
                }
            },
            None => {},
        }
        proof {
            let next = items@.subrange(0, i + 1);
            assert(next.drop_last() =~= items@.subrange(0, i as int));
            assert(next.last() == items@[i as int]);
            assert(out.deep_view() == subscriptions_of_raws(next));
        }
        i += 1;
    }
    proof {
        assert(items@.subrange(0, items@.len() as int) =~= items@);
    }
    out
}

} // verus!
