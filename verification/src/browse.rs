//! Channel enrichment: the merge of a browse response into a channel
//! record. A redirect whose target differs from the channel's own id
//! short-circuits the merge — only the redirect field is set. Otherwise
//! the verification badge, the indexability flag, the blocked-country
//! list and the canonical handle are filled where the response carries
//! them.

use vstd::prelude::*;
use vstd::string::StrSliceExecFns;
use crate::countries::{blocked_codes, compute_blocked_countries};
use crate::models::{Channel, ChannelView, VerificationStatus};
use crate::strutil::{is_prefix, str_eq, strip_prefix_str};

verus! {

/// The microformat fields of a browse response.
#[derive(Clone, Debug, PartialEq)]
pub struct MicroformatData {
    pub noindex: Option<bool>,
    pub available_countries: Option<Vec<String>>,
}

/// The decoded fields of one browse response, flattened: the redirect
/// target of the first navigation action, the first badge image name of
/// the page header (`Some(None)` when the header is there but carries no
/// badge), the microformat fields, and the owner URL list.
#[derive(Clone, Debug, PartialEq)]
pub struct BrowseData {
    pub redirect_browse_id: Option<String>,
    pub header_badge: Option<Option<String>>,
    pub microformat: Option<MicroformatData>,
    pub owner_urls: Option<Vec<String>>,
}

/// The verification status a badge image name means.
pub open spec fn verification_of_badge(badge: Option<Seq<char>>) -> VerificationStatus {
    match badge {
        Some(b) => if b == "AUDIO_BADGE"@ {
            VerificationStatus::OAC
        } else if b == "CHECK_CIRCLE_FILLED"@ {
            VerificationStatus::Verified
        } else {
            VerificationStatus::Unverified
        },
        None => VerificationStatus::Unverified,
    }
}

/// The prefix an owner URL must carry to name a handle.
pub open spec fn owner_handle_prefix() -> Seq<char> {
    "http://www.youtube.com/@"@
}

/// The handle of the first owner URL that names one.
pub open spec fn first_handle(urls: Seq<Seq<char>>) -> Option<Seq<char>>
    decreases urls.len(),
{
    if urls.len() == 0 {
        None
    } else if is_prefix(owner_handle_prefix(), urls[0]) {
        Some(urls[0].subrange(owner_handle_prefix().len() as int, urls[0].len() as int))
    } else {
        first_handle(urls.drop_first())
    }
}

/// Whether the response carries a redirect away from `user_id`.
pub open spec fn redirects_away(data: BrowseData, user_id: Seq<char>) -> bool {
    match data.redirect_browse_id.deep_view() {
        Some(rid) => rid != user_id,
        None => false,
    }
}

/// How the enriched channel `r` relates to the original `c` and the
/// browse data: on a redirect away only the redirect field changes; else
/// each enrichment field is filled where its structure is present and
/// kept where it is absent, and the handle is overwritten when an owner
/// URL names one.
pub open spec fn enriched_from(r: ChannelView, c: ChannelView, data: BrowseData) -> bool {
    &&& r.base_fields_equal(c)
    &&& if redirects_away(data, c.user_id) {
        &&& r.conditional_redirect == data.redirect_browse_id.deep_view()
        &&& r.handle == c.handle
        &&& r.no_index == c.no_index
        &&& r.verification == c.verification
        &&& r.blocked_countries == c.blocked_countries
    } else {
        &&& r.conditional_redirect == c.conditional_redirect
        &&& r.verification == match data.header_badge.deep_view() {
            Some(badge) => Some(verification_of_badge(badge)),
            None => c.verification,
        }
        &&& r.no_index == match data.microformat {
            Some(m) => m.noindex,
            None => c.no_index,
        }
        &&& r.blocked_countries == match data.microformat {
            Some(m) => match m.available_countries.deep_view() {
                Some(avail) => if blocked_codes(avail).len() == 0 {
                    None::<Seq<Seq<char>>>
                } else {
                    Some(blocked_codes(avail))
                },
                None => c.blocked_countries,
            },
            None => c.blocked_countries,
        }
        &&& r.handle == match data.owner_urls.deep_view() {
            Some(urls) => match first_handle(urls) {
                Some(h) => Some(h),
                None => c.handle,
            },
            None => c.handle,
        }
    }
}

/// Reads the handle off the owner URL list, if any URL names one.
fn handle_from_owner_urls(urls: &Vec<String>) -> (r: Option<String>)
    ensures
        r.deep_view() == first_handle(urls.deep_view()),
{
    let mut i: usize = 0;
    proof {
        assert(urls.deep_view().subrange(0, urls.deep_view().len() as int) =~= urls.deep_view());
    }
    while i < urls.len()
        invariant
            i <= urls.len(),
            first_handle(urls.deep_view()) == first_handle(
                urls.deep_view().subrange(i as int, urls.deep_view().len() as int),
            ),
            forall|k: int| 0 <= k < i ==> !is_prefix(owner_handle_prefix(), urls.deep_view()[k]),
        decreases urls.len() - i,
    {
        let ghost rest = urls.deep_view().subrange(i as int, urls.deep_view().len() as int);
        match strip_prefix_str(urls[i].as_str(), "http://www.youtube.com/@") {
            Some(h) => {
                proof {
                    assert(rest[0] == urls.deep_view()[i as int]);
                }
                return Some(h.to_owned());
            },
            None => {},
        }
        proof {
            assert(rest[0] == urls.deep_view()[i as int]);
            assert(rest.drop_first() =~= urls.deep_view().subrange(
                i + 1,
                urls.deep_view().len() as int,
            ));
        }
        i += 1;
    }
    proof {
        assert(urls.deep_view().subrange(i as int, urls.deep_view().len() as int).len() == 0);
    }
    None
}

/// Merges one browse response into the channel record.
pub fn apply_enrichment(channel: Channel, data: BrowseData) -> (r: Channel)
    ensures
        enriched_from(r@, channel@, data),
{
    let mut channel = channel;
    match &data.redirect_browse_id {
        Some(rid) => {
            if !str_eq(rid.as_str(), channel.user_id.as_str()) {
                channel.conditional_redirect = Some(rid.clone());
                return channel;
            }
        },
        None => {},
    }
    match &data.header_badge {
        Some(badge) => {
            let status = match badge {
                Some(name) => {
                    if str_eq(name.as_str(), "AUDIO_BADGE") {
                        VerificationStatus::OAC
                    } else if str_eq(name.as_str(), "CHECK_CIRCLE_FILLED") {
                        VerificationStatus::Verified
                    } else {
                        VerificationStatus::Unverified
                    }
                },
                None => VerificationStatus::Unverified,
            };
            channel.verification = Some(status);
        },
        None => {},
    }
    match &data.microformat {
        Some(m) => {
            channel.no_index = m.noindex;
            match &m.available_countries {
                Some(avail) => {
                    channel.blocked_countries = compute_blocked_countries(avail);
                },
                None => {},
            }
        },
        None => {},
    }
    match &data.owner_urls {
        Some(urls) => {
            match handle_from_owner_urls(urls) {
                Some(h) => {
                    channel.handle = Some(h);
                },
                None => {},
            }
        },
        None => {},
    }
    channel
}

/// The redirect short-circuit: when the response points away from the
/// channel's own id, the enriched record differs from the original in the
/// redirect field alone — a record whose enrichment fields were unset
/// keeps them unset, and only the redirect is filled.
pub proof fn lemma_redirect_short_circuit(r: ChannelView, c: ChannelView, data: BrowseData)
    requires
        enriched_from(r, c, data),
        c.enrichment_unset(),
        redirects_away(data, c.user_id),
    ensures
        r.conditional_redirect == data.redirect_browse_id.deep_view(),
        r.conditional_redirect is Some,
        r.no_index is None,
        r.verification is None,
        r.blocked_countries is None,
        r.handle == c.handle,
        r.base_fields_equal(c),
{
}

/// On a full response without a redirect — header, microformat with both
/// fields, and the availability list all present — a record whose
/// enrichment fields were unset comes out with them decided together:
/// verification and indexability are set, the redirect stays unset, and
/// the blocked-country list is set exactly when the difference is not
/// empty (an empty difference stays unset, meaning "no restriction").
pub proof fn lemma_full_enrichment_fills_together(
    r: ChannelView,
    c: ChannelView,
    data: BrowseData,
)
    requires
        enriched_from(r, c, data),
        c.enrichment_unset(),
        !redirects_away(data, c.user_id),
        data.header_badge is Some,
        data.microformat matches Some(m) && m.noindex is Some
            && m.available_countries is Some,
    ensures
        r.conditional_redirect is None,
        r.verification is Some,
        r.no_index is Some,
        data.microformat matches Some(m) && m.available_countries matches Some(avail)
            && (r.blocked_countries is Some <==> blocked_codes(avail.deep_view()).len() > 0),
{
}

} // verus!
