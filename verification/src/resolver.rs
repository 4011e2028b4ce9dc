//! The identity-resolution state machine.
//!
//! A lookup starts from a claimed identifier kind and the identifier
//! string; each step consumes the outcome of one upstream call and says
//! which call comes next or how the lookup ends. The driver performing
//! the calls holds no logic: every decision — which URL to resolve, when
//! a collision ends a vanity claim, how an enrichment failure is
//! swallowed, when the secondary probe runs — is taken here.

use vstd::prelude::*;
use vstd::string::StringExecFns;
use crate::api_error::ApiError;
use crate::api_types::{ChannelLookupRequest, ChannelLookupResponse, LookupType};
use crate::browse::{apply_enrichment, enriched_from, BrowseData};
use crate::channels;
use crate::errors::YouTubeError;
use crate::models::Channel;
use crate::resolve_url::ResolveUrlResult;
use crate::strutil::{str_eq, to_uppercase_str, upper_of};

verus! {

/// The page size of the secondary status probe: a single entry, since
/// only the call's failure classification is read, never its data.
pub const PROBE_PAGE_SIZE: u32 = 1;

/// The upstream call the driver must perform next.
#[derive(Clone, Debug, PartialEq)]
pub enum UpstreamAction {
    ResolveUrl { url: String },
    FetchChannel { lookup: channels::LookupType },
    FetchBrowse { browse_id: String },
    ProbeSubscriptions { channel_id: String },
}

/// What one upstream call came back with, already decoded and classified.
#[derive(Debug, PartialEq)]
pub enum ResolverEvent {
    UrlResolved(Result<Option<ResolveUrlResult>, YouTubeError>),
    ChannelFetched(Result<Channel, YouTubeError>),
    BrowseFetched(Result<BrowseData, YouTubeError>),
    ProbeFinished(Result<(), YouTubeError>),
}

/// Where a lookup stands between two upstream calls.
#[derive(Clone, Debug, PartialEq)]
pub enum ResolverState {
    CustomUrlResolve { id: String },
    CustomUrlFetch { id: String },
    CustomUrlEnrich { id: String, channel: Channel },
    CustomUrlAlias { channel: Channel },
    VanityResolveMain { id: String },
    VanityCheckPlus { id: String, main_id: String },
    VanityCheckUser { main_id: String },
    VanityFetch,
    VanityEnrich { channel: Channel },
    DirectFetch { kind: LookupType, id: String },
    DirectEnrich { channel: Channel },
    HandleRedirect { channel: Channel },
    Probe,
}

/// One turn of the machine: either the next state with the call to make,
/// or the lookup's final outcome.
#[derive(Debug, PartialEq)]
pub enum Step {
    Continue(ResolverState, UpstreamAction),
    Finished(Result<ChannelLookupResponse, ApiError>),
}

/// Which event shape each state awaits; the driver answers the action it
/// was handed, so this always holds.
pub open spec fn event_fits(state: ResolverState, event: ResolverEvent) -> bool {
    match state {
        ResolverState::CustomUrlResolve { .. } => event is UrlResolved,
        ResolverState::CustomUrlFetch { .. } => event is ChannelFetched,
        ResolverState::CustomUrlEnrich { .. } => event is BrowseFetched,
        ResolverState::CustomUrlAlias { .. } => event is UrlResolved,
        ResolverState::VanityResolveMain { .. } => event is UrlResolved,
        ResolverState::VanityCheckPlus { .. } => event is UrlResolved,
        ResolverState::VanityCheckUser { .. } => event is UrlResolved,
        ResolverState::VanityFetch => event is ChannelFetched,
        ResolverState::VanityEnrich { .. } => event is BrowseFetched,
        ResolverState::DirectFetch { .. } => event is ChannelFetched,
        ResolverState::DirectEnrich { .. } => event is BrowseFetched,
        ResolverState::HandleRedirect { .. } => event is UrlResolved,
        ResolverState::Probe => event is ProbeFinished,
    }
}

/// The legacy "+name" form of an identifier.
pub open spec fn plus_url_of(id: Seq<char>) -> Seq<char> {
    "youtube.com/+"@ + id
}

/// The bare form of an identifier, uppercased.
pub open spec fn bare_upper_url_of(id: Seq<char>) -> Seq<char> {
    "youtube.com/"@ + upper_of(id)
}

/// The legacy "/user/" form of an identifier.
pub open spec fn user_url_of(id: Seq<char>) -> Seq<char> {
    "youtube.com/user/"@ + id
}

/// The canonical "@handle" form of a handle.
pub open spec fn handle_url_of(h: Seq<char>) -> Seq<char> {
    "youtube.com/@"@ + h
}

/// The lookup ends not-found, with the given reason.
pub open spec fn finishes_not_found(r: Step, msg: Seq<char>) -> bool {
    r matches Step::Finished(Err(ApiError::NotFound(m))) && m@ == msg
}

/// The lookup ends with a classified upstream failure, passed through.
pub open spec fn finishes_upstream(r: Step, e: YouTubeError) -> bool {
    r matches Step::Finished(Err(ApiError::YouTubeError(err))) && err == e
}

/// The lookup ends successfully with this channel and redirect.
pub open spec fn finishes_channel(r: Step, channel: Channel, redirect: Option<String>) -> bool {
    r matches Step::Finished(Ok(resp)) && resp.channel == channel && resp.redirect_url == redirect
}

/// How an enrichment event leaves the channel: merged on success, exactly
/// as it was on failure — the failure is swallowed, never propagated.
pub open spec fn enrich_outcome(
    c2: Channel,
    channel: Channel,
    res: Result<BrowseData, YouTubeError>,
) -> bool {
    match res {
        Ok(data) => enriched_from(c2@, channel@, data),
        Err(_) => c2 == channel,
    }
}

/// CustomUrl, first turn: the "+name" resolution decides. Only a browse
/// target continues; any other outcome — no endpoint, a URL target, or an
/// upstream not-found — is a terminal miss, and any other failure passes
/// through.
pub open spec fn custom_url_resolve_spec(
    id: String,
    res: Result<Option<ResolveUrlResult>, YouTubeError>,
    r: Step,
) -> bool {
    match res {
        Ok(Some(ResolveUrlResult::BrowseEndpoint { browse_id })) => {
            &&& r matches Step::Continue(s, a)
            &&& s matches ResolverState::CustomUrlFetch { id: sid } && sid == id
            &&& a matches UpstreamAction::FetchChannel { lookup } && lookup
                == channels::LookupType::ChannelID(browse_id)
        },
        Ok(Some(ResolveUrlResult::UrlEndpoint { .. })) => finishes_not_found(
            r,
            "Custom URL not found"@,
        ),
        Ok(None) => finishes_not_found(r, "Custom URL not found"@),
        Err(YouTubeError::NotFound) => finishes_not_found(r, "Custom URL not found"@),
        Err(e) => finishes_upstream(r, e),
    }
}

/// CustomUrl, second turn: the channel fetched by browse id continues
/// into enrichment; any fetch failure passes through.
pub open spec fn custom_url_fetch_spec(
    id: String,
    res: Result<Channel, YouTubeError>,
    r: Step,
) -> bool {
    match res {
        Ok(channel) => {
            &&& r matches Step::Continue(s, a)
            &&& s matches ResolverState::CustomUrlEnrich { id: sid, channel: c } && sid == id && c
                == channel
            &&& a matches UpstreamAction::FetchBrowse { browse_id } && browse_id == channel.user_id
        },
        Err(e) => finishes_upstream(r, e),
    }
}

/// CustomUrl, third turn: enrichment is merged best-effort, then the
/// uppercased bare form is resolved to look for a canonical alias.
pub open spec fn custom_url_enrich_spec(
    id: String,
    channel: Channel,
    res: Result<BrowseData, YouTubeError>,
    r: Step,
) -> bool {
    &&& r matches Step::Continue(s, a)
    &&& s matches ResolverState::CustomUrlAlias { channel: c2 } && enrich_outcome(c2, channel, res)
    &&& a matches UpstreamAction::ResolveUrl { url } && url@ == bare_upper_url_of(id@)
}

/// CustomUrl, last turn: only a URL target becomes the redirect; any
/// other outcome is silently no redirect; a failure passes through.
pub open spec fn custom_url_alias_spec(
    channel: Channel,
    res: Result<Option<ResolveUrlResult>, YouTubeError>,
    r: Step,
) -> bool {
    match res {
        Ok(Some(ResolveUrlResult::UrlEndpoint { url })) => finishes_channel(
            r,
            channel,
            Some(url),
        ),
        Ok(_) => finishes_channel(r, channel, None),
        Err(e) => finishes_upstream(r, e),
    }
}

/// Vanity, first turn: the bare uppercased URL must name a browse target,
/// `main_id`; anything else is a terminal not-found, and a failure passes
/// through. A hit continues into the "+name" collision probe.
pub open spec fn vanity_resolve_main_spec(
    id: String,
    res: Result<Option<ResolveUrlResult>, YouTubeError>,
    r: Step,
) -> bool {
    match res {
        Ok(Some(ResolveUrlResult::BrowseEndpoint { browse_id })) => {
            &&& r matches Step::Continue(s, a)
            &&& s matches ResolverState::VanityCheckPlus { id: sid, main_id } && sid == id
                && main_id == browse_id
            &&& a matches UpstreamAction::ResolveUrl { url } && url@ == plus_url_of(id@)
        },
        Ok(_) => finishes_not_found(r, "Invalid vanity URL"@),
        Err(e) => finishes_upstream(r, e),
    }
}

/// The vanity claim survives a collision probe: continue into the
/// "/user/" probe.
pub open spec fn continues_to_user_check(id: String, main_id: String, r: Step) -> bool {
    &&& r matches Step::Continue(s, a)
    &&& s matches ResolverState::VanityCheckUser { main_id: m } && m == main_id
    &&& a matches UpstreamAction::ResolveUrl { url } && url@ == user_url_of(id@)
}

/// Vanity, second turn: a "+name" alias that lands on `main_id` ends the
/// lookup at once — the claimed vanity URL is really a custom URL. Any
/// other outcome, failures included, lets the claim stand.
pub open spec fn vanity_check_plus_spec(
    id: String,
    main_id: String,
    res: Result<Option<ResolveUrlResult>, YouTubeError>,
    r: Step,
) -> bool {
    match res {
        Ok(Some(ResolveUrlResult::BrowseEndpoint { browse_id })) => if browse_id@ == main_id@ {
            finishes_not_found(r, "Not a vanity URL"@)
        } else {
            continues_to_user_check(id, main_id, r)
        },
        _ => continues_to_user_check(id, main_id, r),
    }
}

/// The vanity claim survived both probes: fetch the channel by
/// `main_id`.
pub open spec fn continues_to_vanity_fetch(main_id: String, r: Step) -> bool {
    &&& r matches Step::Continue(s, a)
    &&& s is VanityFetch
    &&& a matches UpstreamAction::FetchChannel { lookup } && lookup
        == channels::LookupType::ChannelID(main_id)
}

/// Vanity, third turn: like the "+name" probe, for the "/user/" form.
pub open spec fn vanity_check_user_spec(
    main_id: String,
    res: Result<Option<ResolveUrlResult>, YouTubeError>,
    r: Step,
) -> bool {
    match res {
        Ok(Some(ResolveUrlResult::BrowseEndpoint { browse_id })) => if browse_id@ == main_id@ {
            finishes_not_found(r, "Not a vanity URL"@)
        } else {
            continues_to_vanity_fetch(main_id, r)
        },
        _ => continues_to_vanity_fetch(main_id, r),
    }
}

/// Vanity, fourth turn: the fetched channel continues into enrichment;
/// any fetch failure passes through.
pub open spec fn vanity_fetch_spec(res: Result<Channel, YouTubeError>, r: Step) -> bool {
    match res {
        Ok(channel) => {
            &&& r matches Step::Continue(s, a)
            &&& s matches ResolverState::VanityEnrich { channel: c } && c == channel
            &&& a matches UpstreamAction::FetchBrowse { browse_id } && browse_id == channel.user_id
        },
        Err(e) => finishes_upstream(r, e),
    }
}

/// Vanity, last turn: enrichment is merged best-effort and the lookup
/// ends with no redirect.
pub open spec fn vanity_enrich_spec(
    channel: Channel,
    res: Result<BrowseData, YouTubeError>,
    r: Step,
) -> bool {
    &&& r matches Step::Finished(Ok(resp))
    &&& resp.redirect_url is None
    &&& enrich_outcome(resp.channel, channel, res)
}

/// The ChannelId fall-back: continue into the secondary probe for the
/// same identifier.
pub open spec fn continues_to_probe(id: String, r: Step) -> bool {
    &&& r matches Step::Continue(s, a)
    &&& s is Probe
    &&& a matches UpstreamAction::ProbeSubscriptions { channel_id } && channel_id == id
}

/// Username, Handle and ChannelId, first turn: a fetched channel
/// continues into enrichment. A not-found under the ChannelId claim falls
/// back to the secondary probe for a sharper reason; every other failure
/// passes through.
pub open spec fn direct_fetch_spec(
    kind: LookupType,
    id: String,
    res: Result<Channel, YouTubeError>,
    r: Step,
) -> bool {
    match res {
        Ok(channel) => {
            &&& r matches Step::Continue(s, a)
            &&& s matches ResolverState::DirectEnrich { channel: c } && c == channel
            &&& a matches UpstreamAction::FetchBrowse { browse_id } && browse_id == channel.user_id
        },
        Err(e) => if e == YouTubeError::NotFound && kind == LookupType::ChannelId {
            continues_to_probe(id, r)
        } else {
            finishes_upstream(r, e)
        },
    }
}

/// Username, Handle and ChannelId, second turn: enrichment is merged
/// best-effort; if the record then carries a handle, its canonical
/// "@handle" URL is resolved to look for drift, else the lookup ends
/// with no redirect.
pub open spec fn direct_enrich_spec(
    channel: Channel,
    res: Result<BrowseData, YouTubeError>,
    r: Step,
) -> bool {
    match r {
        Step::Continue(s, a) => {
            &&& s matches ResolverState::HandleRedirect { channel: c2 } && enrich_outcome(
                c2,
                channel,
                res,
            )
            &&& s matches ResolverState::HandleRedirect { channel: c2 } && c2.handle matches Some(
                h,
            ) && a matches UpstreamAction::ResolveUrl { url } && url@ == handle_url_of(h@)
        },
        Step::Finished(result) => {
            &&& result matches Ok(resp)
            &&& resp.redirect_url is None
            &&& enrich_outcome(resp.channel, channel, res)
            &&& resp.channel.handle is None
        },
    }
}

/// The last turn of the handle-drift check: only a URL target becomes the
/// redirect; a failure passes through.
pub open spec fn handle_redirect_spec(
    channel: Channel,
    res: Result<Option<ResolveUrlResult>, YouTubeError>,
    r: Step,
) -> bool {
    match res {
        Ok(Some(ResolveUrlResult::UrlEndpoint { url })) => finishes_channel(
            r,
            channel,
            Some(url),
        ),
        Ok(_) => finishes_channel(r, channel, None),
        Err(e) => finishes_upstream(r, e),
    }
}

/// The secondary probe's turn: the probe can only sharpen the not-found
/// reason, never recover the record — every outcome is terminal
/// not-found.
pub open spec fn probe_spec(res: Result<(), YouTubeError>, r: Step) -> bool {
    match res {
        Err(YouTubeError::AccountTerminated) => finishes_not_found(
            r,
            "This channel has been terminated"@,
        ),
        Err(YouTubeError::AccountClosed) => finishes_not_found(r, "This channel has been deleted"@),
        _ => finishes_not_found(r, "Channel not found"@),
    }
}

/// The whole transition relation, one arm per awaiting state.
pub open spec fn step_spec(state: ResolverState, event: ResolverEvent, r: Step) -> bool {
    match (state, event) {
        (ResolverState::CustomUrlResolve { id }, ResolverEvent::UrlResolved(res)) =>
            custom_url_resolve_spec(id, res, r),
        (ResolverState::CustomUrlFetch { id }, ResolverEvent::ChannelFetched(res)) =>
            custom_url_fetch_spec(id, res, r),
        (
            ResolverState::CustomUrlEnrich { id, channel },
            ResolverEvent::BrowseFetched(res),
        ) => custom_url_enrich_spec(id, channel, res, r),
        (ResolverState::CustomUrlAlias { channel }, ResolverEvent::UrlResolved(res)) =>
            custom_url_alias_spec(channel, res, r),
        (ResolverState::VanityResolveMain { id }, ResolverEvent::UrlResolved(res)) =>
            vanity_resolve_main_spec(id, res, r),
        (
            ResolverState::VanityCheckPlus { id, main_id },
            ResolverEvent::UrlResolved(res),
        ) => vanity_check_plus_spec(id, main_id, res, r),
        (ResolverState::VanityCheckUser { main_id }, ResolverEvent::UrlResolved(res)) =>
            vanity_check_user_spec(main_id, res, r),
        (ResolverState::VanityFetch, ResolverEvent::ChannelFetched(res)) => vanity_fetch_spec(
            res,
            r,
        ),
        (ResolverState::VanityEnrich { channel }, ResolverEvent::BrowseFetched(res)) =>
            vanity_enrich_spec(channel, res, r),
        (ResolverState::DirectFetch { kind, id }, ResolverEvent::ChannelFetched(res)) =>
            direct_fetch_spec(kind, id, res, r),
        (ResolverState::DirectEnrich { channel }, ResolverEvent::BrowseFetched(res)) =>
            direct_enrich_spec(channel, res, r),
        (ResolverState::HandleRedirect { channel }, ResolverEvent::UrlResolved(res)) =>
            handle_redirect_spec(channel, res, r),
        (ResolverState::Probe, ResolverEvent::ProbeFinished(res)) => probe_spec(res, r),
        _ => false,
    }
}

/// What starting a lookup yields: the first state and the first call of
/// the claimed kind's procedure.
pub open spec fn start_spec(request: ChannelLookupRequest, r: Step) -> bool {
    match request.kind {
        LookupType::CustomUrl => {
            &&& r matches Step::Continue(s, a)
            &&& s matches ResolverState::CustomUrlResolve { id } && id == request.id
            &&& a matches UpstreamAction::ResolveUrl { url } && url@ == plus_url_of(request.id@)
        },
        LookupType::Vanity => {
            &&& r matches Step::Continue(s, a)
            &&& s matches ResolverState::VanityResolveMain { id } && id == request.id
            &&& a matches UpstreamAction::ResolveUrl { url } && url@ == bare_upper_url_of(
                request.id@,
            )
        },
        LookupType::Username => {
            &&& r matches Step::Continue(s, a)
            &&& s matches ResolverState::DirectFetch { kind, id } && kind == LookupType::Username
                && id == request.id
            &&& a matches UpstreamAction::FetchChannel { lookup } && lookup
                == channels::LookupType::Username(request.id)
        },
        LookupType::Handle => {
            &&& r matches Step::Continue(s, a)
            &&& s matches ResolverState::DirectFetch { kind, id } && kind == LookupType::Handle
                && id == request.id
            &&& a matches UpstreamAction::FetchChannel { lookup } && lookup
                == channels::LookupType::Handle(request.id)
        },
        LookupType::ChannelId => {
            &&& r matches Step::Continue(s, a)
            &&& s matches ResolverState::DirectFetch { kind, id } && kind == LookupType::ChannelId
                && id == request.id
            &&& a matches UpstreamAction::FetchChannel { lookup } && lookup
                == channels::LookupType::ChannelID(request.id)
        },
    }
}

/// Builds the legacy "+name" URL.
fn plus_url(id: &str) -> (r: String)
    ensures
        r@ == plus_url_of(id@),
{
    String::from_str("youtube.com/+").concat(id)
}

/// Builds the bare URL over the uppercased identifier.
fn bare_upper_url(id: &str) -> (r: String)
    ensures
        r@ == bare_upper_url_of(id@),
{
    let upper = to_uppercase_str(id);
    String::from_str("youtube.com/").concat(upper.as_str())
}

/// Builds the legacy "/user/" URL.
fn user_url(id: &str) -> (r: String)
    ensures
        r@ == user_url_of(id@),
{
    String::from_str("youtube.com/user/").concat(id)
}

/// Builds the canonical "@handle" URL.
fn handle_url(h: &str) -> (r: String)
    ensures
        r@ == handle_url_of(h@),
{
    String::from_str("youtube.com/@").concat(h)
}

/// Starts a lookup: the first state and upstream call for the claimed
/// kind.
pub fn start_lookup(request: ChannelLookupRequest) -> (r: Step)
    ensures
        start_spec(request, r),
{
    match request.kind {
        LookupType::CustomUrl => {
            let url = plus_url(request.id.as_str());
            Step::Continue(
                ResolverState::CustomUrlResolve { id: request.id },
                UpstreamAction::ResolveUrl { url },
            )
        },
        LookupType::Vanity => {
            let url = bare_upper_url(request.id.as_str());
            Step::Continue(
                ResolverState::VanityResolveMain { id: request.id },
                UpstreamAction::ResolveUrl { url },
            )
        },
        LookupType::Username => {
            let id = request.id.clone();
            Step::Continue(
                ResolverState::DirectFetch { kind: LookupType::Username, id },
                UpstreamAction::FetchChannel {
                    lookup: channels::LookupType::Username(request.id),
                },
            )
        },
        LookupType::Handle => {
            let id = request.id.clone();
            Step::Continue(
                ResolverState::DirectFetch { kind: LookupType::Handle, id },
                UpstreamAction::FetchChannel { lookup: channels::LookupType::Handle(request.id) },
            )
        },
        LookupType::ChannelId => {
            let id = request.id.clone();
            Step::Continue(
                ResolverState::DirectFetch { kind: LookupType::ChannelId, id },
                UpstreamAction::FetchChannel {
                    lookup: channels::LookupType::ChannelID(request.id),
                },
            )
        },
    }
}

/// Drives the machine one turn: consumes the outcome of the call the
/// previous turn asked for.
pub fn resolver_step(state: ResolverState, event: ResolverEvent) -> (r: Step)
    requires
        event_fits(state, event),
    ensures
        step_spec(state, event, r),
{
    match (state, event) {
        (ResolverState::CustomUrlResolve { id }, ResolverEvent::UrlResolved(res)) => match res {
            Ok(Some(ResolveUrlResult::BrowseEndpoint { browse_id })) => Step::Continue(
                ResolverState::CustomUrlFetch { id },
                UpstreamAction::FetchChannel {
                    lookup: channels::LookupType::ChannelID(browse_id),
                },
            ),
            Ok(Some(ResolveUrlResult::UrlEndpoint { .. })) => Step::Finished(
                Err(ApiError::NotFound(String::from_str("Custom URL not found"))),
            ),
            Ok(None) => Step::Finished(
                Err(ApiError::NotFound(String::from_str("Custom URL not found"))),
            ),
            Err(e) => match e {
                YouTubeError::NotFound => Step::Finished(
                    Err(ApiError::NotFound(String::from_str("Custom URL not found"))),
                ),
                other => Step::Finished(Err(ApiError::YouTubeError(other))),
            },
        },
        (ResolverState::CustomUrlFetch { id }, ResolverEvent::ChannelFetched(res)) => match res {
            Ok(channel) => {
                let browse_id = channel.user_id.clone();
                Step::Continue(
                    ResolverState::CustomUrlEnrich { id, channel },
                    UpstreamAction::FetchBrowse { browse_id },
                )
            },
            Err(e) => Step::Finished(Err(ApiError::YouTubeError(e))),
        },
        (
            ResolverState::CustomUrlEnrich { id, channel },
            ResolverEvent::BrowseFetched(res),
        ) => {
            let merged = match res {
                Ok(data) => apply_enrichment(channel, data),
                Err(_) => channel,
            };
            let url = bare_upper_url(id.as_str());
            Step::Continue(
                ResolverState::CustomUrlAlias { channel: merged },
                UpstreamAction::ResolveUrl { url },
            )
        },
        (ResolverState::CustomUrlAlias { channel }, ResolverEvent::UrlResolved(res)) => match res {
            Ok(Some(ResolveUrlResult::UrlEndpoint { url })) => Step::Finished(
                Ok(ChannelLookupResponse { channel, redirect_url: Some(url) }),
            ),
            Ok(_) => Step::Finished(Ok(ChannelLookupResponse { channel, redirect_url: None })),
            Err(e) => Step::Finished(Err(ApiError::YouTubeError(e))),
        },
        (ResolverState::VanityResolveMain { id }, ResolverEvent::UrlResolved(res)) => match res {
            Ok(Some(ResolveUrlResult::BrowseEndpoint { browse_id })) => {
                let url = plus_url(id.as_str());
                Step::Continue(
                    ResolverState::VanityCheckPlus { id, main_id: browse_id },
                    UpstreamAction::ResolveUrl { url },
                )
            },
            Ok(_) => Step::Finished(
                Err(ApiError::NotFound(String::from_str("Invalid vanity URL"))),
            ),
            Err(e) => Step::Finished(Err(ApiError::YouTubeError(e))),
        },
        (
            ResolverState::VanityCheckPlus { id, main_id },
            ResolverEvent::UrlResolved(res),
        ) => {
            let collided = match &res {
                Ok(Some(ResolveUrlResult::BrowseEndpoint { browse_id })) => str_eq(
                    browse_id.as_str(),
                    main_id.as_str(),
                ),
                _ => false,
            };
            if collided {
                Step::Finished(Err(ApiError::NotFound(String::from_str("Not a vanity URL"))))
            } else {
                let url = user_url(id.as_str());
                Step::Continue(
                    ResolverState::VanityCheckUser { main_id },
                    UpstreamAction::ResolveUrl { url },
                )
            }
        },
        (ResolverState::VanityCheckUser { main_id }, ResolverEvent::UrlResolved(res)) => {
            let collided = match &res {
                Ok(Some(ResolveUrlResult::BrowseEndpoint { browse_id })) => str_eq(
                    browse_id.as_str(),
                    main_id.as_str(),
                ),
                _ => false,
            };
            if collided {
                Step::Finished(Err(ApiError::NotFound(String::from_str("Not a vanity URL"))))
            } else {
                Step::Continue(
                    ResolverState::VanityFetch,
                    UpstreamAction::FetchChannel {
                        lookup: channels::LookupType::ChannelID(main_id),
                    },
                )
            }
        },
        (ResolverState::VanityFetch, ResolverEvent::ChannelFetched(res)) => match res {
            Ok(channel) => {
                let browse_id = channel.user_id.clone();
                Step::Continue(
                    ResolverState::VanityEnrich { channel },
                    UpstreamAction::FetchBrowse { browse_id },
                )
            },
            Err(e) => Step::Finished(Err(ApiError::YouTubeError(e))),
        },
        (ResolverState::VanityEnrich { channel }, ResolverEvent::BrowseFetched(res)) => {
            let merged = match res {
                Ok(data) => apply_enrichment(channel, data),
                Err(_) => channel,
            };
            Step::Finished(Ok(ChannelLookupResponse { channel: merged, redirect_url: None }))
        },
        (ResolverState::DirectFetch { kind, id }, ResolverEvent::ChannelFetched(res)) => match res {
            Ok(channel) => {
                let browse_id = channel.user_id.clone();
                Step::Continue(
                    ResolverState::DirectEnrich { channel },
                    UpstreamAction::FetchBrowse { browse_id },
                )
            },
            Err(e) => {
                let fall_back = match (&e, kind) {
                    (YouTubeError::NotFound, LookupType::ChannelId) => true,
                    _ => false,
                };
                if fall_back {
                    Step::Continue(
                        ResolverState::Probe,
                        UpstreamAction::ProbeSubscriptions { channel_id: id },
                    )
                } else {
                    Step::Finished(Err(ApiError::YouTubeError(e)))
                }
            },
        },
        (ResolverState::DirectEnrich { channel }, ResolverEvent::BrowseFetched(res)) => {
            let merged = match res {
                Ok(data) => apply_enrichment(channel, data),
                Err(_) => channel,
            };
            let drift_url = match &merged.handle {
                Some(h) => Some(handle_url(h.as_str())),
                None => None,
            };
            match drift_url {
                Some(url) => Step::Continue(
                    ResolverState::HandleRedirect { channel: merged },
                    UpstreamAction::ResolveUrl { url },
                ),
                None => Step::Finished(
                    Ok(ChannelLookupResponse { channel: merged, redirect_url: None }),
                ),
            }
        },
        (ResolverState::HandleRedirect { channel }, ResolverEvent::UrlResolved(res)) => match res {
            Ok(Some(ResolveUrlResult::UrlEndpoint { url })) => Step::Finished(
                Ok(ChannelLookupResponse { channel, redirect_url: Some(url) }),
            ),
            Ok(_) => Step::Finished(Ok(ChannelLookupResponse { channel, redirect_url: None })),
            Err(e) => Step::Finished(Err(ApiError::YouTubeError(e))),
        },
        (ResolverState::Probe, ResolverEvent::ProbeFinished(res)) => match res {
            Err(YouTubeError::AccountTerminated) => Step::Finished(
                Err(ApiError::NotFound(String::from_str("This channel has been terminated"))),
            ),
            Err(YouTubeError::AccountClosed) => Step::Finished(
                Err(ApiError::NotFound(String::from_str("This channel has been deleted"))),
            ),
            _ => Step::Finished(Err(ApiError::NotFound(String::from_str("Channel not found")))),
        },
        _ => vstd::pervasive::unreached(),
    }
}

/// An identifier of the CustomUrl kind whose record does not exist — the
/// "+name" resolution yields no browse target, whether no endpoint, a URL
/// target, or an upstream not-found — ends the lookup in a not-found
/// failure served as HTTP 404: never another kind, and never a channel.
pub proof fn lemma_missing_custom_url(
    id: String,
    res: Result<Option<ResolveUrlResult>, YouTubeError>,
    r: Step,
)
    requires
        res matches Ok(None) || res matches Ok(Some(ResolveUrlResult::UrlEndpoint { .. }))
            || res matches Err(YouTubeError::NotFound),
        step_spec(ResolverState::CustomUrlResolve { id }, ResolverEvent::UrlResolved(res), r),
    ensures
        r matches Step::Finished(Err(e)) && crate::api_error::http_status_of(e) == 404,
{
}

/// An identifier of the Vanity kind whose record does not exist — the
/// bare resolution yields no browse target — ends the lookup in a
/// not-found failure served as HTTP 404.
pub proof fn lemma_missing_vanity(
    id: String,
    res: Result<Option<ResolveUrlResult>, YouTubeError>,
    r: Step,
)
    requires
        res matches Ok(None) || res matches Ok(Some(ResolveUrlResult::UrlEndpoint { .. }))
            || res matches Err(YouTubeError::NotFound),
        step_spec(ResolverState::VanityResolveMain { id }, ResolverEvent::UrlResolved(res), r),
    ensures
        r matches Step::Finished(Err(e)) && crate::api_error::http_status_of(e) == 404,
{
}

/// An identifier of the Username or Handle kind whose record does not
/// exist — the direct fetch misses — ends the lookup in a not-found
/// failure served as HTTP 404.
pub proof fn lemma_missing_direct(kind: LookupType, id: String, r: Step)
    requires
        kind == LookupType::Username || kind == LookupType::Handle,
        step_spec(
            ResolverState::DirectFetch { kind, id },
            ResolverEvent::ChannelFetched(Err(YouTubeError::NotFound)),
            r,
        ),
    ensures
        r matches Step::Finished(Err(e)) && crate::api_error::http_status_of(e) == 404,
{
}

/// A channel fetched by browse id during the CustomUrl or Vanity flow
/// that turns out missing ends the lookup in a not-found failure served
/// as HTTP 404.
pub proof fn lemma_missing_fetched_channel(state: ResolverState, r: Step)
    requires
        state matches ResolverState::CustomUrlFetch { .. } || state is VanityFetch,
        step_spec(state, ResolverEvent::ChannelFetched(Err(YouTubeError::NotFound)), r),
    ensures
        r matches Step::Finished(Err(e)) && crate::api_error::http_status_of(e) == 404,
{
}

/// An identifier of the ChannelId kind whose record does not exist falls
/// back to the secondary probe — and to nothing else.
pub proof fn lemma_missing_channel_id_probes(id: String, r: Step)
    requires
        step_spec(
            ResolverState::DirectFetch { kind: LookupType::ChannelId, id },
            ResolverEvent::ChannelFetched(Err(YouTubeError::NotFound)),
            r,
        ),
    ensures
        continues_to_probe(id, r),
{
}

/// The secondary probe only sharpens the reason: whatever its outcome —
/// success, an account-state classification, or any other failure — the
/// lookup ends in a not-found failure served as HTTP 404. The probe can
/// never recover the record.
pub proof fn lemma_probe_only_sharpens(res: Result<(), YouTubeError>, r: Step)
    requires
        step_spec(ResolverState::Probe, ResolverEvent::ProbeFinished(res), r),
    ensures
        r matches Step::Finished(Err(e)) && e matches ApiError::NotFound(_)
            && crate::api_error::http_status_of(e) == 404,
{
}

/// A probe that classifies the account as suspended yields the
/// account-terminated-specific not-found reason, not the generic one.
pub proof fn lemma_probe_terminated(r: Step)
    requires
        step_spec(
            ResolverState::Probe,
            ResolverEvent::ProbeFinished(Err(YouTubeError::AccountTerminated)),
            r,
        ),
    ensures
        finishes_not_found(r, "This channel has been terminated"@),
{
}

/// The vanity collision check short-circuits: when the "+name" alias
/// resolves to the same browse id as the bare URL, the lookup ends at
/// once — the step finishes, so no channel fetch is ever issued,
/// whatever that fetch would have returned.
pub proof fn lemma_vanity_plus_collision(id: String, main_id: String, browse_id: String, r: Step)
    requires
        browse_id@ == main_id@,
        step_spec(
            ResolverState::VanityCheckPlus { id, main_id },
            ResolverEvent::UrlResolved(
                Ok(Some(ResolveUrlResult::BrowseEndpoint { browse_id })),
            ),
            r,
        ),
    ensures
        finishes_not_found(r, "Not a vanity URL"@),
        r is Finished,
{
}

/// The same short-circuit for the "/user/" alias.
pub proof fn lemma_vanity_user_collision(main_id: String, browse_id: String, r: Step)
    requires
        browse_id@ == main_id@,
        step_spec(
            ResolverState::VanityCheckUser { main_id },
            ResolverEvent::UrlResolved(
                Ok(Some(ResolveUrlResult::BrowseEndpoint { browse_id })),
            ),
            r,
        ),
    ensures
        finishes_not_found(r, "Not a vanity URL"@),
        r is Finished,
{
}

} // verus!
