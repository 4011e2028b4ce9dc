use tubegate::api_error::ApiError;
use tubegate::api_types::{ChannelLookupRequest, LookupType};
use tubegate::browse::{BrowseData, MicroformatData};
use tubegate::channels;
use tubegate::channels::{build_channel, RawChannel};
use tubegate::errors::YouTubeError;
use tubegate::models::Channel;
use tubegate::resolve_url::ResolveUrlResult;
use tubegate::resolver::{resolver_step, start_lookup, ResolverEvent, ResolverState, Step, UpstreamAction};

fn blank_channel(id: &str) -> Channel {
    build_channel(RawChannel {
        id: id.to_string(),
        title: None,
        description: None,
        custom_url: None,
        published_at: None,
        thumbnail_url: None,
        country: None,
        view_count: None,
        subscriber_count: None,
        video_count: None,
        made_for_kids: None,
        keywords: None,
        trailer: None,
        analytics_account_id: None,
        banner_url: None,
    })
}

fn empty_browse() -> BrowseData {
    BrowseData { redirect_browse_id: None, header_badge: None, microformat: None, owner_urls: None }
}

fn request(kind: LookupType, id: &str) -> ChannelLookupRequest {
    ChannelLookupRequest { kind, id: id.to_string() }
}

fn continue_of(step: Step) -> (ResolverState, UpstreamAction) {
    match step {
        Step::Continue(s, a) => (s, a),
        Step::Finished(r) => panic!("expected another turn, lookup finished with {:?}", r),
    }
}

fn finish_of(step: Step) -> Result<(Channel, Option<String>), ApiError> {
    match step {
        Step::Finished(Ok(resp)) => Ok((resp.channel, resp.redirect_url)),
        Step::Finished(Err(e)) => Err(e),
        Step::Continue(s, _) => panic!("expected the lookup to finish, got state {:?}", s),
    }
}

#[test]
fn channel_id_not_found_probe_terminated() {
    // A ChannelId lookup that 404s, whose secondary probe classifies the
    // account as suspended, ends with the terminated-specific reason.
    let (state, action) = continue_of(start_lookup(request(LookupType::ChannelId, "UCgone")));
    assert_eq!(
        action,
        UpstreamAction::FetchChannel {
            lookup: channels::LookupType::ChannelID("UCgone".to_string())
        }
    );
    let (state, action) =
        continue_of(resolver_step(state, ResolverEvent::ChannelFetched(Err(YouTubeError::NotFound))));
    assert_eq!(action, UpstreamAction::ProbeSubscriptions { channel_id: "UCgone".to_string() });
    let outcome = finish_of(resolver_step(
        state,
        ResolverEvent::ProbeFinished(Err(YouTubeError::AccountTerminated)),
    ));
    assert_eq!(outcome, Err(ApiError::NotFound("This channel has been terminated".to_string())));
}

#[test]
fn channel_id_probe_other_outcomes() {
    let (state, _) = continue_of(start_lookup(request(LookupType::ChannelId, "UCgone")));
    let (state, _) =
        continue_of(resolver_step(state, ResolverEvent::ChannelFetched(Err(YouTubeError::NotFound))));
    let outcome = finish_of(resolver_step(
        state,
        ResolverEvent::ProbeFinished(Err(YouTubeError::AccountClosed)),
    ));
    assert_eq!(outcome, Err(ApiError::NotFound("This channel has been deleted".to_string())));

    let (state, _) = continue_of(start_lookup(request(LookupType::ChannelId, "UCgone")));
    let (state, _) =
        continue_of(resolver_step(state, ResolverEvent::ChannelFetched(Err(YouTubeError::NotFound))));
    let outcome = finish_of(resolver_step(state, ResolverEvent::ProbeFinished(Ok(()))));
    assert_eq!(outcome, Err(ApiError::NotFound("Channel not found".to_string())));
}

#[test]
fn vanity_collision_short_circuits_before_fetch() {
    // The "+name" alias lands on the same browse id: the lookup ends at
    // the collision check, and no channel fetch is ever requested.
    let (state, action) = continue_of(start_lookup(request(LookupType::Vanity, "abc")));
    assert_eq!(action, UpstreamAction::ResolveUrl { url: "youtube.com/ABC".to_string() });
    let (state, action) = continue_of(resolver_step(
        state,
        ResolverEvent::UrlResolved(Ok(Some(ResolveUrlResult::BrowseEndpoint {
            browse_id: "UCmain".to_string(),
        }))),
    ));
    assert_eq!(action, UpstreamAction::ResolveUrl { url: "youtube.com/+abc".to_string() });
    let outcome = finish_of(resolver_step(
        state,
        ResolverEvent::UrlResolved(Ok(Some(ResolveUrlResult::BrowseEndpoint {
            browse_id: "UCmain".to_string(),
        }))),
    ));
    assert_eq!(outcome, Err(ApiError::NotFound("Not a vanity URL".to_string())));
}

#[test]
fn vanity_user_collision_short_circuits() {
    let (state, _) = continue_of(start_lookup(request(LookupType::Vanity, "abc")));
    let (state, _) = continue_of(resolver_step(
        state,
        ResolverEvent::UrlResolved(Ok(Some(ResolveUrlResult::BrowseEndpoint {
            browse_id: "UCmain".to_string(),
        }))),
    ));
    // The "+name" probe misses entirely; the "/user/" probe collides.
    let (state, action) = continue_of(resolver_step(
        state,
        ResolverEvent::UrlResolved(Err(YouTubeError::NotFound)),
    ));
    assert_eq!(action, UpstreamAction::ResolveUrl { url: "youtube.com/user/abc".to_string() });
    let outcome = finish_of(resolver_step(
        state,
        ResolverEvent::UrlResolved(Ok(Some(ResolveUrlResult::BrowseEndpoint {
            browse_id: "UCmain".to_string(),
        }))),
    ));
    assert_eq!(outcome, Err(ApiError::NotFound("Not a vanity URL".to_string())));
}

#[test]
fn vanity_accepted_when_probes_differ() {
    let (state, _) = continue_of(start_lookup(request(LookupType::Vanity, "abc")));
    let (state, _) = continue_of(resolver_step(
        state,
        ResolverEvent::UrlResolved(Ok(Some(ResolveUrlResult::BrowseEndpoint {
            browse_id: "UCmain".to_string(),
        }))),
    ));
    let (state, _) = continue_of(resolver_step(
        state,
        ResolverEvent::UrlResolved(Ok(Some(ResolveUrlResult::BrowseEndpoint {
            browse_id: "UCdifferent".to_string(),
        }))),
    ));
    let (state, action) = continue_of(resolver_step(state, ResolverEvent::UrlResolved(Ok(None))));
    assert_eq!(
        action,
        UpstreamAction::FetchChannel {
            lookup: channels::LookupType::ChannelID("UCmain".to_string())
        }
    );
    let (state, _) = continue_of(resolver_step(
        state,
        ResolverEvent::ChannelFetched(Ok(blank_channel("UCmain"))),
    ));
    let outcome = finish_of(resolver_step(
        state,
        ResolverEvent::BrowseFetched(Err(YouTubeError::UnknownStatusCode(500))),
    ));
    let (channel, redirect) = outcome.expect("vanity claim accepted");
    assert_eq!(channel.user_id, "UCmain");
    assert_eq!(redirect, None);
}

#[test]
fn vanity_invalid_when_bare_url_misses() {
    let (state, _) = continue_of(start_lookup(request(LookupType::Vanity, "abc")));
    let outcome = finish_of(resolver_step(state, ResolverEvent::UrlResolved(Ok(None))));
    assert_eq!(outcome, Err(ApiError::NotFound("Invalid vanity URL".to_string())));
}

#[test]
fn custom_url_not_found() {
    let (state, action) = continue_of(start_lookup(request(LookupType::CustomUrl, "name")));
    assert_eq!(action, UpstreamAction::ResolveUrl { url: "youtube.com/+name".to_string() });
    let outcome = finish_of(resolver_step(state, ResolverEvent::UrlResolved(Ok(None))));
    assert_eq!(outcome, Err(ApiError::NotFound("Custom URL not found".to_string())));

    let (state, _) = continue_of(start_lookup(request(LookupType::CustomUrl, "name")));
    let outcome =
        finish_of(resolver_step(state, ResolverEvent::UrlResolved(Err(YouTubeError::NotFound))));
    assert_eq!(outcome, Err(ApiError::NotFound("Custom URL not found".to_string())));
}

#[test]
fn custom_url_url_endpoint_is_a_miss() {
    // A "+name" form that resolves to a redirect target is not a custom
    // URL: terminal not-found, like the other misses.
    let (state, _) = continue_of(start_lookup(request(LookupType::CustomUrl, "name")));
    let outcome = finish_of(resolver_step(
        state,
        ResolverEvent::UrlResolved(Ok(Some(ResolveUrlResult::UrlEndpoint {
            url: "http://www.youtube.com/channel/UCx".to_string(),
        }))),
    ));
    assert_eq!(outcome, Err(ApiError::NotFound("Custom URL not found".to_string())));
}

#[test]
fn custom_url_full_flow_with_alias_redirect() {
    let (state, _) = continue_of(start_lookup(request(LookupType::CustomUrl, "name")));
    let (state, action) = continue_of(resolver_step(
        state,
        ResolverEvent::UrlResolved(Ok(Some(ResolveUrlResult::BrowseEndpoint {
            browse_id: "UCbrowse".to_string(),
        }))),
    ));
    assert_eq!(
        action,
        UpstreamAction::FetchChannel {
            lookup: channels::LookupType::ChannelID("UCbrowse".to_string())
        }
    );
    let (state, action) = continue_of(resolver_step(
        state,
        ResolverEvent::ChannelFetched(Ok(blank_channel("UCbrowse"))),
    ));
    assert_eq!(action, UpstreamAction::FetchBrowse { browse_id: "UCbrowse".to_string() });
    let (state, action) = continue_of(resolver_step(
        state,
        ResolverEvent::BrowseFetched(Ok(empty_browse())),
    ));
    assert_eq!(action, UpstreamAction::ResolveUrl { url: "youtube.com/NAME".to_string() });
    let outcome = finish_of(resolver_step(
        state,
        ResolverEvent::UrlResolved(Ok(Some(ResolveUrlResult::UrlEndpoint {
            url: "http://www.youtube.com/@canonical".to_string(),
        }))),
    ));
    let (channel, redirect) = outcome.expect("lookup succeeds");
    assert_eq!(channel.user_id, "UCbrowse");
    assert_eq!(redirect, Some("http://www.youtube.com/@canonical".to_string()));
}

#[test]
fn username_not_found_passes_through() {
    let (state, action) = continue_of(start_lookup(request(LookupType::Username, "YouTube")));
    assert_eq!(
        action,
        UpstreamAction::FetchChannel {
            lookup: channels::LookupType::Username("YouTube".to_string())
        }
    );
    let outcome =
        finish_of(resolver_step(state, ResolverEvent::ChannelFetched(Err(YouTubeError::NotFound))));
    assert_eq!(outcome, Err(ApiError::YouTubeError(YouTubeError::NotFound)));
}

#[test]
fn handle_flow_with_drift_redirect() {
    let (state, action) = continue_of(start_lookup(request(LookupType::Handle, "TeamYouTube")));
    assert_eq!(
        action,
        UpstreamAction::FetchChannel {
            lookup: channels::LookupType::Handle("TeamYouTube".to_string())
        }
    );
    let (state, action) = continue_of(resolver_step(
        state,
        ResolverEvent::ChannelFetched(Ok(blank_channel("UCteam"))),
    ));
    assert_eq!(action, UpstreamAction::FetchBrowse { browse_id: "UCteam".to_string() });
    // Enrichment hands back a canonical handle.
    let mut data = empty_browse();
    data.owner_urls = Some(vec!["http://www.youtube.com/@TeamYouTube".to_string()]);
    let (state, action) = continue_of(resolver_step(state, ResolverEvent::BrowseFetched(Ok(data))));
    assert_eq!(action, UpstreamAction::ResolveUrl { url: "youtube.com/@TeamYouTube".to_string() });
    let outcome = finish_of(resolver_step(
        state,
        ResolverEvent::UrlResolved(Ok(Some(ResolveUrlResult::UrlEndpoint {
            url: "http://www.youtube.com/@NewHandle".to_string(),
        }))),
    ));
    let (channel, redirect) = outcome.expect("lookup succeeds");
    assert_eq!(channel.handle, Some("TeamYouTube".to_string()));
    assert_eq!(redirect, Some("http://www.youtube.com/@NewHandle".to_string()));
}

#[test]
fn handle_flow_browse_target_is_no_redirect() {
    let (state, _) = continue_of(start_lookup(request(LookupType::Handle, "TeamYouTube")));
    let (state, _) = continue_of(resolver_step(
        state,
        ResolverEvent::ChannelFetched(Ok(blank_channel("UCteam"))),
    ));
    let mut data = empty_browse();
    data.owner_urls = Some(vec!["http://www.youtube.com/@TeamYouTube".to_string()]);
    let (state, _) = continue_of(resolver_step(state, ResolverEvent::BrowseFetched(Ok(data))));
    let outcome = finish_of(resolver_step(
        state,
        ResolverEvent::UrlResolved(Ok(Some(ResolveUrlResult::BrowseEndpoint {
            browse_id: "UCteam".to_string(),
        }))),
    ));
    let (_, redirect) = outcome.expect("lookup succeeds");
    assert_eq!(redirect, None);
}

#[test]
fn username_without_handle_finishes_without_redirect() {
    let (state, _) = continue_of(start_lookup(request(LookupType::Username, "plainuser")));
    let (state, _) = continue_of(resolver_step(
        state,
        ResolverEvent::ChannelFetched(Ok(blank_channel("UCplain"))),
    ));
    // Enrichment fails; the failure is swallowed and the bare record is
    // served.
    let outcome = finish_of(resolver_step(
        state,
        ResolverEvent::BrowseFetched(Err(YouTubeError::ParseError("truncated".to_string()))),
    ));
    let (channel, redirect) = outcome.expect("enrichment failure is non-fatal");
    assert_eq!(channel.user_id, "UCplain");
    assert_eq!(channel.verification, None);
    assert_eq!(redirect, None);
}

#[test]
fn channel_id_success_enriches_with_blocked_countries() {
    let (state, _) = continue_of(start_lookup(request(LookupType::ChannelId, "UClive")));
    let (state, _) = continue_of(resolver_step(
        state,
        ResolverEvent::ChannelFetched(Ok(blank_channel("UClive"))),
    ));
    let mut data = empty_browse();
    data.microformat = Some(MicroformatData {
        noindex: Some(false),
        available_countries: Some(vec!["US".to_string()]),
    });
    let outcome = finish_of(resolver_step(state, ResolverEvent::BrowseFetched(Ok(data))));
    let (channel, redirect) = outcome.expect("lookup succeeds");
    assert_eq!(channel.no_index, Some(false));
    let blocked = channel.blocked_countries.expect("everything but US is blocked");
    assert_eq!(blocked.len(), 248);
    assert!(!blocked.contains(&"US".to_string()));
    assert!(blocked.contains(&"GB".to_string()));
    assert_eq!(redirect, None);
}

#[test]
fn ratelimit_passes_through_as_429() {
    let (state, _) = continue_of(start_lookup(request(LookupType::Username, "user")));
    let outcome = finish_of(resolver_step(
        state,
        ResolverEvent::ChannelFetched(Err(YouTubeError::Ratelimited)),
    ));
    assert_eq!(outcome, Err(ApiError::YouTubeError(YouTubeError::Ratelimited)));
}
