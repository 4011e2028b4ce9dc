//! Decoding of one playlist page: entries missing a required field or
//! carrying an unparseable timestamp are silently dropped; an absent
//! description defaults to the empty string.

use vstd::prelude::*;
use vstd::string::StrSliceExecFns;
use vstd::string::StringExecFns;
use crate::models::{Video, VideoView};
use crate::rfc3339::{parse_rfc3339_unix, rfc3339_unix_of};

verus! {

/// The flat fields of one playlist entry as the upstream serves it.
#[derive(Clone, Debug, PartialEq)]
pub struct RawPlaylistItem {
    pub video_id: Option<String>,
    pub title: Option<String>,
    pub description: Option<String>,
    pub published_at: Option<String>,
}

/// What one raw entry decodes to: `None` when the video id, the title or
/// the timestamp is absent, or the timestamp does not parse. The stats
/// fields start unset; a later enrichment pass fills them.
pub open spec fn video_of_raw(raw: RawPlaylistItem) -> Option<VideoView> {
    match raw.video_id.deep_view() {
        Some(id) => match raw.title.deep_view() {
            Some(title) => match raw.published_at.deep_view() {
                Some(p) => match rfc3339_unix_of(p) {
                    Some(ts) => Some(
                        VideoView {
                            video_id: id,
                            title: title,
                            description: match raw.description.deep_view() {
                                Some(d) => d,
                                None => Seq::empty(),
                            },
                            created_at: ts,
                            livestream: false,
                            views: None::<i64>,
                            likes: None::<i64>,
                            comments: None::<i64>,
                        },
                    ),
                    None => None,
                },
                None => None,
            },
            None => None,
        },
        None => None,
    }
}

/// The page decoded entry by entry, drops included.
pub open spec fn videos_of_raws(items: Seq<RawPlaylistItem>) -> Seq<VideoView>
    decreases items.len(),
{
    if items.len() == 0 {
        Seq::empty()
    } else {
        let rest = videos_of_raws(items.drop_last());
        match video_of_raw(items.last()) {
            Some(v) => rest.push(v),
            None => rest,
        }
    }
}

/// Decodes one raw entry.
fn video_of(it: &RawPlaylistItem) -> (r: Option<Video>)
    ensures
        r.deep_view() == video_of_raw(*it),
{
    let id = match &it.video_id {
        Some(s) => s,
        None => {
            return None;
        },
    };
    let title = match &it.title {
        Some(s) => s,
        None => {
            return None;
        },
    };
    let published = match &it.published_at {
        Some(s) => s,
        None => {
            return None;
        },
    };
    let ts = match parse_rfc3339_unix(published.as_str()) {
        Some(t) => t,
        None => {
            return None;
        },
    };
    let description = match &it.description {
        Some(d) => d.clone(),
        None => String::new(),
    };
    Some(
        Video {
            video_id: id.clone(),
            title: title.clone(),
            description,
            created_at: ts,
            livestream: false,
            views: None,
            likes: None,
            comments: None,
        },
    )
}

/// Decodes a whole page, dropping incomplete entries.
pub fn videos_from_items(items: &Vec<RawPlaylistItem>) -> (r: Vec<Video>)
    ensures
        r.deep_view() == videos_of_raws(items@),
{
    let mut out: Vec<Video> = Vec::new();
    let mut i: usize = 0;
    proof {
        assert(out.deep_view() =~= videos_of_raws(items@.subrange(0, 0)));
    }
    while i < items.len()
        invariant
            i <= items.len(),
            out.deep_view() == videos_of_raws(items@.subrange(0, i as int)),
        decreases items.len() - i,
    {
        let ghost pre = out.deep_view();
        match video_of(&items[i]) {
            Some(v) => {
                let ghost vv = v.deep_view();
                out.push(v);
                proof {
                    assert(out.deep_view() =~= pre.push(vv));
                }
            },
            None => {},
        }
        proof {
            let next = items@.subrange(0, i + 1);
            assert(next.drop_last() =~= items@.subrange(0, i as int));
            assert(next.last() == items@[i as int]);
            assert(out.deep_view() == videos_of_raws(next));
        }
        i += 1;
    }
    proof {
        assert(items@.subrange(0, items@.len() as int) =~= items@);
    }
    out
}

} // verus!
