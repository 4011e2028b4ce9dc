//! The stats-enrichment merge for playlist videos: each video takes the
//! live flag and the parsed counts of the stats entry bearing its id —
//! the last such entry when ids repeat — and keeps its fields otherwise.

use vstd::prelude::*;
use vstd::string::StrSliceExecFns;
use crate::models::{Video, VideoView};
use crate::numparse::{parse_i64_spec, parse_i64_str};
use crate::strutil::str_eq;

verus! {

/// One video's stats entry as the upstream serves it: whether live
/// streaming details were present, and the counts as decimal strings.
#[derive(Clone, Debug, PartialEq)]
pub struct RawVideoStats {
    pub id: String,
    pub has_live_details: bool,
    pub view_count: Option<String>,
    pub like_count: Option<String>,
    pub comment_count: Option<String>,
}

/// An optional count: parsed when present and well-formed, otherwise
/// absent.
pub open spec fn opt_count_of(count: Option<Seq<char>>) -> Option<i64> {
    match count {
        Some(c) => parse_i64_spec(c),
        None => None,
    }
}

/// The index of the last stats entry whose id is `id`, or `-1` when none
/// matches.
pub open spec fn last_match(stats: Seq<RawVideoStats>, id: Seq<char>) -> int
    decreases stats.len(),
{
    if stats.len() == 0 {
        -1
    } else if stats.last().id@ == id {
        stats.len() - 1
    } else {
        last_match(stats.drop_last(), id)
    }
}

pub proof fn lemma_last_match_unique(stats: Seq<RawVideoStats>, id: Seq<char>, j: int)
    requires
        0 <= j < stats.len(),
        stats[j].id@ == id,
        forall|k: int| j < k < stats.len() ==> stats[k].id@ != id,
    ensures
        last_match(stats, id) == j,
    decreases stats.len(),
{
    if j == stats.len() - 1 {
    } else {
        assert(stats.last().id@ != id);
        assert(stats.drop_last()[j] == stats[j]);
        assert forall|k: int| j < k < stats.drop_last().len() implies stats.drop_last()[k].id@
            != id by {
            assert(stats.drop_last()[k] == stats[k]);
        }
        lemma_last_match_unique(stats.drop_last(), id, j);
    }
}

pub proof fn lemma_last_match_absent(stats: Seq<RawVideoStats>, id: Seq<char>)
    requires
        forall|k: int| 0 <= k < stats.len() ==> stats[k].id@ != id,
    ensures
        last_match(stats, id) == -1,
    decreases stats.len(),
{
    if stats.len() > 0 {
        assert forall|k: int| 0 <= k < stats.drop_last().len() implies stats.drop_last()[k].id@
            != id by {
            assert(stats.drop_last()[k] == stats[k]);
        }
        lemma_last_match_absent(stats.drop_last(), id);
    }
}

/// A video after the merge: unchanged when no stats entry bears its id,
/// otherwise with the matching entry's live flag and parsed counts.
pub open spec fn merged_video(v: VideoView, stats: Seq<RawVideoStats>) -> VideoView {
    let j = last_match(stats, v.video_id);
    if j < 0 {
        v
    } else {
        VideoView {
            video_id: v.video_id,
            title: v.title,
            description: v.description,
            created_at: v.created_at,
            livestream: stats[j].has_live_details,
            views: opt_count_of(stats[j].view_count.deep_view()),
            likes: opt_count_of(stats[j].like_count.deep_view()),
            comments: opt_count_of(stats[j].comment_count.deep_view()),
        }
    }
}

/// Parses one optional count field.
fn opt_count(count: &Option<String>) -> (r: Option<i64>)
    ensures
        r == opt_count_of(count.deep_view()),
{
    match count {
        Some(c) => parse_i64_str(c.as_str()),
        None => None,
    }
}

/// The index of the last stats entry for `id`, if any.
fn find_last_match(stats: &Vec<RawVideoStats>, id: &str) -> (r: Option<usize>)
    ensures
        match r {
            Some(j) => j < stats@.len() && last_match(stats@, id@) == j as int,
            None => last_match(stats@, id@) == -1,
        },
{
    let mut found: Option<usize> = None;
    let mut k: usize = 0;
    while k < stats.len()
        invariant
            k <= stats.len(),
            match found {
                Some(j) => j < k && stats@[j as int].id@ == id@ && forall|m: int|
                    j < m < k ==> stats@[m].id@ != id@,
                None => forall|m: int| 0 <= m < k ==> stats@[m].id@ != id@,
            },
        decreases stats.len() - k,
    {
        if str_eq(stats[k].id.as_str(), id) {
            found = Some(k);
        }
        k += 1;
    }
    proof {
        match found {
            Some(j) => {
                lemma_last_match_unique(stats@, id@, j as int);
            },
            None => {
                lemma_last_match_absent(stats@, id@);
            },
        }
    }
    found
}

/// Merges one page of stats entries into the video list, in place.
pub fn apply_video_stats(videos: &mut Vec<Video>, stats: &Vec<RawVideoStats>)
    ensures
        final(videos)@.len() == old(videos)@.len(),
        forall|i: int|
            0 <= i < old(videos)@.len() ==> final(videos).deep_view()[i] == merged_video(
                old(videos).deep_view()[i],
                stats@,
            ),
{
    let mut out: Vec<Video> = Vec::new();
    let mut i: usize = 0;
    while i < videos.len()
        invariant
            i <= videos@.len(),
            videos@ == old(videos)@,
            out@.len() == i,
            forall|k: int|
                0 <= k < i ==> out.deep_view()[k] == merged_video(
                    videos.deep_view()[k],
                    stats@,
                ),
        decreases videos.len() - i,
    {
        let v = &videos[i];
        let merged: Video = match find_last_match(stats, v.video_id.as_str()) {
            Some(j) => Video {
                video_id: v.video_id.clone(),
                title: v.title.clone(),
                description: v.description.clone(),
                created_at: v.created_at,
                livestream: stats[j].has_live_details,
                views: opt_count(&stats[j].view_count),
                likes: opt_count(&stats[j].like_count),
                comments: opt_count(&stats[j].comment_count),
            },
            None => Video {
                video_id: v.video_id.clone(),
                title: v.title.clone(),
                description: v.description.clone(),
                created_at: v.created_at,
                livestream: v.livestream,
                views: v.views,
                likes: v.likes,
                comments: v.comments,
            },
        };
        proof {
            assert(merged.deep_view() == merged_video(videos.deep_view()[i as int], stats@));
        }
        let ghost pre = out.deep_view();
        out.push(merged);
        proof {
            assert forall|k: int|
                0 <= k <= i as int implies out.deep_view()[k] == merged_video(
                videos.deep_view()[k],
                stats@,
            ) by {
                assert(out.deep_view()[k] == out@[k].deep_view());
                if k < i as int {
                    assert(out.deep_view()[k] == pre[k]);
                    assert(pre[k] == merged_video(videos.deep_view()[k], stats@));
                }
            }
        }
        i += 1;
    }
    *videos = out;
}

/// The most video ids one stats call may name.
pub const STATS_BATCH_LIMIT: usize = 50;

/// The ids of the videos, in input order.
pub open spec fn video_ids_of(videos: Seq<Video>) -> Seq<Seq<char>> {
    videos.map_values(|v: Video| v.video_id@)
}

/// One batch of video ids for a stats call: the ids from `start` on, in
/// input order, at most `STATS_BATCH_LIMIT` of them.
pub fn stats_batch(videos: &Vec<Video>, start: usize) -> (r: Vec<String>)
    requires
        start <= videos@.len(),
    ensures
        ({
            let ids = video_ids_of(videos@);
            let end = if start + STATS_BATCH_LIMIT <= ids.len() {
                start + STATS_BATCH_LIMIT
            } else {
                ids.len() as int
            };
            r.deep_view() == ids.subrange(start as int, end)
        }),
{
    let end: usize = if videos.len() - start < STATS_BATCH_LIMIT {
        videos.len()
    } else {
        start + STATS_BATCH_LIMIT
    };
    let ghost ids = video_ids_of(videos@);
    let mut out: Vec<String> = Vec::new();
    let mut i: usize = start;
    proof {
        assert(out.deep_view() =~= ids.subrange(start as int, start as int));
    }
    while i < end
        invariant
            start <= i <= end,
            end <= videos@.len(),
            ids == video_ids_of(videos@),
            out.deep_view() == ids.subrange(start as int, i as int),
        decreases end - i,
    {
        let ghost pre = out.deep_view();
        out.push(videos[i].video_id.clone());
        proof {
            assert(ids[i as int] == videos@[i as int].video_id@);
            assert(out.deep_view() =~= pre.push(ids[i as int]));
            assert(out.deep_view() =~= ids.subrange(start as int, i + 1));
        }
        i += 1;
    }
    out
}

} // verus!
