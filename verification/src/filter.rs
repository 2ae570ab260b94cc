//! Choosing and ranking classified videos by the user's filter mode.

use crate::model::{all_wf, Score, Video};
use crate::text::same_text;
use vstd::prelude::*;
use vstd::seq_lib::{lemma_multiset_commutative, to_multiset_build};

verus! {

/// How strictly classified videos are filtered.
#[derive(Debug, Clone, Copy, PartialEq, Eq, Structural)]
pub enum FilterMode {
    /// Keeps what is safe and fit for the child's age; ranks by safety.
    Strict,
    /// Keeps what teaches; ranks by educational value.
    Educational,
    /// Keeps what scores well overall, and what has no score yet; ranks by
    /// the overall score.
    Balanced,
}

/// The safety score, in hundredths, that the strict mode asks for.
pub const STRICT_SAFETY: Score = 90;

/// The educational score, in hundredths, that the educational mode asks for.
pub const EDUCATIONAL_VALUE: Score = 75;

/// The overall score, in hundredths, that the balanced mode asks for, and
/// the score it assumes of a video that has none.
pub const BALANCED_SCORE: Score = 60;

/// The mode that a name stands for. Any name but `strict` and
/// `educational` stands for the balanced mode.
pub open spec fn spec_filter_mode(name: Seq<char>) -> FilterMode {
    if name == "strict"@ {
        FilterMode::Strict
    } else if name == "educational"@ {
        FilterMode::Educational
    } else {
        FilterMode::Balanced
    }
}

/// The mode that a name stands for.
pub fn filter_mode_of(name: &str) -> (r: FilterMode)
    ensures
        r == spec_filter_mode(name@),
{
    if same_text(name, "strict") {
        FilterMode::Strict
    } else if same_text(name, "educational") {
        FilterMode::Educational
    } else {
        FilterMode::Balanced
    }
}

/// A score, or `default` in place of one that is unset.
pub open spec fn score_or(score: Option<Score>, default: Score) -> Score {
    match score {
        Some(s) => s,
        None => default,
    }
}

/// Whether a mode keeps a video.
pub open spec fn keeps(mode: FilterMode, video: Video) -> bool {
    match mode {
        FilterMode::Strict => score_or(video.safety_score, 0) >= STRICT_SAFETY
            && video.age_appropriate == Some(true),
        FilterMode::Educational => score_or(video.education_score, 0) >= EDUCATIONAL_VALUE,
        FilterMode::Balanced => score_or(video.ai_score, BALANCED_SCORE) >= BALANCED_SCORE,
    }
}

/// The score by which a mode ranks a video; zero where it is unset.
pub open spec fn sort_key(mode: FilterMode, video: Video) -> Score {
    match mode {
        FilterMode::Strict => score_or(video.safety_score, 0),
        FilterMode::Educational => score_or(video.education_score, 0),
        FilterMode::Balanced => score_or(video.ai_score, 0),
    }
}

/// The videos that a mode keeps, in their order.
pub open spec fn retained(videos: Seq<Video>, mode: FilterMode) -> Seq<Video>
    decreases videos.len(),
{
    if videos.len() == 0 {
        Seq::empty()
    } else if keeps(mode, videos.last()) {
        retained(videos.drop_last(), mode).push(videos.last())
    } else {
        retained(videos.drop_last(), mode)
    }
}

/// The videos that a mode keeps and ranks by the score `key`, in their
/// order.
pub open spec fn kept_with_key(videos: Seq<Video>, mode: FilterMode, key: int) -> Seq<Video>
    decreases videos.len(),
{
    if videos.len() == 0 {
        Seq::empty()
    } else if keeps(mode, videos.last()) && sort_key(mode, videos.last()) == key {
        kept_with_key(videos.drop_last(), mode, key).push(videos.last())
    } else {
        kept_with_key(videos.drop_last(), mode, key)
    }
}

/// The kept videos whose score is `key` or more: those with the highest
/// score first, those with equal scores in their order.
pub open spec fn ranked_down_to(videos: Seq<Video>, mode: FilterMode, key: int) -> Seq<Video>
    decreases 256 - key,
{
    if key > 255 {
        Seq::empty()
    } else {
        ranked_down_to(videos, mode, key + 1) + kept_with_key(videos, mode, key)
    }
}

/// What a mode makes of a list of videos: the videos it keeps, those with
/// the highest score first, those with equal scores in the order in which
/// they came.
pub open spec fn spec_filter_videos(videos: Seq<Video>, mode: FilterMode) -> Seq<Video> {
    ranked_down_to(videos, mode, 0)
}

proof fn lemma_kept_with_key_members(videos: Seq<Video>, mode: FilterMode, key: int)
    ensures
        forall|i: int|
            0 <= i < kept_with_key(videos, mode, key).len() ==> keeps(
                mode,
                #[trigger] kept_with_key(videos, mode, key)[i],
            ) && sort_key(mode, kept_with_key(videos, mode, key)[i]) == key && videos.contains(
                kept_with_key(videos, mode, key)[i],
            ),
    decreases videos.len(),
{
    if videos.len() > 0 {
        let shorter = videos.drop_last();
        lemma_kept_with_key_members(shorter, mode, key);
        let before = kept_with_key(shorter, mode, key);
        let all = kept_with_key(videos, mode, key);
        assert forall|i: int| 0 <= i < all.len() implies keeps(mode, #[trigger] all[i])
            && sort_key(mode, all[i]) == key && videos.contains(all[i]) by {
            if i < before.len() {
                assert(all[i] == before[i]);
                let j = choose|j: int| 0 <= j < shorter.len() && shorter[j] == before[i];
                assert(videos[j] == before[i]);
            } else {
                assert(videos[videos.len() - 1] == all[i]);
            }
        }
    }
}

proof fn lemma_ranked_members(videos: Seq<Video>, mode: FilterMode, key: int)
    requires
        0 <= key,
    ensures
        forall|i: int|
            0 <= i < ranked_down_to(videos, mode, key).len() ==> keeps(
                mode,
                #[trigger] ranked_down_to(videos, mode, key)[i],
            ) && sort_key(mode, ranked_down_to(videos, mode, key)[i]) >= key && videos.contains(
                ranked_down_to(videos, mode, key)[i],
            ),
    decreases 256 - key,
{
    if key <= 255 {
        lemma_ranked_members(videos, mode, key + 1);
        lemma_kept_with_key_members(videos, mode, key);
        let above = ranked_down_to(videos, mode, key + 1);
        let here = kept_with_key(videos, mode, key);
        let all = ranked_down_to(videos, mode, key);
        assert forall|i: int| 0 <= i < all.len() implies keeps(mode, #[trigger] all[i])
            && sort_key(mode, all[i]) >= key && videos.contains(all[i]) by {
            if i < above.len() {
                assert(all[i] == above[i]);
            } else {
                assert(all[i] == here[i - above.len()]);
            }
        }
    }
}

proof fn lemma_ranked_is_sorted(videos: Seq<Video>, mode: FilterMode, key: int)
    requires
        0 <= key,
    ensures
        forall|i: int, j: int|
            0 <= i < j < ranked_down_to(videos, mode, key).len() ==> sort_key(
                mode,
                #[trigger] ranked_down_to(videos, mode, key)[i],
            ) >= sort_key(mode, #[trigger] ranked_down_to(videos, mode, key)[j]),
    decreases 256 - key,
{
    if key <= 255 {
        lemma_ranked_is_sorted(videos, mode, key + 1);
        lemma_ranked_members(videos, mode, key + 1);
        lemma_kept_with_key_members(videos, mode, key);
        let above = ranked_down_to(videos, mode, key + 1);
        let here = kept_with_key(videos, mode, key);
        let all = ranked_down_to(videos, mode, key);
        assert forall|i: int, j: int| 0 <= i < j < all.len() implies sort_key(
            mode,
            #[trigger] all[i],
        ) >= sort_key(mode, #[trigger] all[j]) by {
            if j < above.len() {
                assert(all[i] == above[i] && all[j] == above[j]);
            } else if i < above.len() {
                assert(all[i] == above[i]);
                assert(all[j] == here[j - above.len()]);
            } else {
                assert(all[i] == here[i - above.len()]);
                assert(all[j] == here[j - above.len()]);
            }
        }
    }
}

/// The output is ranked: no video stands before one with a higher score.
/// Every video in it is one of the input that the mode keeps, unchanged, so
/// the output is well formed where the input is.
pub proof fn lemma_filter_ranks(videos: Seq<Video>, mode: FilterMode)
    ensures
        forall|i: int, j: int|
            0 <= i < j < spec_filter_videos(videos, mode).len() ==> sort_key(
                mode,
                #[trigger] spec_filter_videos(videos, mode)[i],
            ) >= sort_key(mode, #[trigger] spec_filter_videos(videos, mode)[j]),
        forall|i: int|
            0 <= i < spec_filter_videos(videos, mode).len() ==> keeps(
                mode,
                #[trigger] spec_filter_videos(videos, mode)[i],
            ) && videos.contains(spec_filter_videos(videos, mode)[i]),
        all_wf(videos) ==> all_wf(spec_filter_videos(videos, mode)),
{
    lemma_ranked_is_sorted(videos, mode, 0);
    lemma_ranked_members(videos, mode, 0);
    if all_wf(videos) {
        let out = spec_filter_videos(videos, mode);
        assert forall|i: int| 0 <= i < out.len() implies (#[trigger] out[i]).wf() by {
            let j = choose|j: int| 0 <= j < videos.len() && videos[j] == out[i];
            assert(videos[j].wf());
        }
    }
}

proof fn lemma_ranked_of_nothing(mode: FilterMode, key: int)
    ensures
        ranked_down_to(Seq::empty(), mode, key) == Seq::<Video>::empty(),
    decreases 256 - key,
{
    if key <= 255 {
        lemma_ranked_of_nothing(mode, key + 1);
        assert(Seq::<Video>::empty() + Seq::<Video>::empty() =~= Seq::<Video>::empty());
    }
}

proof fn lemma_ranked_with_one_more(videos: Seq<Video>, video: Video, mode: FilterMode, key: int)
    requires
        0 <= key,
    ensures
        ranked_down_to(videos.push(video), mode, key).to_multiset() == if keeps(mode, video)
            && sort_key(mode, video) >= key {
            ranked_down_to(videos, mode, key).to_multiset().insert(video)
        } else {
            ranked_down_to(videos, mode, key).to_multiset()
        },
    decreases 256 - key,
{
    broadcast use vstd::multiset::group_multiset_axioms;

    let more = videos.push(video);
    if key <= 255 {
        lemma_ranked_with_one_more(videos, video, mode, key + 1);
        assert(more.drop_last() =~= videos);
        assert(more.last() == video);
        lemma_multiset_commutative(
            ranked_down_to(more, mode, key + 1),
            kept_with_key(more, mode, key),
        );
        lemma_multiset_commutative(
            ranked_down_to(videos, mode, key + 1),
            kept_with_key(videos, mode, key),
        );
        if keeps(mode, video) && sort_key(mode, video) == key {
            to_multiset_build(kept_with_key(videos, mode, key), video);
        }
        assert(ranked_down_to(more, mode, key).to_multiset() =~= if keeps(mode, video)
            && sort_key(mode, video) >= key {
            ranked_down_to(videos, mode, key).to_multiset().insert(video)
        } else {
            ranked_down_to(videos, mode, key).to_multiset()
        });
    }
}

/// The output holds the videos that the mode keeps and no others, each as
/// often as the input holds it.
pub proof fn lemma_filter_keeps_what_is_retained(videos: Seq<Video>, mode: FilterMode)
    ensures
        spec_filter_videos(videos, mode).to_multiset() == retained(videos, mode).to_multiset(),
        spec_filter_videos(videos, mode).len() == retained(videos, mode).len(),
        retained(videos, mode).len() <= videos.len(),
    decreases videos.len(),
{
    broadcast use vstd::multiset::group_multiset_axioms;

    if videos.len() == 0 {
        lemma_ranked_of_nothing(mode, 0);
        assert(videos =~= Seq::<Video>::empty());
    } else {
        let before = videos.drop_last();
        let video = videos.last();
        lemma_filter_keeps_what_is_retained(before, mode);
        assert(before.push(video) =~= videos);
        lemma_ranked_with_one_more(before, video, mode, 0);
        if keeps(mode, video) {
            to_multiset_build(retained(before, mode), video);
        }
    }
    spec_filter_videos(videos, mode).to_multiset_ensures();
    retained(videos, mode).to_multiset_ensures();
}

proof fn lemma_kept_with_key_of_concat(a: Seq<Video>, b: Seq<Video>, mode: FilterMode, key: int)
    ensures
        kept_with_key(a + b, mode, key) == kept_with_key(a, mode, key) + kept_with_key(
            b,
            mode,
            key,
        ),
    decreases b.len(),
{
    if b.len() == 0 {
        assert(a + b =~= a);
        assert(kept_with_key(a, mode, key) + Seq::<Video>::empty() =~= kept_with_key(
            a,
            mode,
            key,
        ));
    } else {
        lemma_kept_with_key_of_concat(a, b.drop_last(), mode, key);
        assert((a + b).drop_last() =~= a + b.drop_last());
        assert((a + b).last() == b.last());
        if keeps(mode, b.last()) && sort_key(mode, b.last()) == key {
            assert((kept_with_key(a, mode, key) + kept_with_key(b.drop_last(), mode, key)).push(
                b.last(),
            ) =~= kept_with_key(a, mode, key) + kept_with_key(b.drop_last(), mode, key).push(
                b.last(),
            ));
        }
    }
}

proof fn lemma_kept_with_key_twice(videos: Seq<Video>, mode: FilterMode, first: int, second: int)
    ensures
        kept_with_key(kept_with_key(videos, mode, first), mode, second) == if first == second {
            kept_with_key(videos, mode, first)
        } else {
            Seq::<Video>::empty()
        },
    decreases videos.len(),
{
    if videos.len() > 0 {
        lemma_kept_with_key_twice(videos.drop_last(), mode, first, second);
        let video = videos.last();
        if keeps(mode, video) && sort_key(mode, video) == first {
            let inner = kept_with_key(videos.drop_last(), mode, first);
            assert(inner.push(video).drop_last() =~= inner);
        }
    }
}

proof fn lemma_ranked_with_key(videos: Seq<Video>, mode: FilterMode, from: int, key: int)
    requires
        0 <= from,
    ensures
        kept_with_key(ranked_down_to(videos, mode, from), mode, key) == if from <= key <= 255 {
            kept_with_key(videos, mode, key)
        } else {
            Seq::<Video>::empty()
        },
    decreases 256 - from,
{
    if from <= 255 {
        lemma_ranked_with_key(videos, mode, from + 1, key);
        lemma_kept_with_key_of_concat(
            ranked_down_to(videos, mode, from + 1),
            kept_with_key(videos, mode, from),
            mode,
            key,
        );
        lemma_kept_with_key_twice(videos, mode, from, key);
        let above = kept_with_key(ranked_down_to(videos, mode, from + 1), mode, key);
        let here = kept_with_key(kept_with_key(videos, mode, from), mode, key);
        assert(above + Seq::<Video>::empty() =~= above);
        assert(Seq::<Video>::empty() + here =~= here);
    }
}

/// Ranking is stable: the kept videos of one score stand in the output in
/// the order in which they stand in the input.
pub proof fn lemma_filter_is_stable(videos: Seq<Video>, mode: FilterMode, key: int)
    requires
        0 <= key <= 255,
    ensures
        kept_with_key(spec_filter_videos(videos, mode), mode, key) == kept_with_key(
            videos,
            mode,
            key,
        ),
{
    lemma_ranked_with_key(videos, mode, 0, key);
}

fn keeps_video(mode: FilterMode, video: &Video) -> (r: bool)
    ensures
        r == keeps(mode, *video),
{
    match mode {
        FilterMode::Strict => {
            let safe: bool = match video.safety_score {
                Some(s) => s >= STRICT_SAFETY,
                None => false,
            };
            let fit: bool = match video.age_appropriate {
                Some(b) => b,
                None => false,
            };
            safe && fit
        },
        FilterMode::Educational => match video.education_score {
            Some(s) => s >= EDUCATIONAL_VALUE,
            None => false,
        },
        FilterMode::Balanced => match video.ai_score {
            Some(s) => s >= BALANCED_SCORE,
            None => true,
        },
    }
}

fn key_of(mode: FilterMode, video: &Video) -> (r: Score)
    ensures
        r == sort_key(mode, *video),
{
    let score = match mode {
        FilterMode::Strict => video.safety_score,
        FilterMode::Educational => video.education_score,
        FilterMode::Balanced => video.ai_score,
    };
    match score {
        Some(s) => s,
        None => 0,
    }
}

/// Keeps the videos that the mode lets through and ranks them.
pub fn filter_videos(videos: Vec<Video>, mode: FilterMode) -> (r: Vec<Video>)
    ensures
        r@ == spec_filter_videos(videos@, mode),
{
    let ghost source = videos@;
    let mut buckets: Vec<Vec<Video>> = Vec::new();
    let mut k: usize = 0;
    while k < 256
        invariant
            k <= 256,
            buckets.len() == k,
            forall|j: int| 0 <= j < k ==> (#[trigger] buckets[j])@ == Seq::<Video>::empty(),
        decreases 256 - k,
    {
        buckets.push(Vec::new());
        k = k + 1;
    }
    for video in it: videos
        invariant
            it.seq() == source,
            buckets.len() == 256,
            forall|j: int|
                0 <= j < 256 ==> (#[trigger] buckets[j])@ == kept_with_key(
                    source.take(it.index() as int),
                    mode,
                    j,
                ),
    {
        let ghost i = it.index() as int;
        proof {
            assert(source.take(i + 1).drop_last() =~= source.take(i));
            assert(source.take(i + 1).last() == video);
        }
        if keeps_video(mode, &video) {
            let key: usize = key_of(mode, &video) as usize;
            buckets[key].push(video);
        }
    }
    proof {
        assert(source.take(source.len() as int) =~= source);
    }
    let mut out: Vec<Video> = Vec::new();
    let mut left: usize = 256;
    while left > 0
        invariant
            left <= 256,
            buckets.len() == left,
            forall|j: int|
                0 <= j < left ==> (#[trigger] buckets[j])@ == kept_with_key(source, mode, j),
            out@ == ranked_down_to(source, mode, left as int),
        decreases left,
    {
        match buckets.pop() {
            Some(mut bucket) => {
                out.append(&mut bucket);
            },
            None => {},
        }
        left = left - 1;
    }
    out
}

/// Keeps the videos that the mode named `filter_mode` lets through and
/// ranks them.
pub fn filter_videos_by_mode(videos: Vec<Video>, filter_mode: &str) -> (r: Vec<Video>)
    ensures
        r@ == spec_filter_videos(videos@, spec_filter_mode(filter_mode@)),
{
    filter_videos(videos, filter_mode_of(filter_mode))
}

} // verus!
