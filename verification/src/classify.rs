//! What becomes of a classifier's answer about a batch of videos: the
//! verdicts it holds, and the videos that they let through.

use crate::batch::{in_source_order, lemma_in_source_order_trivial, placed};
use crate::json::{decode_json, json_document, Json};
use crate::model::{
    all_wf, clone_videos, verdict_views, BatchVideoAnalysis, Score, VerdictView, Video, SCORE_MAX,
};
use vstd::prelude::*;

verus! {

/// The score, in hundredths, that a video needs to be let through.
pub const PASSING_SCORE: Score = 70;

/// The shortest accepted length, in minutes, where none is configured.
pub const DEFAULT_MIN_MINUTES: i32 = 2;

/// The longest accepted length, in minutes, where none is configured.
pub const DEFAULT_MAX_MINUTES: i32 = 30;

/// A bound in seconds, from one in minutes or the default in its place.
pub open spec fn bound_seconds(minutes: Option<i32>, default_minutes: i32) -> int {
    match minutes {
        Some(m) => m * 60,
        None => default_minutes * 60,
    }
}

/// Whether a length is known and lies between `lo` and `hi` seconds.
pub open spec fn duration_within(duration: Option<i32>, lo: int, hi: int) -> bool {
    duration matches Some(d) && lo <= d <= hi
}

/// Whether a verdict lets its video through: the classifier calls it
/// suitable, its length is within bounds, and its score reaches
/// [`PASSING_SCORE`].
pub open spec fn verdict_passes(video: Video, verdict: VerdictView, lo: int, hi: int) -> bool {
    verdict.suitable && duration_within(video.duration, lo, hi) && verdict.score >= PASSING_SCORE
}

/// A video with the scores of a verdict that let it through.
pub open spec fn classified_by(video: Video, verdict: VerdictView) -> Video {
    Video {
        ai_score: Some(verdict.score),
        education_score: Some(verdict.educational_value),
        safety_score: Some(verdict.safety_score),
        age_appropriate: Some(true),
        ..video
    }
}

/// What one verdict adds to the output: its video with the verdict's
/// scores, or nothing if the verdict points at no video or does not pass.
pub open spec fn verdict_result(videos: Seq<Video>, verdict: VerdictView, lo: int, hi: int) -> Option<
    Video,
> {
    if 1 <= verdict.index <= videos.len() && verdict_passes(
        videos[verdict.index - 1],
        verdict,
        lo,
        hi,
    ) {
        Some(classified_by(videos[verdict.index - 1], verdict))
    } else {
        None
    }
}

/// A verdict lets a video through only if it names one, calls it
/// suitable, the video's length is known and within bounds, and the score
/// reaches [`PASSING_SCORE`]. A lower score lets nothing through, whatever
/// else the verdict says, and neither does a length out of bounds.
pub proof fn lemma_verdict_gate(videos: Seq<Video>, verdict: VerdictView, lo: int, hi: int)
    ensures
        verdict.score < PASSING_SCORE ==> verdict_result(videos, verdict, lo, hi) is None,
        !verdict.suitable ==> verdict_result(videos, verdict, lo, hi) is None,
        verdict_result(videos, verdict, lo, hi) matches Some(video) ==> {
            &&& 1 <= verdict.index <= videos.len()
            &&& duration_within(videos[verdict.index - 1].duration, lo, hi)
            &&& video.ai_score == Some(verdict.score)
            &&& video.without_verdict() == videos[verdict.index - 1].without_verdict()
        },
        1 <= verdict.index <= videos.len() && !duration_within(
            videos[verdict.index - 1].duration,
            lo,
            hi,
        ) ==> verdict_result(videos, verdict, lo, hi) is None,
{
}

/// The videos that a list of verdicts lets through, in the order of the
/// verdicts.
pub open spec fn spec_apply_verdicts(
    videos: Seq<Video>,
    verdicts: Seq<VerdictView>,
    lo: int,
    hi: int,
) -> Seq<Video>
    decreases verdicts.len(),
{
    if verdicts.len() == 0 {
        Seq::empty()
    } else {
        let before = spec_apply_verdicts(videos, verdicts.drop_last(), lo, hi);
        match verdict_result(videos, verdicts.last(), lo, hi) {
            Some(video) => before.push(video),
            None => before,
        }
    }
}

/// Whether every verdict of `verdicts` has its scores within the unit
/// interval.
pub open spec fn all_verdicts_wf(verdicts: Seq<VerdictView>) -> bool {
    forall|i: int| 0 <= i < verdicts.len() ==> (#[trigger] verdicts[i]).wf()
}

/// What the verdicts let through is never longer than the list of
/// verdicts, every video in it carries all four classification fields,
/// and it is well formed where the sources and the verdicts are.
pub proof fn lemma_apply_verdicts_output(
    videos: Seq<Video>,
    verdicts: Seq<VerdictView>,
    lo: int,
    hi: int,
)
    ensures
        spec_apply_verdicts(videos, verdicts, lo, hi).len() <= verdicts.len(),
        forall|i: int|
            0 <= i < spec_apply_verdicts(videos, verdicts, lo, hi).len() ==> (
            #[trigger] spec_apply_verdicts(videos, verdicts, lo, hi)[i]).classified(),
        all_wf(videos) && all_verdicts_wf(verdicts) ==> all_wf(
            spec_apply_verdicts(videos, verdicts, lo, hi),
        ),
    decreases verdicts.len(),
{
    if verdicts.len() > 0 {
        lemma_apply_verdicts_output(videos, verdicts.drop_last(), lo, hi);
        if all_wf(videos) && all_verdicts_wf(verdicts) {
            assert(verdicts.last().wf());
            assert forall|i: int| 0 <= i < verdicts.drop_last().len() implies (
            #[trigger] verdicts.drop_last()[i]).wf() by {
                assert(verdicts.drop_last()[i] == verdicts[i]);
            }
            let v = verdicts.last();
            if 1 <= v.index <= videos.len() {
                assert(videos[v.index - 1].wf());
            }
        }
    }
}

/// The places of the videos that a list of verdicts lets through, in the
/// order of the verdicts and counted from zero.
pub open spec fn passing_positions(
    videos: Seq<Video>,
    verdicts: Seq<VerdictView>,
    lo: int,
    hi: int,
) -> Seq<int>
    decreases verdicts.len(),
{
    if verdicts.len() == 0 {
        Seq::empty()
    } else {
        let before = passing_positions(videos, verdicts.drop_last(), lo, hi);
        if verdict_result(videos, verdicts.last(), lo, hi) is Some {
            before.push(verdicts.last().index - 1)
        } else {
            before
        }
    }
}

/// Whether each number of `s` is above the one before it.
pub open spec fn rising(s: Seq<int>) -> bool {
    forall|i: int, j: int| 0 <= i < j < s.len() ==> s[i] < s[j]
}

proof fn lemma_passing_positions(videos: Seq<Video>, verdicts: Seq<VerdictView>, lo: int, hi: int)
    ensures
        passing_positions(videos, verdicts, lo, hi).len() == spec_apply_verdicts(
            videos,
            verdicts,
            lo,
            hi,
        ).len(),
        forall|i: int|
            0 <= i < passing_positions(videos, verdicts, lo, hi).len() ==> {
                let at = #[trigger] passing_positions(videos, verdicts, lo, hi)[i];
                &&& 0 <= at < videos.len()
                &&& spec_apply_verdicts(videos, verdicts, lo, hi)[i].without_verdict()
                    == videos[at].without_verdict()
            },
    decreases verdicts.len(),
{
    if verdicts.len() > 0 {
        lemma_passing_positions(videos, verdicts.drop_last(), lo, hi);
    }
}

/// Where the verdicts that let a video through name their videos in rising
/// order, what they let through is in the order of the videos, each video
/// at most once.
pub proof fn lemma_rising_verdicts_keep_order(
    videos: Seq<Video>,
    verdicts: Seq<VerdictView>,
    lo: int,
    hi: int,
)
    requires
        rising(passing_positions(videos, verdicts, lo, hi)),
    ensures
        in_source_order(spec_apply_verdicts(videos, verdicts, lo, hi), videos),
{
    lemma_passing_positions(videos, verdicts, lo, hi);
    assert(placed(
        spec_apply_verdicts(videos, verdicts, lo, hi),
        videos,
        passing_positions(videos, verdicts, lo, hi),
    ));
}

/// Applies the verdicts of a batch response to the videos they speak of.
/// A verdict counts its video from one. The output holds, in the order of
/// the verdicts, each video whose verdict lets it through, with the
/// verdict's scores; the length bounds are in minutes.
pub fn apply_verdicts(
    videos: &Vec<Video>,
    verdicts: &Vec<BatchVideoAnalysis>,
    min_duration: Option<i32>,
    max_duration: Option<i32>,
) -> (r: Vec<Video>)
    ensures
        r@ == spec_apply_verdicts(
            videos@,
            verdict_views(verdicts@),
            bound_seconds(min_duration, DEFAULT_MIN_MINUTES),
            bound_seconds(max_duration, DEFAULT_MAX_MINUTES),
        ),
{
    let lo: i64 = match min_duration {
        Some(m) => m as i64 * 60,
        None => DEFAULT_MIN_MINUTES as i64 * 60,
    };
    let hi: i64 = match max_duration {
        Some(m) => m as i64 * 60,
        None => DEFAULT_MAX_MINUTES as i64 * 60,
    };
    let ghost views = verdict_views(verdicts@);
    let mut out: Vec<Video> = Vec::new();
    let mut i: usize = 0;
    while i < verdicts.len()
        invariant
            i <= verdicts.len(),
            views == verdict_views(verdicts@),
            lo == bound_seconds(min_duration, DEFAULT_MIN_MINUTES),
            hi == bound_seconds(max_duration, DEFAULT_MAX_MINUTES),
            out@ == spec_apply_verdicts(videos@, views.take(i as int), lo as int, hi as int),
        decreases verdicts.len() - i,
    {
        let verdict = &verdicts[i];
        proof {
            assert(views.take(i + 1).drop_last() =~= views.take(i as int));
            assert(views.take(i + 1).last() == verdict@);
        }
        if verdict.index >= 1 && verdict.index <= videos.len() {
            let video = &videos[verdict.index - 1];
            let duration_ok: bool = match video.duration {
                Some(d) => lo <= d as i64 && d as i64 <= hi,
                None => false,
            };
            if verdict.suitable && duration_ok && verdict.score >= PASSING_SCORE {
                let mut passed = video.clone();
                passed.ai_score = Some(verdict.score);
                passed.education_score = Some(verdict.educational_value);
                passed.safety_score = Some(verdict.safety_score);
                passed.age_appropriate = Some(true);
                out.push(passed);
            }
        }
        i = i + 1;
    }
    proof {
        assert(views.take(verdicts.len() as int) =~= views);
    }
    out
}

/// The score that a verdict gives under `key`: a number from 0 to 100,
/// rounded down to a whole number. Where the verdict has no such member,
/// or it is no such number, the score is `default`.
pub open spec fn score_field(item: Json, key: Seq<char>, default: Score) -> Score {
    match item.spec_member(key) {
        Some(value) => match value.spec_scaled(0, SCORE_MAX as nat) {
            Some(points) => points as Score,
            None => default,
        },
        None => default,
    }
}

/// Whether a verdict calls its video suitable; it does not where it does
/// not say.
pub open spec fn suitable_field(item: Json) -> bool {
    match item.spec_member("suitable"@) {
        Some(value) => value.spec_bool() == Some(true),
        None => false,
    }
}

/// The reason that a verdict gives, empty where it gives none.
pub open spec fn reason_field(item: Json) -> Seq<char> {
    match item.spec_member("reason"@) {
        Some(value) => match value.spec_text() {
            Some(text) => text,
            None => Seq::empty(),
        },
        None => Seq::empty(),
    }
}

/// The position that a verdict names, if it names one.
pub open spec fn index_field(item: Json) -> Option<nat> {
    match item.spec_member("index"@) {
        Some(value) => match value.spec_unsigned() {
            Some(index) => if index <= usize::MAX {
                Some(index as nat)
            } else {
                None
            },
            None => None,
        },
        None => None,
    }
}

/// The verdict that one item of a response holds. An item without a
/// position is no verdict. A missing score counts as 0, a missing
/// educational value as 70, a missing safety score as 80.
pub open spec fn decoded_verdict(item: Json) -> Option<VerdictView> {
    match index_field(item) {
        Some(index) => Some(
            VerdictView {
                index,
                score: score_field(item, "score"@, 0),
                suitable: suitable_field(item),
                reason: reason_field(item),
                educational_value: score_field(item, "educational_value"@, 70),
                safety_score: score_field(item, "safety_score"@, 80),
            },
        ),
        None => None,
    }
}

/// The verdicts that the items of a response hold, in their order.
pub open spec fn decoded_verdicts(items: Seq<Json>) -> Seq<VerdictView>
    decreases items.len(),
{
    if items.len() == 0 {
        Seq::empty()
    } else {
        let before = decoded_verdicts(items.drop_last());
        match decoded_verdict(items.last()) {
            Some(verdict) => before.push(verdict),
            None => before,
        }
    }
}

/// The verdicts of a response: those of the array under `videos`. A
/// response that is no document, or has no such array, has none.
pub open spec fn verdicts_of(doc: Option<Json>) -> Option<Seq<VerdictView>> {
    match doc {
        Some(d) => match d.spec_member("videos"@) {
            Some(list) => match list.spec_items() {
                Some(items) => Some(decoded_verdicts(items)),
                None => None,
            },
            None => None,
        },
        None => None,
    }
}

/// What a response makes of the videos it was asked about. Where it holds
/// verdicts, the videos that they let through. Where it cannot be read, all
/// the videos, unchanged.
pub open spec fn spec_classify_document(
    videos: Seq<Video>,
    doc: Option<Json>,
    lo: int,
    hi: int,
) -> Seq<Video> {
    match verdicts_of(doc) {
        Some(verdicts) => spec_apply_verdicts(videos, verdicts, lo, hi),
        None => videos,
    }
}

/// What a response makes of the videos is in the order of the videos, each
/// video at most once, where the response cannot be read or its passing
/// verdicts name their videos in rising order.
pub proof fn lemma_classified_document_keeps_order(
    videos: Seq<Video>,
    doc: Option<Json>,
    lo: int,
    hi: int,
)
    requires
        verdicts_of(doc) matches Some(verdicts) ==> rising(
            passing_positions(videos, verdicts, lo, hi),
        ),
    ensures
        in_source_order(spec_classify_document(videos, doc, lo, hi), videos),
{
    match verdicts_of(doc) {
        Some(verdicts) => {
            lemma_rising_verdicts_keep_order(videos, verdicts, lo, hi);
        },
        None => {
            lemma_in_source_order_trivial(videos);
        },
    }
}

/// Every decoded verdict has its scores within the unit interval.
pub proof fn lemma_decoded_verdicts_wf(items: Seq<Json>)
    ensures
        all_verdicts_wf(decoded_verdicts(items)),
    decreases items.len(),
{
    if items.len() > 0 {
        lemma_decoded_verdicts_wf(items.drop_last());
    }
}

fn read_score(item: &Json, key: &str, default: Score) -> (r: Score)
    requires
        default <= SCORE_MAX,
    ensures
        r == score_field(*item, key@, default),
        r <= SCORE_MAX,
{
    match item.member(key) {
        Some(value) => match value.scaled(0, SCORE_MAX as u32) {
            Some(points) => points as u8,
            None => default,
        },
        None => default,
    }
}

/// Reads one item of a response as a verdict.
pub fn decode_verdict(item: &Json) -> (r: Option<BatchVideoAnalysis>)
    ensures
        r matches Some(v) ==> decoded_verdict(*item) == Some(v@),
        r is None ==> decoded_verdict(*item) is None,
{
    let index: usize = match item.member("index") {
        Some(value) => match value.as_unsigned() {
            Some(index) => {
                if index > usize::MAX as u64 {
                    return None;
                }
                index as usize
            },
            None => {
                return None;
            },
        },
        None => {
            return None;
        },
    };
    let suitable: bool = match item.member("suitable") {
        Some(value) => match value.as_bool() {
            Some(b) => b,
            None => false,
        },
        None => false,
    };
    let reason: String = match item.member("reason") {
        Some(value) => match value.as_text() {
            Some(text) => text.clone(),
            None => String::new(),
        },
        None => String::new(),
    };
    Some(
        BatchVideoAnalysis {
            index,
            score: read_score(item, "score", 0),
            suitable,
            reason,
            educational_value: read_score(item, "educational_value", 70),
            safety_score: read_score(item, "safety_score", 80),
        },
    )
}

/// Reads the verdicts of a response document, if it holds any.
pub fn decode_verdicts(doc: &Json) -> (r: Option<Vec<BatchVideoAnalysis>>)
    ensures
        r matches Some(v) ==> verdicts_of(Some(*doc)) == Some(verdict_views(v@)),
        r is None ==> verdicts_of(Some(*doc)) is None,
{
    let items = match doc.member("videos") {
        Some(list) => match list.items() {
            Some(items) => items,
            None => {
                return None;
            },
        },
        None => {
            return None;
        },
    };
    let mut out: Vec<BatchVideoAnalysis> = Vec::new();
    let mut i: usize = 0;
    while i < items.len()
        invariant
            i <= items.len(),
            verdict_views(out@) == decoded_verdicts(items@.take(i as int)),
        decreases items.len() - i,
    {
        proof {
            assert(items@.take(i + 1).drop_last() =~= items@.take(i as int));
            assert(items@.take(i + 1).last() == items@[i as int]);
        }
        let ghost before = out@;
        match decode_verdict(&items[i]) {
            Some(verdict) => {
                out.push(verdict);
                proof {
                    assert(verdict_views(out@) =~= verdict_views(before).push(verdict@));
                }
            },
            None => {},
        }
        i = i + 1;
    }
    proof {
        assert(items@.take(items.len() as int) =~= items@);
    }
    Some(out)
}

/// Turns the document of a batch response into the videos it lets through.
/// A response without readable verdicts lets all of them through unchanged.
pub fn classify_document(
    videos: &Vec<Video>,
    doc: Option<Json>,
    min_duration: Option<i32>,
    max_duration: Option<i32>,
) -> (r: Vec<Video>)
    ensures
        r@ == spec_classify_document(
            videos@,
            doc,
            bound_seconds(min_duration, DEFAULT_MIN_MINUTES),
            bound_seconds(max_duration, DEFAULT_MAX_MINUTES),
        ),
{
    let verdicts = match &doc {
        Some(d) => decode_verdicts(d),
        None => None,
    };
    match verdicts {
        Some(v) => apply_verdicts(videos, &v, min_duration, max_duration),
        None => clone_videos(videos),
    }
}

/// Reads the text of a batch response and applies its verdicts to the
/// videos that the request described. The length bounds are in minutes.
pub fn parse_batch_analysis_response(
    videos: &Vec<Video>,
    response_text: &str,
    min_duration: Option<i32>,
    max_duration: Option<i32>,
) -> (r: Vec<Video>)
    ensures
        r@ == spec_classify_document(
            videos@,
            json_document(response_text@),
            bound_seconds(min_duration, DEFAULT_MIN_MINUTES),
            bound_seconds(max_duration, DEFAULT_MAX_MINUTES),
        ),
{
    classify_document(videos, decode_json(response_text), min_duration, max_duration)
}

} // verus!
