//! The classifier's opinion of a single video: reading its answer and
//! writing it onto the video.

use crate::json::{decode_json, json_document, Json};
use crate::model::{AIAnalysisResponse, Score, Video, SCORE_MAX};
use vstd::prelude::*;

verus! {

/// The educational score assumed where the answer gives none.
pub const DEFAULT_EDUCATION: Score = 70;

/// The safety score assumed where the answer gives none.
pub const DEFAULT_SAFETY: Score = 80;

/// The overall score assumed where the answer gives none.
pub const DEFAULT_OVERALL: Score = 75;

/// The age recommendation assumed where the answer gives none: to leave it
/// to the parents.
pub const DEFAULT_AGE: &'static str = "需要家长判断";

/// The score that an answer gives under `key`, in hundredths: a number
/// from 0 to 1, cut off after two decimal places. Where the answer is no
/// document, has no such member, or it is no such number, the score is
/// `default`.
pub open spec fn unit_score_field(doc: Option<Json>, key: Seq<char>, default: Score) -> Score {
    match doc {
        Some(d) => match d.spec_member(key) {
            Some(value) => match value.spec_scaled(2, SCORE_MAX as nat) {
                Some(hundredths) => hundredths as Score,
                None => default,
            },
            None => default,
        },
        None => default,
    }
}

/// The truth value that an answer gives under `key`, or `default`.
pub open spec fn bool_field(doc: Option<Json>, key: Seq<char>, default: bool) -> bool {
    match doc {
        Some(d) => match d.spec_member(key) {
            Some(value) => match value.spec_bool() {
                Some(b) => b,
                None => default,
            },
            None => default,
        },
        None => default,
    }
}

/// The text that an answer gives under `key`, or `default`.
pub open spec fn text_field(doc: Option<Json>, key: Seq<char>, default: Seq<char>) -> Seq<char> {
    match doc {
        Some(d) => match d.spec_member(key) {
            Some(value) => match value.spec_text() {
                Some(text) => text,
                None => default,
            },
            None => default,
        },
        None => default,
    }
}

/// Whether `analysis` is what the answer `doc` with the text
/// `response_text` says: each field as the answer gives it, or its default.
/// The default reasoning is the whole text of the answer.
pub open spec fn analysis_matches(
    analysis: AIAnalysisResponse,
    doc: Option<Json>,
    response_text: Seq<char>,
) -> bool {
    &&& analysis.education_score == unit_score_field(doc, "education_score"@, DEFAULT_EDUCATION)
    &&& analysis.safety_score == unit_score_field(doc, "safety_score"@, DEFAULT_SAFETY)
    &&& analysis.age_appropriate == bool_field(doc, "age_appropriate"@, true)
    &&& analysis.overall_score == unit_score_field(doc, "overall_score"@, DEFAULT_OVERALL)
    &&& analysis.recommended_age@ == text_field(doc, "recommended_age"@, DEFAULT_AGE@)
    &&& analysis.reasoning@ == text_field(doc, "reasoning"@, response_text)
}

fn read_unit_score(doc: &Option<Json>, key: &str, default: Score) -> (r: Score)
    requires
        default <= SCORE_MAX,
    ensures
        r == unit_score_field(*doc, key@, default),
        r <= SCORE_MAX,
{
    match doc {
        Some(d) => match d.member(key) {
            Some(value) => match value.scaled(2, SCORE_MAX as u32) {
                Some(hundredths) => hundredths as u8,
                None => default,
            },
            None => default,
        },
        None => default,
    }
}

fn read_bool(doc: &Option<Json>, key: &str, default: bool) -> (r: bool)
    ensures
        r == bool_field(*doc, key@, default),
{
    match doc {
        Some(d) => match d.member(key) {
            Some(value) => match value.as_bool() {
                Some(b) => b,
                None => default,
            },
            None => default,
        },
        None => default,
    }
}

fn read_text(doc: &Option<Json>, key: &str, default: &str) -> (r: String)
    ensures
        r@ == text_field(*doc, key@, default@),
{
    match doc {
        Some(d) => match d.member(key) {
            Some(value) => match value.as_text() {
                Some(text) => text.clone(),
                None => String::from_str(default),
            },
            None => String::from_str(default),
        },
        None => String::from_str(default),
    }
}

/// Reads the classifier's opinion of one video from the document of its
/// answer and the answer's text.
pub fn analysis_from_document(doc: &Option<Json>, response_text: &str) -> (r: AIAnalysisResponse)
    ensures
        analysis_matches(r, *doc, response_text@),
        r.wf(),
{
    AIAnalysisResponse {
        education_score: read_unit_score(doc, "education_score", DEFAULT_EDUCATION),
        safety_score: read_unit_score(doc, "safety_score", DEFAULT_SAFETY),
        age_appropriate: read_bool(doc, "age_appropriate", true),
        overall_score: read_unit_score(doc, "overall_score", DEFAULT_OVERALL),
        reasoning: read_text(doc, "reasoning", response_text),
        recommended_age: read_text(doc, "recommended_age", DEFAULT_AGE),
    }
}

/// Reads the classifier's opinion of one video from the text of its answer.
pub fn interpret_analysis(response_text: &str) -> (r: AIAnalysisResponse)
    ensures
        analysis_matches(r, json_document(response_text@), response_text@),
        r.wf(),
{
    let doc = decode_json(response_text);
    analysis_from_document(&doc, response_text)
}

/// A video with the scores of an opinion about it.
pub open spec fn with_analysis(video: Video, analysis: AIAnalysisResponse) -> Video {
    Video {
        ai_score: Some(analysis.overall_score),
        education_score: Some(analysis.education_score),
        safety_score: Some(analysis.safety_score),
        age_appropriate: Some(analysis.age_appropriate),
        ..video
    }
}

/// What becomes of the video at position `i` when the opinions are written
/// onto the videos: it takes the scores of the opinion at its position, and
/// stays as it is where there is none.
pub open spec fn analysed_at(
    videos: Seq<Video>,
    analyses: Seq<Option<AIAnalysisResponse>>,
    i: int,
) -> Video {
    if i < analyses.len() && analyses[i] is Some {
        with_analysis(videos[i], analyses[i]->0)
    } else {
        videos[i]
    }
}

/// Writing an opinion with scores in the unit interval onto a well-formed
/// video leaves it well formed, with all four classification fields set.
pub proof fn lemma_with_analysis_wf(video: Video, analysis: AIAnalysisResponse)
    requires
        video.wf(),
        analysis.wf(),
    ensures
        with_analysis(video, analysis).wf(),
        with_analysis(video, analysis).classified(),
{
}

/// Writes the opinions onto the videos, position by position. A video
/// whose request failed, and so has no opinion, stays as it is.
pub fn apply_analyses(videos: Vec<Video>, analyses: &Vec<Option<AIAnalysisResponse>>) -> (r: Vec<
    Video,
>)
    ensures
        r@.len() == videos@.len(),
        forall|i: int| 0 <= i < r@.len() ==> #[trigger] r@[i] == analysed_at(videos@, analyses@, i),
{
    let ghost source = videos@;
    let mut out: Vec<Video> = Vec::new();
    let mut i: usize = 0;
    for video in it: videos
        invariant
            it.seq() == source,
            i == it.index(),
            out@.len() == i,
            forall|j: int| 0 <= j < i ==> #[trigger] out@[j] == analysed_at(source, analyses@, j),
    {
        let mut next = video;
        if i < analyses.len() {
            match &analyses[i] {
                Some(analysis) => {
                    next.ai_score = Some(analysis.overall_score);
                    next.education_score = Some(analysis.education_score);
                    next.safety_score = Some(analysis.safety_score);
                    next.age_appropriate = Some(analysis.age_appropriate);
                },
                None => {},
            }
        }
        out.push(next);
        i = out.len();
    }
    out
}

} // verus!
