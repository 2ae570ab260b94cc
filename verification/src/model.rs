//! The records that travel through the pipeline: videos, requests, responses
//! and the rows of the cache.

use vstd::prelude::*;

verus! {

/// A classification score in hundredths: 85 stands for 0.85. A valid score is
/// at most 100.
pub type Score = u8;

/// The largest valid score, standing for 1.0.
pub const SCORE_MAX: Score = 100;

/// Whether an optional score is unset or within the unit interval.
pub open spec fn score_in_range(s: Option<Score>) -> bool {
    s matches Some(v) ==> v <= SCORE_MAX
}

/// One video as the search provider describes it, with the classifier's
/// verdict once there is one.
#[derive(Debug)]
pub struct Video {
    pub id: String,
    pub title: String,
    pub description: Option<String>,
    pub thumbnail_url: Option<String>,
    /// Length in whole seconds.
    pub duration: Option<i32>,
    pub channel_title: Option<String>,
    pub published_at: Option<String>,
    pub view_count: Option<i64>,
    pub like_count: Option<i64>,
    pub ai_score: Option<Score>,
    pub education_score: Option<Score>,
    pub safety_score: Option<Score>,
    pub age_appropriate: Option<bool>,
    pub tags: Option<String>,
    pub cached_at: Option<String>,
    /// A summary of which caption tracks exist, not the captions themselves.
    pub subtitles: Option<String>,
}

impl Video {
    /// Whether none of the four classification fields is set.
    pub open spec fn unclassified(&self) -> bool {
        &&& self.ai_score is None
        &&& self.education_score is None
        &&& self.safety_score is None
        &&& self.age_appropriate is None
    }

    /// Whether all four classification fields are set.
    pub open spec fn classified(&self) -> bool {
        &&& self.ai_score is Some
        &&& self.education_score is Some
        &&& self.safety_score is Some
        &&& self.age_appropriate is Some
    }

    /// The video without the classifier's verdict.
    pub open spec fn without_verdict(&self) -> Video {
        Video {
            ai_score: None,
            education_score: None,
            safety_score: None,
            age_appropriate: None,
            ..*self
        }
    }

    /// The record's invariant: no negative length or count, scores within
    /// the unit interval, and the four classification fields set together or
    /// not at all.
    pub open spec fn wf(&self) -> bool {
        &&& self.duration matches Some(d) ==> d >= 0
        &&& self.view_count matches Some(n) ==> n >= 0
        &&& self.like_count matches Some(n) ==> n >= 0
        &&& score_in_range(self.ai_score)
        &&& score_in_range(self.education_score)
        &&& score_in_range(self.safety_score)
        &&& (self.unclassified() || self.classified())
    }
}

impl Clone for Video {
    fn clone(&self) -> (r: Self)
        ensures
            r == *self,
    {
        Video {
            id: self.id.clone(),
            title: self.title.clone(),
            description: self.description.clone(),
            thumbnail_url: self.thumbnail_url.clone(),
            duration: self.duration,
            channel_title: self.channel_title.clone(),
            published_at: self.published_at.clone(),
            view_count: self.view_count,
            like_count: self.like_count,
            ai_score: self.ai_score,
            education_score: self.education_score,
            safety_score: self.safety_score,
            age_appropriate: self.age_appropriate,
            tags: self.tags.clone(),
            cached_at: self.cached_at.clone(),
            subtitles: self.subtitles.clone(),
        }
    }
}

/// Whether every record of `videos` meets [`Video::wf`].
pub open spec fn all_wf(videos: Seq<Video>) -> bool {
    forall|i: int| 0 <= i < videos.len() ==> (#[trigger] videos[i]).wf()
}

/// A copy of `videos`.
pub fn clone_videos(videos: &Vec<Video>) -> (r: Vec<Video>)
    ensures
        r@ == videos@,
{
    let mut r: Vec<Video> = Vec::new();
    let mut i: usize = 0;
    while i < videos.len()
        invariant
            i <= videos.len(),
            r@ == videos@.take(i as int),
        decreases videos.len() - i,
    {
        r.push(videos[i].clone());
        proof {
            assert(videos@.take(i + 1) =~= videos@.take(i as int).push(videos@[i as int]));
        }
        i = i + 1;
    }
    proof {
        assert(videos@.take(videos.len() as int) =~= videos@);
    }
    r
}

/// A number of videos as an `i32`: the number itself, or `i32::MAX` where
/// it is larger than that.
pub open spec fn spec_count_i32(n: nat) -> i32 {
    if n <= i32::MAX {
        n as i32
    } else {
        i32::MAX
    }
}

/// A number of videos as an `i32`.
pub fn count_i32(n: usize) -> (r: i32)
    ensures
        r == spec_count_i32(n as nat),
{
    if n > 2147483647 {
        i32::MAX
    } else {
        n as i32
    }
}

/// What the user asks for in one search.
#[derive(Debug, Clone)]
pub struct SearchRequest {
    pub query: String,
    pub platform: String,
    /// `"strict"`, `"balanced"` or `"educational"`.
    pub filter_mode: String,
    pub max_results: Option<i32>,
    /// Return what the search found without asking the classifier.
    pub skip_ai_analysis: Option<bool>,
}

/// What one search hands back.
#[derive(Debug)]
pub struct SearchResponse {
    pub videos: Vec<Video>,
    pub total_found: i32,
    /// Time spent searching, in milliseconds.
    pub search_time_ms: u64,
    /// Time spent classifying and ranking, in milliseconds.
    pub ai_analysis_time_ms: u64,
}

/// A request to classify one video by itself.
#[derive(Debug, Clone)]
pub struct AIAnalysisRequest {
    pub video_id: String,
    pub title: String,
    pub description: Option<String>,
    pub channel_title: Option<String>,
    pub duration: Option<i32>,
    pub provider: String,
    pub api_key: String,
    pub filter_prompt: Option<String>,
    pub subtitles: Option<String>,
    pub view_count: Option<i64>,
    pub like_count: Option<i64>,
    pub published_at: Option<String>,
}

/// The classifier's opinion of one video.
#[derive(Debug, Clone)]
pub struct AIAnalysisResponse {
    pub education_score: Score,
    pub safety_score: Score,
    pub age_appropriate: bool,
    pub overall_score: Score,
    pub reasoning: String,
    pub recommended_age: String,
}

impl AIAnalysisResponse {
    /// Whether the three scores lie within the unit interval.
    pub open spec fn wf(&self) -> bool {
        &&& self.education_score <= SCORE_MAX
        &&& self.safety_score <= SCORE_MAX
        &&& self.overall_score <= SCORE_MAX
    }
}

/// A request to classify several videos at once.
#[derive(Debug)]
pub struct BatchAnalysisRequest {
    pub videos: Vec<Video>,
    pub provider: String,
    pub api_key: String,
    pub filter_prompt: Option<String>,
    /// Shortest accepted video, in minutes.
    pub min_duration: Option<i32>,
    /// Longest accepted video, in minutes.
    pub max_duration: Option<i32>,
}

/// The videos that a batch classification let through.
#[derive(Debug)]
pub struct BatchAnalysisResponse {
    pub analyzed_videos: Vec<Video>,
    pub total_analyzed: i32,
    /// Time spent, in milliseconds.
    pub analysis_time_ms: u64,
}

/// One verdict of a batch response: what the classifier says of the video
/// at position `index`, counted from one.
#[derive(Debug, Clone)]
pub struct BatchVideoAnalysis {
    pub index: usize,
    pub score: Score,
    pub suitable: bool,
    pub reason: String,
    pub educational_value: Score,
    pub safety_score: Score,
}

/// A verdict as a mathematical value: [`BatchVideoAnalysis`] with its reason
/// as a sequence of characters.
pub struct VerdictView {
    pub index: nat,
    pub score: Score,
    pub suitable: bool,
    pub reason: Seq<char>,
    pub educational_value: Score,
    pub safety_score: Score,
}

impl VerdictView {
    /// Whether the three scores lie within the unit interval.
    pub open spec fn wf(&self) -> bool {
        &&& self.score <= SCORE_MAX
        &&& self.educational_value <= SCORE_MAX
        &&& self.safety_score <= SCORE_MAX
    }
}

impl View for BatchVideoAnalysis {
    type V = VerdictView;

    open spec fn view(&self) -> VerdictView {
        VerdictView {
            index: self.index as nat,
            score: self.score,
            suitable: self.suitable,
            reason: self.reason@,
            educational_value: self.educational_value,
            safety_score: self.safety_score,
        }
    }
}

/// The verdicts of `verdicts` as mathematical values.
pub open spec fn verdict_views(verdicts: Seq<BatchVideoAnalysis>) -> Seq<VerdictView> {
    Seq::new(verdicts.len(), |i: int| verdicts[i]@)
}

/// A favourite as the store returns it.
#[derive(Debug)]
pub struct FavoriteVideo {
    pub id: i32,
    pub video_id: String,
    pub user_notes: Option<String>,
    pub created_at: String,
    /// The video as it was when it became a favourite, if it can still be read.
    pub video: Option<Video>,
}

/// One row of the video cache. A later row with the same `id` replaces it.
#[derive(Debug, Clone)]
pub struct CachedVideo {
    pub id: String,
    pub query: String,
    pub platform: String,
    /// The serialized [`Video`].
    pub video_data: String,
    pub cached_at: String,
    pub expires_at: String,
}

/// One row of the search history, which is only ever appended to.
#[derive(Debug, Clone)]
pub struct SearchHistoryEntry {
    pub id: i64,
    pub query: String,
    pub platform: String,
    pub filter_mode: String,
    pub results_count: i32,
    pub created_at: String,
}

} // verus!
