//! One search from beginning to end: what is done after each step, given
//! how the step went.

use crate::analysis::{analysed_at, apply_analyses};
use crate::batch::{provider_of, spec_provider, Provider};
use crate::clock::{now_rfc3339, now_timestamp};
use crate::filter::{filter_videos_by_mode, spec_filter_mode, spec_filter_videos};
use crate::model::{
    clone_videos, count_i32, spec_count_i32, AIAnalysisResponse, SearchRequest, SearchResponse,
    Video,
};
use crate::settings::AppSettings;
use crate::text::{decimal, decimal_string};
use vstd::prelude::*;

verus! {

/// How many results a search asks for where the request names no number.
pub const DEFAULT_RESULTS: i32 = 10;

/// The most results that a request can ask for.
pub const MAX_RESULTS: i32 = 20;

/// How often the search is attempted before the run gives up on it.
pub const SEARCH_ATTEMPTS: u32 = 3;

/// What one run works with: the settings and the request, read once at
/// its start and not again.
#[derive(Debug)]
pub struct PipelineConfig {
    pub query: String,
    pub platform: String,
    pub filter_mode: String,
    pub max_results: i32,
    pub skip_ai_analysis: bool,
    pub youtube_api_key: String,
    pub provider: Provider,
    /// The key for `provider`; empty where none is configured.
    pub ai_api_key: String,
    pub custom_prompt: Option<String>,
    /// Shortest accepted video, in minutes.
    pub min_duration: i32,
    /// Longest accepted video, in minutes.
    pub max_duration: i32,
}

/// How many results a request asks for: the number it names or
/// [`DEFAULT_RESULTS`], but never more than [`MAX_RESULTS`].
pub open spec fn spec_max_results(requested: Option<i32>) -> i32 {
    let wanted = match requested {
        Some(n) => n,
        None => DEFAULT_RESULTS,
    };
    if wanted < MAX_RESULTS {
        wanted
    } else {
        MAX_RESULTS
    }
}

/// The key of the search provider, if one is configured: a key that is
/// not empty.
pub open spec fn search_key(settings: AppSettings) -> Option<String> {
    match settings.youtube_api_key {
        Some(key) => if key@.len() > 0 {
            Some(key)
        } else {
            None
        },
        None => None,
    }
}

/// The key that the settings hold for a classification service.
pub open spec fn classifier_key(settings: AppSettings, provider: Provider) -> Option<String> {
    match provider {
        Provider::OpenAI => settings.openai_api_key,
        Provider::Anthropic => settings.anthropic_api_key,
    }
}

/// Whether `config` is what the settings and the request say.
pub open spec fn is_config_of(
    config: PipelineConfig,
    settings: AppSettings,
    request: SearchRequest,
) -> bool {
    &&& config.query == request.query
    &&& config.platform == request.platform
    &&& config.filter_mode == request.filter_mode
    &&& config.max_results == spec_max_results(request.max_results)
    &&& config.skip_ai_analysis == (request.skip_ai_analysis == Some(true))
    &&& Some(config.youtube_api_key) == search_key(settings)
    &&& config.provider == spec_provider(settings.ai_provider@)
    &&& match classifier_key(settings, config.provider) {
        Some(key) => config.ai_api_key == key,
        None => config.ai_api_key@.len() == 0,
    }
    &&& config.custom_prompt == settings.custom_filter_prompt
    &&& config.min_duration == settings.min_duration
    &&& config.max_duration == settings.max_duration
}

/// Reads what a run needs from the settings and the request. There is no
/// configuration without a key for the search provider: the run then
/// answers with [`create_fallback_response`] and calls nobody.
pub fn configure(settings: &AppSettings, request: &SearchRequest) -> (r: Option<PipelineConfig>)
    ensures
        search_key(*settings) is None ==> r is None,
        search_key(*settings) is Some ==> (r matches Some(config) && is_config_of(
            config,
            *settings,
            *request,
        )),
{
    let youtube_api_key: String = match &settings.youtube_api_key {
        Some(key) => {
            if key.as_str().is_empty() {
                return None;
            }
            key.clone()
        },
        None => {
            return None;
        },
    };
    let provider = provider_of(settings.ai_provider.as_str());
    let configured: &Option<String> = match provider {
        Provider::OpenAI => &settings.openai_api_key,
        Provider::Anthropic => &settings.anthropic_api_key,
    };
    let ai_api_key: String = match configured {
        Some(key) => key.clone(),
        None => String::new(),
    };
    let wanted: i32 = match request.max_results {
        Some(n) => n,
        None => DEFAULT_RESULTS,
    };
    let skip_ai_analysis: bool = match request.skip_ai_analysis {
        Some(skip) => skip,
        None => false,
    };
    Some(
        PipelineConfig {
            query: request.query.clone(),
            platform: request.platform.clone(),
            filter_mode: request.filter_mode.clone(),
            max_results: if wanted < MAX_RESULTS {
                wanted
            } else {
                MAX_RESULTS
            },
            skip_ai_analysis,
            youtube_api_key,
            provider,
            ai_api_key,
            custom_prompt: settings.custom_filter_prompt.clone(),
            min_duration: settings.min_duration,
            max_duration: settings.max_duration,
        },
    )
}

/// Whether `video` is the notice that stands in for the results of a
/// search for `query` that could not be made: it says so in its title and
/// asks for a key to be configured. Its identifier carries the time
/// `timestamp`, and it is stamped `published_at` and `cached_at`.
pub open spec fn is_fallback_video(
    video: Video,
    query: Seq<char>,
    timestamp: int,
    published_at: Seq<char>,
    cached_at: Seq<char>,
) -> bool {
    &&& video.id@ == "fallback_"@ + decimal(timestamp)
    &&& video.title@ == "配置API密钥以搜索: "@ + query
    &&& video.description matches Some(d) && d@
        == "请在设置页面配置YouTube API密钥以启用真实搜索功能"@
    &&& video.thumbnail_url matches Some(u) && u@
        == "https://via.placeholder.com/320x180/f5f5f5/666666?text=API+KEY+REQUIRED"@
    &&& video.duration == Some(0i32)
    &&& video.channel_title matches Some(c) && c@ == "系统提示"@
    &&& video.published_at matches Some(p) && p@ == published_at
    &&& video.view_count == Some(0i64)
    &&& video.like_count == Some(0i64)
    &&& video.unclassified()
    &&& video.tags is None
    &&& video.cached_at matches Some(c) && c@ == cached_at
    &&& video.subtitles is None
}

/// The notice that stands in for the results of a search that could not
/// be made.
pub fn fallback_video(query: &str, timestamp: i64, published_at: &str, cached_at: &str) -> (r:
    Video)
    ensures
        is_fallback_video(r, query@, timestamp as int, published_at@, cached_at@),
        r.wf(),
{
    let mut id = String::from_str("fallback_");
    id.append(decimal_string(timestamp).as_str());
    let mut title = String::from_str("配置API密钥以搜索: ");
    title.append(query);
    Video {
        id,
        title,
        description: Some(
            String::from_str("请在设置页面配置YouTube API密钥以启用真实搜索功能"),
        ),
        thumbnail_url: Some(
            String::from_str(
                "https://via.placeholder.com/320x180/f5f5f5/666666?text=API+KEY+REQUIRED",
            ),
        ),
        duration: Some(0),
        channel_title: Some(String::from_str("系统提示")),
        published_at: Some(String::from_str(published_at)),
        view_count: Some(0),
        like_count: Some(0),
        ai_score: None,
        education_score: None,
        safety_score: None,
        age_appropriate: None,
        tags: None,
        cached_at: Some(String::from_str(cached_at)),
        subtitles: None,
    }
}

/// Whether `response` answers a search for `query` that could not be made:
/// it holds the notice and nothing else, and no time was spent.
pub open spec fn is_fallback_response(response: SearchResponse, query: Seq<char>) -> bool {
    &&& response.videos@.len() == 1
    &&& exists|timestamp: int|
        #[trigger] is_fallback_video(
            response.videos@[0],
            query,
            timestamp,
            response.videos@[0].published_at->0@,
            response.videos@[0].cached_at->0@,
        )
    &&& response.total_found == 1
    &&& response.search_time_ms == 0
    &&& response.ai_analysis_time_ms == 0
}

/// The answer to a search for `query` that could not be made, for want of
/// a key or because the provider failed: a single notice, clearly marked,
/// stamped with the current time.
pub fn create_fallback_response(query: &str) -> (r: SearchResponse)
    ensures
        is_fallback_response(r, query@),
{
    let timestamp = now_timestamp();
    let published_at = now_rfc3339();
    let cached_at = now_rfc3339();
    let video = fallback_video(query, timestamp, published_at.as_str(), cached_at.as_str());
    let mut videos: Vec<Video> = Vec::new();
    videos.push(video);
    proof {
        assert(is_fallback_video(
            videos@[0],
            query@,
            timestamp as int,
            videos@[0].published_at->0@,
            videos@[0].cached_at->0@,
        ));
    }
    SearchResponse { videos, total_found: 1, search_time_ms: 0, ai_analysis_time_ms: 0 }
}

/// Whether `response` reports `videos`, found in `search_ms` milliseconds
/// and classified in `ai_ms`.
pub open spec fn is_response(
    response: SearchResponse,
    videos: Seq<Video>,
    search_ms: u64,
    ai_ms: u64,
) -> bool {
    &&& response.videos@ == videos
    &&& response.total_found == spec_count_i32(videos.len())
    &&& response.search_time_ms == search_ms
    &&& response.ai_analysis_time_ms == ai_ms
}

/// Where a run stands.
#[derive(Debug)]
pub enum PipelineState {
    /// The search is under way.
    Searching,
    /// The classifier is asked about what the search found, all at once.
    Classifying { found: Vec<Video>, search_time_ms: u64 },
    /// The classifier is asked about each video by itself, after asking
    /// about all at once has failed.
    ClassifyingSingly { found: Vec<Video>, search_time_ms: u64 },
    /// The result is written to the cache.
    Saving { response: SearchResponse },
    /// The run is over.
    Done,
}

/// How a step went.
#[derive(Debug)]
pub enum PipelineEvent {
    /// The search has ended: with the videos it found, or without any
    /// after its last attempt failed.
    SearchDone { videos: Option<Vec<Video>>, elapsed_ms: u64 },
    /// Asking about all videos at once has ended: with the videos let
    /// through, or in failure.
    BatchDone { passed: Option<Vec<Video>>, elapsed_ms: u64 },
    /// Asking about each video by itself has ended: with an opinion for
    /// each video whose request succeeded.
    SinglesDone { analyses: Vec<Option<AIAnalysisResponse>>, elapsed_ms: u64 },
    /// Writing to the cache has ended: well, or with an error.
    Saved { error: Option<String> },
}

/// What is done next.
#[derive(Debug)]
pub enum PipelineAction {
    /// Search, with up to `attempts` attempts.
    Search { attempts: u32 },
    /// Ask the classifier about all of `videos` at once.
    ClassifyBatch { videos: Vec<Video> },
    /// Ask the classifier about each of `videos` by itself.
    ClassifySingly { videos: Vec<Video> },
    /// Write `videos` to the cache.
    Save { videos: Vec<Video> },
    /// Hand the response to the caller.
    Respond(SearchResponse),
    /// Hand the error to the caller.
    Fail(String),
}

/// What is said of an event that does not belong to the state of the run.
pub const OUT_OF_TURN: &'static str = "event does not fit the state of the run";

/// Whether the run goes on to save `videos`, found in `search_ms`
/// milliseconds and classified in `ai_ms`.
pub open spec fn goes_to_saving(
    next: PipelineState,
    action: PipelineAction,
    videos: Seq<Video>,
    search_ms: u64,
    ai_ms: u64,
) -> bool {
    &&& next matches PipelineState::Saving { response } && is_response(
        response,
        videos,
        search_ms,
        ai_ms,
    )
    &&& action matches PipelineAction::Save { videos: saved } && saved@ == videos
}

/// Whether the run ends with the error `message`.
pub open spec fn fails_with(next: PipelineState, action: PipelineAction, message: Seq<char>) -> bool {
    &&& next is Done
    &&& action matches PipelineAction::Fail(text) && text@ == message
}

/// The videos with the opinions written onto them.
pub open spec fn analysed(videos: Seq<Video>, analyses: Seq<Option<AIAnalysisResponse>>) -> Seq<
    Video,
> {
    Seq::new(videos.len(), |i: int| analysed_at(videos, analyses, i))
}

/// Whether a run configured by `config` that stands at `state` goes on to
/// `next` with `action` when `event` arrives.
///
/// A search that failed is answered with the notice of
/// [`create_fallback_response`]. What a search found is saved as it is
/// where the request skips classification. It is classified where there
/// is a key for the classifier and anything to classify, first all at once
/// and, should that fail, video by video. Whatever comes of that is
/// filtered and ranked by the mode of the request and then saved. The
/// response goes to the caller once it is saved, and the error if saving
/// failed.
pub open spec fn step_relation(
    config: PipelineConfig,
    state: PipelineState,
    event: PipelineEvent,
    next: PipelineState,
    action: PipelineAction,
) -> bool {
    let mode = spec_filter_mode(config.filter_mode@);
    match (state, event) {
        (PipelineState::Searching, PipelineEvent::SearchDone { videos: None, .. }) => {
            &&& next is Done
            &&& action matches PipelineAction::Respond(response) && is_fallback_response(
                response,
                config.query@,
            )
        },
        (
            PipelineState::Searching,
            PipelineEvent::SearchDone { videos: Some(found), elapsed_ms },
        ) => {
            if config.skip_ai_analysis {
                goes_to_saving(next, action, found@, elapsed_ms, 0)
            } else if config.ai_api_key@.len() > 0 && found@.len() > 0 {
                &&& next matches PipelineState::Classifying { found: kept, search_time_ms }
                    && kept@ == found@ && search_time_ms == elapsed_ms
                &&& action matches PipelineAction::ClassifyBatch { videos } && videos@ == found@
            } else {
                goes_to_saving(next, action, spec_filter_videos(found@, mode), elapsed_ms, 0)
            }
        },
        (
            PipelineState::Classifying { found, search_time_ms },
            PipelineEvent::BatchDone { passed: Some(passed), elapsed_ms },
        ) => goes_to_saving(
            next,
            action,
            spec_filter_videos(passed@, mode),
            search_time_ms,
            elapsed_ms,
        ),
        (
            PipelineState::Classifying { found, search_time_ms },
            PipelineEvent::BatchDone { passed: None, .. },
        ) => {
            &&& next matches PipelineState::ClassifyingSingly { found: kept, search_time_ms: t }
                && kept@ == found@ && t == search_time_ms
            &&& action matches PipelineAction::ClassifySingly { videos } && videos@ == found@
        },
        (
            PipelineState::ClassifyingSingly { found, search_time_ms },
            PipelineEvent::SinglesDone { analyses, elapsed_ms },
        ) => goes_to_saving(
            next,
            action,
            spec_filter_videos(analysed(found@, analyses@), mode),
            search_time_ms,
            elapsed_ms,
        ),
        (PipelineState::Saving { response }, PipelineEvent::Saved { error: None }) => {
            &&& next is Done
            &&& action matches PipelineAction::Respond(r) && r == response
        },
        (PipelineState::Saving { response }, PipelineEvent::Saved { error: Some(message) }) => {
            fails_with(next, action, message@)
        },
        _ => fails_with(next, action, OUT_OF_TURN@),
    }
}

/// Begins a run: the search is to be made, with up to [`SEARCH_ATTEMPTS`]
/// attempts.
pub fn start() -> (r: (PipelineState, PipelineAction))
    ensures
        r.0 is Searching,
        r.1 == (PipelineAction::Search { attempts: SEARCH_ATTEMPTS }),
{
    (PipelineState::Searching, PipelineAction::Search { attempts: SEARCH_ATTEMPTS })
}

fn save(videos: Vec<Video>, search_ms: u64, ai_ms: u64) -> (r: (PipelineState, PipelineAction))
    ensures
        goes_to_saving(r.0, r.1, videos@, search_ms, ai_ms),
{
    let saved = clone_videos(&videos);
    let total_found = count_i32(videos.len());
    (
        PipelineState::Saving {
            response: SearchResponse {
                videos,
                total_found,
                search_time_ms: search_ms,
                ai_analysis_time_ms: ai_ms,
            },
        },
        PipelineAction::Save { videos: saved },
    )
}

fn fail(message: String) -> (r: (PipelineState, PipelineAction))
    ensures
        fails_with(r.0, r.1, message@),
{
    (PipelineState::Done, PipelineAction::Fail(message))
}

/// Takes a run one step further: from where it stands and how the last
/// step went to where it stands next and what is done next.
pub fn step(config: &PipelineConfig, state: PipelineState, event: PipelineEvent) -> (r: (
    PipelineState,
    PipelineAction,
))
    ensures
        step_relation(*config, state, event, r.0, r.1),
{
    match state {
        PipelineState::Searching => match event {
            PipelineEvent::SearchDone { videos: None, .. } => (
                PipelineState::Done,
                PipelineAction::Respond(create_fallback_response(config.query.as_str())),
            ),
            PipelineEvent::SearchDone { videos: Some(found), elapsed_ms } => {
                if config.skip_ai_analysis {
                    save(found, elapsed_ms, 0)
                } else if !config.ai_api_key.as_str().is_empty() && found.len() > 0 {
                    let videos = clone_videos(&found);
                    (
                        PipelineState::Classifying { found, search_time_ms: elapsed_ms },
                        PipelineAction::ClassifyBatch { videos },
                    )
                } else {
                    save(filter_videos_by_mode(found, config.filter_mode.as_str()), elapsed_ms, 0)
                }
            },
            _ => fail(String::from_str(OUT_OF_TURN)),
        },
        PipelineState::Classifying { found, search_time_ms } => match event {
            PipelineEvent::BatchDone { passed: Some(passed), elapsed_ms } => save(
                filter_videos_by_mode(passed, config.filter_mode.as_str()),
                search_time_ms,
                elapsed_ms,
            ),
            PipelineEvent::BatchDone { passed: None, .. } => {
                let videos = clone_videos(&found);
                (
                    PipelineState::ClassifyingSingly { found, search_time_ms },
                    PipelineAction::ClassifySingly { videos },
                )
            },
            _ => fail(String::from_str(OUT_OF_TURN)),
        },
        PipelineState::ClassifyingSingly { found, search_time_ms } => match event {
            PipelineEvent::SinglesDone { analyses, elapsed_ms } => {
                let ghost source = found@;
                let written = apply_analyses(found, &analyses);
                proof {
                    assert(written@ =~= analysed(source, analyses@));
                }
                save(
                    filter_videos_by_mode(written, config.filter_mode.as_str()),
                    search_time_ms,
                    elapsed_ms,
                )
            },
            _ => fail(String::from_str(OUT_OF_TURN)),
        },
        PipelineState::Saving { response } => match event {
            PipelineEvent::Saved { error: None } => (
                PipelineState::Done,
                PipelineAction::Respond(response),
            ),
            PipelineEvent::Saved { error: Some(message) } => fail(message),
            _ => fail(String::from_str(OUT_OF_TURN)),
        },
        PipelineState::Done => fail(String::from_str(OUT_OF_TURN)),
    }
}

} // verus!
