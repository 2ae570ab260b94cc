//! The two requests for classification that a caller can make directly:
//! whether they are answered, and how.

use crate::batch::{provider_of, spec_provider, Provider};
use crate::model::{
    count_i32, spec_count_i32, AIAnalysisRequest, BatchAnalysisRequest, BatchAnalysisResponse,
    Video,
};
use crate::prompt::{
    default_single_prompt, is_addressed, single_request, spec_single_prompt, ClassifierRequest,
    SINGLE_REQUEST_TOKENS,
};
use vstd::prelude::*;

verus! {

/// The error of a request about one video that brings no key.
pub const KEY_REQUIRED: &'static str = "API key is required for video analysis";

/// The error of a request about a batch of videos that brings no key.
pub const BATCH_KEY_REQUIRED: &'static str = "API key is required for batch video analysis";

/// What an error of the classifier is prefixed with when it is reported
/// for a request about one video.
pub const ANALYSIS_FAILED: &'static str = "AI analysis failed: ";

/// What an error of the classifier is prefixed with when it is reported
/// for a request about a batch of videos.
pub const BATCH_ANALYSIS_FAILED: &'static str = "Batch AI analysis failed: ";

/// What is done about a request to classify a batch of videos.
#[derive(Debug)]
pub enum BatchDecision {
    /// The request is refused with this error.
    Reject(String),
    /// The request holds no videos and is answered at once, with nothing.
    Empty(BatchAnalysisResponse),
    /// The videos are classified by this service.
    Run(Provider),
}

/// Whether `response` reports `videos`, classified in `elapsed_ms`
/// milliseconds.
pub open spec fn is_batch_response(
    response: BatchAnalysisResponse,
    videos: Seq<Video>,
    elapsed_ms: u64,
) -> bool {
    &&& response.analyzed_videos@ == videos
    &&& response.total_analyzed == spec_count_i32(videos.len())
    &&& response.analysis_time_ms == elapsed_ms
}

/// Decides what is done about a request to classify a batch of videos. A
/// request without a key is refused. One without videos is answered at
/// once and nobody is called. Any other is classified by the service that
/// the request names.
pub fn plan_batch_analysis(request: &BatchAnalysisRequest) -> (r: BatchDecision)
    ensures
        request.api_key@.len() == 0 ==> (r matches BatchDecision::Reject(message) && message@
            == BATCH_KEY_REQUIRED@),
        request.api_key@.len() > 0 && request.videos@.len() == 0 ==> (r matches BatchDecision::Empty(
            response,
        ) && is_batch_response(response, Seq::empty(), 0)),
        request.api_key@.len() > 0 && request.videos@.len() > 0 ==> r == BatchDecision::Run(
            spec_provider(request.provider@),
        ),
{
    if request.api_key.as_str().is_empty() {
        BatchDecision::Reject(String::from_str(BATCH_KEY_REQUIRED))
    } else if request.videos.len() == 0 {
        BatchDecision::Empty(
            BatchAnalysisResponse {
                analyzed_videos: Vec::new(),
                total_analyzed: 0,
                analysis_time_ms: 0,
            },
        )
    } else {
        BatchDecision::Run(provider_of(request.provider.as_str()))
    }
}

/// The answer to a request to classify a batch: the videos that were let
/// through, their number and the time it took.
pub fn batch_analysis_response(analyzed: Vec<Video>, elapsed_ms: u64) -> (r: BatchAnalysisResponse)
    ensures
        is_batch_response(r, analyzed@, elapsed_ms),
{
    let total_analyzed = count_i32(analyzed.len());
    BatchAnalysisResponse { analyzed_videos: analyzed, total_analyzed, analysis_time_ms: elapsed_ms }
}

/// The error reported when classifying a batch failed because of `cause`.
pub fn batch_analysis_error(cause: &str) -> (r: String)
    ensures
        r@ == BATCH_ANALYSIS_FAILED@ + cause@,
{
    let mut out = String::from_str(BATCH_ANALYSIS_FAILED);
    out.append(cause);
    out
}

/// The text of an optional string, empty where there is none.
pub open spec fn text_or_empty(value: Option<String>) -> Seq<char> {
    match value {
        Some(s) => s@,
        None => Seq::empty(),
    }
}

/// The instructions that a request about one video brings, if any.
pub open spec fn custom_instructions(request: AIAnalysisRequest) -> Option<Seq<char>> {
    match request.filter_prompt {
        Some(s) => Some(s@),
        None => None,
    }
}

/// Decides what is done about a request to classify one video: it is
/// refused without a key, and else put to the model `model` of the service
/// that it names, with its own instructions or the default ones of that
/// service.
pub fn plan_single_analysis(request: &AIAnalysisRequest, model: &str) -> (r: Result<
    ClassifierRequest,
    String,
>)
    ensures
        request.api_key@.len() == 0 ==> (r matches Err(message) && message@ == KEY_REQUIRED@),
        request.api_key@.len() > 0 ==> (r matches Ok(call) && {
            let provider = spec_provider(request.provider@);
            &&& is_addressed(
                call,
                provider,
                model@,
                request.api_key@,
                SINGLE_REQUEST_TOKENS as nat,
            )
            &&& call.content@ == spec_single_prompt(
                request.title@,
                text_or_empty(request.description),
                match custom_instructions(*request) {
                    Some(text) => text,
                    None => default_single_prompt(provider),
                },
            )
        }),
{
    if request.api_key.as_str().is_empty() {
        return Err(String::from_str(KEY_REQUIRED));
    }
    let provider = provider_of(request.provider.as_str());
    let description: &str = match &request.description {
        Some(s) => s.as_str(),
        None => "",
    };
    let custom: Option<&str> = match &request.filter_prompt {
        Some(s) => Some(s.as_str()),
        None => None,
    };
    proof {
        reveal_strlit("");
        assert(""@ =~= Seq::<char>::empty());
    }
    Ok(
        single_request(
            provider,
            model,
            request.api_key.as_str(),
            request.title.as_str(),
            description,
            custom,
        ),
    )
}

/// The error reported when classifying one video failed because of
/// `cause`.
pub fn analysis_error(cause: &str) -> (r: String)
    ensures
        r@ == ANALYSIS_FAILED@ + cause@,
{
    let mut out = String::from_str(ANALYSIS_FAILED);
    out.append(cause);
    out
}

} // verus!
