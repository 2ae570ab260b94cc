use kid_videos::batch::Provider;
use kid_videos::model::{AIAnalysisRequest, BatchAnalysisRequest, Video};
use kid_videos::prompt::DEFAULT_SINGLE_PROMPT_ANTHROPIC;
use kid_videos::requests::{
    analysis_error, batch_analysis_error, batch_analysis_response, plan_batch_analysis,
    plan_single_analysis, BatchDecision,
};

fn bare(id: &str) -> Video {
    Video {
        id: id.to_string(),
        title: String::new(),
        description: None,
        thumbnail_url: None,
        duration: None,
        channel_title: None,
        published_at: None,
        view_count: None,
        like_count: None,
        ai_score: None,
        education_score: None,
        safety_score: None,
        age_appropriate: None,
        tags: None,
        cached_at: None,
        subtitles: None,
    }
}

fn batch(videos: Vec<Video>, provider: &str, key: &str) -> BatchAnalysisRequest {
    BatchAnalysisRequest {
        videos,
        provider: provider.to_string(),
        api_key: key.to_string(),
        filter_prompt: None,
        min_duration: None,
        max_duration: None,
    }
}

fn single(provider: &str, key: &str) -> AIAnalysisRequest {
    AIAnalysisRequest {
        video_id: "id".to_string(),
        title: "数字歌".to_string(),
        description: None,
        channel_title: None,
        duration: None,
        provider: provider.to_string(),
        api_key: key.to_string(),
        filter_prompt: None,
        subtitles: None,
        view_count: None,
        like_count: None,
        published_at: None,
    }
}

#[test]
fn batch_without_a_key_is_refused() {
    match plan_batch_analysis(&batch(vec![bare("a")], "openai", "")) {
        BatchDecision::Reject(message) => {
            assert_eq!(message, "API key is required for batch video analysis")
        },
        other => panic!("unexpected decision {:?}", other),
    }
    match plan_batch_analysis(&batch(Vec::new(), "openai", "")) {
        BatchDecision::Reject(_) => {},
        other => panic!("unexpected decision {:?}", other),
    }
}

#[test]
fn batch_without_videos_is_answered_at_once() {
    match plan_batch_analysis(&batch(Vec::new(), "anthropic", "k")) {
        BatchDecision::Empty(response) => {
            assert!(response.analyzed_videos.is_empty());
            assert_eq!(response.total_analyzed, 0);
            assert_eq!(response.analysis_time_ms, 0);
        },
        other => panic!("unexpected decision {:?}", other),
    }
}

#[test]
fn batch_is_run_by_the_service_it_names() {
    assert!(matches!(
        plan_batch_analysis(&batch(vec![bare("a")], "anthropic", "k")),
        BatchDecision::Run(Provider::Anthropic)
    ));
    assert!(matches!(
        plan_batch_analysis(&batch(vec![bare("a")], "openai", "k")),
        BatchDecision::Run(Provider::OpenAI)
    ));
    assert!(matches!(
        plan_batch_analysis(&batch(vec![bare("a")], "else", "k")),
        BatchDecision::Run(Provider::OpenAI)
    ));
}

#[test]
fn batch_answer_counts_its_videos() {
    let response = batch_analysis_response(vec![bare("a"), bare("b")], 1234);
    assert_eq!(response.analyzed_videos.len(), 2);
    assert_eq!(response.total_analyzed, 2);
    assert_eq!(response.analysis_time_ms, 1234);
}

#[test]
fn errors_are_reported_with_their_cause() {
    assert_eq!(batch_analysis_error("timeout"), "Batch AI analysis failed: timeout");
    assert_eq!(analysis_error("timeout"), "AI analysis failed: timeout");
}

#[test]
fn single_request_without_a_key_is_refused() {
    assert_eq!(
        plan_single_analysis(&single("openai", ""), "m").unwrap_err(),
        "API key is required for video analysis"
    );
}

#[test]
fn single_request_is_put_to_the_service_it_names() {
    let call = plan_single_analysis(&single("anthropic", "k"), "m").unwrap();
    assert_eq!(call.endpoint, "https://api.anthropic.com/v1/messages");
    assert_eq!(call.model, "m");
    assert_eq!(call.max_tokens, 500);
    assert_eq!(call.headers[0], ("x-api-key".to_string(), "k".to_string()));
    assert_eq!(
        call.content,
        format!("视频标题：数字歌\n视频描述：\n\n{}", DEFAULT_SINGLE_PROMPT_ANTHROPIC)
    );
    let mut request = single("openai", "k");
    request.description = Some("讲数字".to_string());
    request.filter_prompt = Some("严格一点".to_string());
    let call = plan_single_analysis(&request, "m").unwrap();
    assert_eq!(call.endpoint, "https://api.openai.com/v1/chat/completions");
    assert_eq!(call.content, "视频标题：数字歌\n视频描述：讲数字\n\n严格一点");
}
