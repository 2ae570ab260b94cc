use kid_videos::batch::Provider;
use kid_videos::model::{AIAnalysisResponse, SearchRequest, Video};
use kid_videos::pipeline::{
    configure, create_fallback_response, fallback_video, start, step, PipelineAction,
    PipelineConfig, PipelineEvent, PipelineState,
};
use kid_videos::settings::AppSettings;

fn scored(id: &str, ai: Option<u8>) -> Video {
    Video {
        id: id.to_string(),
        title: String::new(),
        description: None,
        thumbnail_url: None,
        duration: Some(300),
        channel_title: None,
        published_at: None,
        view_count: None,
        like_count: None,
        ai_score: ai,
        education_score: ai,
        safety_score: ai,
        age_appropriate: ai.map(|_| true),
        tags: None,
        cached_at: None,
        subtitles: None,
    }
}

fn request(max_results: Option<i32>, skip: Option<bool>) -> SearchRequest {
    SearchRequest {
        query: "numbers".to_string(),
        platform: "youtube".to_string(),
        filter_mode: "balanced".to_string(),
        max_results,
        skip_ai_analysis: skip,
    }
}

fn settings(search_key: Option<&str>, provider: &str) -> AppSettings {
    AppSettings {
        youtube_api_key: search_key.map(|s| s.to_string()),
        openai_api_key: Some("open-key".to_string()),
        anthropic_api_key: None,
        ai_provider: provider.to_string(),
        ..AppSettings::default()
    }
}

fn config(skip: bool, ai_key: &str) -> PipelineConfig {
    let mut c = configure(&settings(Some("yt"), "openai"), &request(None, Some(skip))).unwrap();
    c.ai_api_key = ai_key.to_string();
    c
}

fn ids(videos: &[Video]) -> Vec<&str> {
    videos.iter().map(|v| v.id.as_str()).collect()
}

#[test]
fn no_search_key_means_no_configuration() {
    assert!(configure(&settings(None, "openai"), &request(None, None)).is_none());
    assert!(configure(&settings(Some(""), "openai"), &request(None, None)).is_none());
}

#[test]
fn configuration_reads_settings_and_request() {
    let c = configure(&settings(Some("yt"), "openai"), &request(Some(15), Some(true))).unwrap();
    assert_eq!(c.query, "numbers");
    assert_eq!(c.platform, "youtube");
    assert_eq!(c.filter_mode, "balanced");
    assert_eq!(c.max_results, 15);
    assert!(c.skip_ai_analysis);
    assert_eq!(c.youtube_api_key, "yt");
    assert_eq!(c.provider, Provider::OpenAI);
    assert_eq!(c.ai_api_key, "open-key");
    assert_eq!(c.custom_prompt, AppSettings::default().custom_filter_prompt);
    assert_eq!(c.min_duration, 2);
    assert_eq!(c.max_duration, 30);
}

#[test]
fn results_asked_for_default_to_ten_and_stop_at_twenty() {
    let s = settings(Some("yt"), "openai");
    assert_eq!(configure(&s, &request(None, None)).unwrap().max_results, 10);
    assert_eq!(configure(&s, &request(Some(20), None)).unwrap().max_results, 20);
    assert_eq!(configure(&s, &request(Some(21), None)).unwrap().max_results, 20);
    assert_eq!(configure(&s, &request(Some(1), None)).unwrap().max_results, 1);
    assert_eq!(configure(&s, &request(Some(-4), None)).unwrap().max_results, -4);
    assert!(!configure(&s, &request(None, None)).unwrap().skip_ai_analysis);
    assert!(!configure(&s, &request(None, Some(false))).unwrap().skip_ai_analysis);
}

#[test]
fn classifier_key_follows_the_provider() {
    let c = configure(&settings(Some("yt"), "anthropic"), &request(None, None)).unwrap();
    assert_eq!(c.provider, Provider::Anthropic);
    assert_eq!(c.ai_api_key, "");
    let c = configure(&settings(Some("yt"), "something"), &request(None, None)).unwrap();
    assert_eq!(c.provider, Provider::OpenAI);
    assert_eq!(c.ai_api_key, "open-key");
}

#[test]
fn fallback_notice_is_clearly_marked() {
    let v = fallback_video("cats", 1700000000, "p", "c");
    assert_eq!(v.id, "fallback_1700000000");
    assert_eq!(v.title, "配置API密钥以搜索: cats");
    assert_eq!(
        v.description.as_deref(),
        Some("请在设置页面配置YouTube API密钥以启用真实搜索功能")
    );
    assert_eq!(v.channel_title.as_deref(), Some("系统提示"));
    assert_eq!(v.duration, Some(0));
    assert_eq!(v.view_count, Some(0));
    assert_eq!(v.like_count, Some(0));
    assert_eq!(v.published_at.as_deref(), Some("p"));
    assert_eq!(v.cached_at.as_deref(), Some("c"));
    assert_eq!(
        v.thumbnail_url.as_deref(),
        Some("https://via.placeholder.com/320x180/f5f5f5/666666?text=API+KEY+REQUIRED")
    );
    assert_eq!(v.ai_score, None);
    assert_eq!(v.age_appropriate, None);
    assert_eq!(fallback_video("q", -5, "", "").id, "fallback_-5");
}

#[test]
fn fallback_response_holds_the_notice_alone() {
    let r = create_fallback_response("cats");
    assert_eq!(r.videos.len(), 1);
    assert_eq!(r.total_found, 1);
    assert_eq!(r.search_time_ms, 0);
    assert_eq!(r.ai_analysis_time_ms, 0);
    assert!(r.videos[0].id.starts_with("fallback_"));
    assert!(r.videos[0].id["fallback_".len()..].parse::<i64>().unwrap() > 1_600_000_000);
    assert_eq!(r.videos[0].title, "配置API密钥以搜索: cats");
    assert!(r.videos[0].cached_at.is_some());
}

#[test]
fn run_begins_with_a_search_of_three_attempts() {
    let (state, action) = start();
    assert!(matches!(state, PipelineState::Searching));
    assert!(matches!(action, PipelineAction::Search { attempts: 3 }));
}

#[test]
fn failed_search_is_answered_with_the_notice() {
    let c = config(false, "k");
    let (state, action) = step(
        &c,
        PipelineState::Searching,
        PipelineEvent::SearchDone { videos: None, elapsed_ms: 9 },
    );
    assert!(matches!(state, PipelineState::Done));
    match action {
        PipelineAction::Respond(r) => {
            assert_eq!(r.videos.len(), 1);
            assert_eq!(r.videos[0].title, "配置API密钥以搜索: numbers");
            assert_eq!(r.total_found, 1);
        },
        other => panic!("unexpected action {:?}", other),
    }
}

#[test]
fn skipping_classification_saves_what_was_found() {
    let c = config(true, "k");
    let found = vec![scored("a", Some(10)), scored("b", None)];
    let (state, action) = step(
        &c,
        PipelineState::Searching,
        PipelineEvent::SearchDone { videos: Some(found), elapsed_ms: 40 },
    );
    match action {
        PipelineAction::Save { videos } => assert_eq!(ids(&videos), vec!["a", "b"]),
        other => panic!("unexpected action {:?}", other),
    }
    match state {
        PipelineState::Saving { response } => {
            assert_eq!(ids(&response.videos), vec!["a", "b"]);
            assert_eq!(response.total_found, 2);
            assert_eq!(response.search_time_ms, 40);
            assert_eq!(response.ai_analysis_time_ms, 0);
        },
        other => panic!("unexpected state {:?}", other),
    }
}

#[test]
fn without_a_classifier_key_results_are_only_ranked() {
    let c = config(false, "");
    let found = vec![scored("low", Some(10)), scored("none", None), scored("high", Some(90))];
    let (state, action) = step(
        &c,
        PipelineState::Searching,
        PipelineEvent::SearchDone { videos: Some(found), elapsed_ms: 40 },
    );
    assert!(matches!(state, PipelineState::Saving { .. }));
    match action {
        PipelineAction::Save { videos } => assert_eq!(ids(&videos), vec!["high", "none"]),
        other => panic!("unexpected action {:?}", other),
    }
}

#[test]
fn empty_search_result_is_saved_without_asking_the_classifier() {
    let c = config(false, "k");
    let (state, action) = step(
        &c,
        PipelineState::Searching,
        PipelineEvent::SearchDone { videos: Some(Vec::new()), elapsed_ms: 1 },
    );
    match state {
        PipelineState::Saving { response } => assert_eq!(response.total_found, 0),
        other => panic!("unexpected state {:?}", other),
    }
    assert!(matches!(action, PipelineAction::Save { videos } if videos.is_empty()));
}

#[test]
fn full_run_classifies_ranks_saves_and_responds() {
    let c = config(false, "k");
    let found = vec![scored("a", None), scored("b", None), scored("c", None)];
    let (state, action) = step(
        &c,
        PipelineState::Searching,
        PipelineEvent::SearchDone { videos: Some(found), elapsed_ms: 40 },
    );
    match &action {
        PipelineAction::ClassifyBatch { videos } => assert_eq!(ids(videos), vec!["a", "b", "c"]),
        other => panic!("unexpected action {:?}", other),
    }
    let passed = vec![scored("a", Some(72)), scored("c", Some(91))];
    let (state, action) =
        step(&c, state, PipelineEvent::BatchDone { passed: Some(passed), elapsed_ms: 700 });
    match &action {
        PipelineAction::Save { videos } => assert_eq!(ids(videos), vec!["c", "a"]),
        other => panic!("unexpected action {:?}", other),
    }
    let (state, action) = step(&c, state, PipelineEvent::Saved { error: None });
    assert!(matches!(state, PipelineState::Done));
    match action {
        PipelineAction::Respond(r) => {
            assert_eq!(ids(&r.videos), vec!["c", "a"]);
            assert_eq!(r.total_found, 2);
            assert_eq!(r.search_time_ms, 40);
            assert_eq!(r.ai_analysis_time_ms, 700);
        },
        other => panic!("unexpected action {:?}", other),
    }
}

#[test]
fn failed_batch_falls_back_to_single_requests() {
    let c = config(false, "k");
    let found = vec![scored("a", None), scored("b", None)];
    let (state, _) = step(
        &c,
        PipelineState::Searching,
        PipelineEvent::SearchDone { videos: Some(found), elapsed_ms: 40 },
    );
    let (state, action) =
        step(&c, state, PipelineEvent::BatchDone { passed: None, elapsed_ms: 5 });
    match &action {
        PipelineAction::ClassifySingly { videos } => assert_eq!(ids(videos), vec!["a", "b"]),
        other => panic!("unexpected action {:?}", other),
    }
    let low = AIAnalysisResponse {
        education_score: 50,
        safety_score: 50,
        age_appropriate: true,
        overall_score: 40,
        reasoning: String::new(),
        recommended_age: String::new(),
    };
    let (state, action) = step(
        &c,
        state,
        PipelineEvent::SinglesDone { analyses: vec![Some(low), None], elapsed_ms: 900 },
    );
    match &action {
        PipelineAction::Save { videos } => assert_eq!(ids(videos), vec!["b"]),
        other => panic!("unexpected action {:?}", other),
    }
    match state {
        PipelineState::Saving { response } => {
            assert_eq!(response.total_found, 1);
            assert_eq!(response.ai_analysis_time_ms, 900);
            assert_eq!(response.videos[0].ai_score, None);
        },
        other => panic!("unexpected state {:?}", other),
    }
}

#[test]
fn failure_to_save_is_handed_to_the_caller() {
    let c = config(true, "k");
    let (state, _) = step(
        &c,
        PipelineState::Searching,
        PipelineEvent::SearchDone { videos: Some(vec![scored("a", None)]), elapsed_ms: 1 },
    );
    let (state, action) = step(
        &c,
        state,
        PipelineEvent::Saved { error: Some("Failed to commit transaction: busy".to_string()) },
    );
    assert!(matches!(state, PipelineState::Done));
    match action {
        PipelineAction::Fail(message) => assert_eq!(message, "Failed to commit transaction: busy"),
        other => panic!("unexpected action {:?}", other),
    }
}

#[test]
fn event_out_of_turn_ends_the_run_with_an_error() {
    let c = config(false, "k");
    let (state, action) = step(&c, PipelineState::Searching, PipelineEvent::Saved { error: None });
    assert!(matches!(state, PipelineState::Done));
    assert!(
        matches!(action, PipelineAction::Fail(m) if m == "event does not fit the state of the run")
    );
    let (state, action) = step(&c, PipelineState::Done, PipelineEvent::Saved { error: None });
    assert!(matches!(state, PipelineState::Done));
    assert!(matches!(action, PipelineAction::Fail(_)));
}
