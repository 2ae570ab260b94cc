use kid_videos::connectivity::{
    anthropic_report, check_key, openai_report, youtube_report, youtube_test_url, KeyCheck, Service,
};

#[test]
fn keys_are_tried_only_when_asked_and_given() {
    assert!(matches!(check_key(Service::YouTube, None), KeyCheck::NotAsked));
    assert!(matches!(check_key(Service::OpenAI, Some("k")), KeyCheck::Try));
    match check_key(Service::YouTube, Some("")) {
        KeyCheck::NotProvided(report) => {
            assert!(!report.success);
            assert_eq!(report.text, "YouTube API key not provided");
        },
        other => panic!("unexpected check {:?}", other),
    }
    match check_key(Service::OpenAI, Some("")) {
        KeyCheck::NotProvided(report) => assert_eq!(report.text, "OpenAI API key not provided"),
        other => panic!("unexpected check {:?}", other),
    }
    match check_key(Service::Anthropic, Some("")) {
        KeyCheck::NotProvided(report) => assert_eq!(report.text, "Anthropic API key not provided"),
        other => panic!("unexpected check {:?}", other),
    }
}

#[test]
fn youtube_try_asks_for_one_popular_video() {
    assert_eq!(
        youtube_test_url("KEY"),
        "https://www.googleapis.com/youtube/v3/videos?part=snippet&chart=mostPopular&maxResults=1&key=KEY"
    );
}

#[test]
fn youtube_answers_are_reported_by_status() {
    let ok = youtube_report(200, "200 OK", Some("9000"));
    assert!(ok.success);
    assert_eq!(ok.text, "YouTube API connection successful. Remaining quota: 9000");
    let ok = youtube_report(204, "204 No Content", None);
    assert!(ok.success);
    assert_eq!(ok.text, "YouTube API connection successful. Quota info not available");
    let denied = youtube_report(403, "403 Forbidden", None);
    assert!(!denied.success);
    assert_eq!(denied.text, "YouTube API quota exceeded or invalid API key");
    let bad = youtube_report(400, "400 Bad Request", None);
    assert!(!bad.success);
    assert_eq!(bad.text, "YouTube API request parameters error");
    let other = youtube_report(500, "500 Internal Server Error", Some("1"));
    assert!(!other.success);
    assert_eq!(other.text, "YouTube API error: 500 Internal Server Error");
    assert!(!youtube_report(199, "199", None).success);
    assert!(!youtube_report(300, "300 Multiple Choices", None).success);
}

#[test]
fn openai_success_counts_the_models() {
    let r = openai_report(200, "200 OK", r#"{"data": [{"id": "a"}, {"id": "b"}, {"id": "c"}]}"#);
    assert!(r.success);
    assert_eq!(r.text, "OpenAI API connection successful. Available models: 3");
    let r = openai_report(200, "200 OK", r#"{"data": "none"}"#);
    assert_eq!(r.text, "OpenAI API connection successful. Available models: 0");
    let r = openai_report(200, "200 OK", "not a document");
    assert_eq!(r.text, "OpenAI API connection successful. Available models: 0");
    let r = openai_report(401, "401 Unauthorized", r#"{"data": [1]}"#);
    assert!(!r.success);
    assert_eq!(r.text, "OpenAI API error: 401 Unauthorized");
}

#[test]
fn anthropic_failure_quotes_the_described_error() {
    let r = anthropic_report(200, "");
    assert!(r.success);
    assert_eq!(r.text, "Anthropic API connection successful");
    let r = anthropic_report(401, r#"{"error": {"type": "auth", "message": "invalid x-api-key"}}"#);
    assert!(!r.success);
    assert_eq!(r.text, "Anthropic API error: invalid x-api-key");
    let r = anthropic_report(500, r#"{"error": "boom"}"#);
    assert_eq!(r.text, "Anthropic API error: Unknown error");
    let r = anthropic_report(500, r#"{"error": {"message": 5}}"#);
    assert_eq!(r.text, "Anthropic API error: Unknown error");
    let r = anthropic_report(502, "<html>bad gateway</html>");
    assert_eq!(r.text, "Anthropic API error: Unknown error");
}
