use kid_videos::batch::Provider;
use kid_videos::responses::{
    answer_error_text, parse_answer, parse_captions_response, parse_details_response,
    parse_search_response, AnswerError,
};

const SEARCH: &str = r#"{
  "kind": "youtube#searchListResponse",
  "pageInfo": {"totalResults": 1000000, "resultsPerPage": 2},
  "items": [
    {"id": {"kind": "youtube#video", "videoId": "abc"},
     "snippet": {"title": "Numbers", "description": "count to ten",
                 "channelTitle": "Kids", "publishedAt": "2024-01-02T03:04:05Z",
                 "thumbnails": {"default": {"url": "d"}, "medium": {"url": "m"}, "high": {"url": "h"}}}},
    {"id": {"videoId": "def"},
     "snippet": {"title": "Letters", "description": "", "channelTitle": "Kids",
                 "publishedAt": "2024-02-02T03:04:05Z",
                 "thumbnails": {"medium": null}}}
  ]
}"#;

#[test]
fn search_results_are_read_in_order() {
    let items = parse_search_response(SEARCH).expect("search results");
    assert_eq!(items.len(), 2);
    assert_eq!(items[0].video_id, "abc");
    assert_eq!(items[0].title, "Numbers");
    assert_eq!(items[0].description, "count to ten");
    assert_eq!(items[0].channel_title, "Kids");
    assert_eq!(items[0].published_at, "2024-01-02T03:04:05Z");
    assert_eq!(items[0].thumbnail_medium.as_deref(), Some("m"));
    assert_eq!(items[0].thumbnail_high.as_deref(), Some("h"));
    assert_eq!(items[1].video_id, "def");
    assert_eq!(items[1].thumbnail_medium, None);
    assert_eq!(items[1].thumbnail_high, None);
}

#[test]
fn empty_search_result_is_a_result() {
    let items = parse_search_response(r#"{"items": [], "pageInfo": {"totalResults": 0}}"#);
    assert_eq!(items.map(|v| v.len()), Some(0));
}

#[test]
fn search_answer_of_another_shape_is_not_read() {
    let cases = [
        "",
        "not json",
        "[]",
        r#"{"items": []}"#,
        r#"{"pageInfo": {"totalResults": 0}}"#,
        r#"{"items": {}, "pageInfo": {"totalResults": 0}}"#,
        r#"{"items": [], "pageInfo": {"totalResults": "0"}}"#,
        r#"{"items": [], "pageInfo": {"totalResults": 1.5}}"#,
        r#"{"items": [], "pageInfo": {"totalResults": 2147483648}}"#,
        r#"{"items": [], "pageInfo": []}"#,
        r#"{"items": [{"id": {"videoId": "a"}}], "pageInfo": {"totalResults": 1}}"#,
        r#"{"items": [{"id": {}, "snippet": {"title": "t", "description": "d", "channelTitle": "c", "publishedAt": "p", "thumbnails": {}}}], "pageInfo": {"totalResults": 1}}"#,
        r#"{"items": [{"id": {"videoId": "a"}, "snippet": {"title": 5, "description": "d", "channelTitle": "c", "publishedAt": "p", "thumbnails": {}}}], "pageInfo": {"totalResults": 1}}"#,
        r#"{"items": [{"id": {"videoId": "a"}, "snippet": {"title": "t", "description": "d", "channelTitle": "c", "publishedAt": "p"}}], "pageInfo": {"totalResults": 1}}"#,
        r#"{"items": [{"id": {"videoId": "a"}, "snippet": {"title": "t", "description": "d", "channelTitle": "c", "publishedAt": "p", "thumbnails": {"high": "h"}}}], "pageInfo": {"totalResults": 1}}"#,
        r#"{"items": [{"id": {"videoId": "a"}, "snippet": {"title": "t", "description": "d", "channelTitle": "c", "publishedAt": "p", "thumbnails": {"high": {}}}}], "pageInfo": {"totalResults": 1}}"#,
    ];
    for body in cases {
        assert!(parse_search_response(body).is_none(), "{}", body);
    }
    let ok = r#"{"items": [{"id": {"videoId": "a"}, "snippet": {"title": "t", "description": "d", "channelTitle": "c", "publishedAt": "p", "thumbnails": {}}}], "pageInfo": {"totalResults": -2147483648}}"#;
    assert_eq!(parse_search_response(ok).map(|v| v.len()), Some(1));
}

#[test]
fn one_bad_search_result_spoils_the_answer() {
    let body = r#"{"pageInfo": {"totalResults": 2}, "items": [
        {"id": {"videoId": "a"}, "snippet": {"title": "t", "description": "d", "channelTitle": "c", "publishedAt": "p", "thumbnails": {}}},
        {"id": {"videoId": 7}, "snippet": {"title": "t", "description": "d", "channelTitle": "c", "publishedAt": "p", "thumbnails": {}}}
    ]}"#;
    assert!(parse_search_response(body).is_none());
}

#[test]
fn details_are_read_with_all_parts_optional() {
    let body = r#"{"items": [
        {"id": "abc", "statistics": {"viewCount": "1000", "likeCount": "50"},
         "contentDetails": {"duration": "PT4M13S", "dimension": "2d"},
         "snippet": {"localized": {"title": "t", "description": "d"}}},
        {"id": null, "statistics": {"viewCount": "7"}, "snippet": {}},
        {}
    ]}"#;
    let details = parse_details_response(body).expect("details");
    assert_eq!(details.len(), 3);
    assert_eq!(details[0].id.as_deref(), Some("abc"));
    assert_eq!(details[0].view_count.as_deref(), Some("1000"));
    assert_eq!(details[0].like_count.as_deref(), Some("50"));
    assert_eq!(details[0].duration.as_deref(), Some("PT4M13S"));
    assert_eq!(details[1].id, None);
    assert_eq!(details[1].view_count.as_deref(), Some("7"));
    assert_eq!(details[1].like_count, None);
    assert_eq!(details[1].duration, None);
    assert_eq!(details[2].id, None);
    assert_eq!(details[2].view_count, None);
    assert_eq!(details[2].duration, None);
}

#[test]
fn details_of_another_shape_are_not_read() {
    let cases = [
        "{}",
        r#"{"items": 3}"#,
        r#"{"items": [5]}"#,
        r#"{"items": [[]]}"#,
        r#"{"items": [{"id": 5}]}"#,
        r#"{"items": [{"statistics": 5}]}"#,
        r#"{"items": [{"statistics": {"viewCount": 1000}}]}"#,
        r#"{"items": [{"contentDetails": {}}]}"#,
        r#"{"items": [{"contentDetails": {"duration": 253}}]}"#,
        r#"{"items": [{"snippet": "x"}]}"#,
        r#"{"items": [{"snippet": {"localized": {"title": "t"}}}]}"#,
        r#"{"items": [{"snippet": {"localized": 1}}]}"#,
    ];
    for body in cases {
        assert!(parse_details_response(body).is_none(), "{}", body);
    }
    assert_eq!(parse_details_response(r#"{"items": []}"#).map(|v| v.len()), Some(0));
}

#[test]
fn caption_tracks_are_read() {
    let body = r#"{"items": [
        {"id": "1", "snippet": {"language": "en", "trackKind": "asr", "name": "English", "videoId": "abc"}},
        {"snippet": {"language": "zh-Hans", "trackKind": "standard", "name": ""}}
    ]}"#;
    let tracks = parse_captions_response(body).expect("tracks");
    assert_eq!(tracks.len(), 2);
    assert_eq!(tracks[0].language, "en");
    assert_eq!(tracks[0].track_kind, "asr");
    assert_eq!(tracks[0].name, "English");
    assert_eq!(tracks[1].language, "zh-Hans");
    assert_eq!(tracks[1].name, "");
    assert_eq!(parse_captions_response(r#"{"items": []}"#).map(|v| v.len()), Some(0));
}

#[test]
fn caption_answer_of_another_shape_is_not_read() {
    let cases = [
        r#"{"error": {"code": 403}}"#,
        r#"{"items": [{"snippet": {"language": "en", "trackKind": "asr"}}]}"#,
        r#"{"items": [{"snippet": {"language": "en", "trackKind": null, "name": "x"}}]}"#,
        r#"{"items": [{}]}"#,
        r#"{"items": ["en"]}"#,
        "<html>",
    ];
    for body in cases {
        assert!(parse_captions_response(body).is_none(), "{}", body);
    }
}

#[test]
fn text_of_the_first_message_is_the_answer() {
    let openai = r#"{"id": "x", "choices": [
        {"index": 0, "message": {"role": "assistant", "content": "first"}, "finish_reason": "stop"},
        {"index": 1, "message": {"role": "assistant", "content": "second"}}
    ]}"#;
    assert_eq!(parse_answer(Provider::OpenAI, openai), Ok("first".to_string()));
    let anthropic = r#"{"content": [{"type": "text", "text": "one"}, {"text": "two"}], "role": "assistant"}"#;
    assert_eq!(parse_answer(Provider::Anthropic, anthropic), Ok("one".to_string()));
}

#[test]
fn answer_without_messages_is_empty() {
    assert_eq!(parse_answer(Provider::OpenAI, r#"{"choices": []}"#), Err(AnswerError::Empty));
    assert_eq!(parse_answer(Provider::Anthropic, r#"{"content": []}"#), Err(AnswerError::Empty));
}

#[test]
fn answer_of_the_other_service_is_malformed() {
    let openai = r#"{"choices": [{"message": {"role": "assistant", "content": "x"}}]}"#;
    let anthropic = r#"{"content": [{"text": "x"}]}"#;
    assert_eq!(parse_answer(Provider::Anthropic, openai), Err(AnswerError::Malformed));
    assert_eq!(parse_answer(Provider::OpenAI, anthropic), Err(AnswerError::Malformed));
}

#[test]
fn answer_of_another_shape_is_malformed() {
    let cases = [
        "",
        "Service unavailable",
        "{}",
        r#"{"choices": {}}"#,
        r#"{"choices": [{"message": {"content": "no role"}}]}"#,
        r#"{"choices": [{"message": {"role": "assistant", "content": null}}]}"#,
        r#"{"choices": [{"message": "x"}]}"#,
        r#"{"choices": [{"message": {"role": "assistant", "content": "ok"}}, {"message": {}}]}"#,
        r#"{"error": {"message": "quota"}}"#,
    ];
    for body in cases {
        assert_eq!(parse_answer(Provider::OpenAI, body), Err(AnswerError::Malformed), "{}", body);
    }
    let cases = [r#"{"content": "text"}"#, r#"{"content": [{"text": 5}]}"#, r#"{"content": [{}]}"#];
    for body in cases {
        assert_eq!(parse_answer(Provider::Anthropic, body), Err(AnswerError::Malformed), "{}", body);
    }
}

#[test]
fn answer_errors_name_the_service() {
    assert_eq!(
        answer_error_text(Provider::OpenAI, AnswerError::Malformed),
        "Failed to parse OpenAI response"
    );
    assert_eq!(answer_error_text(Provider::OpenAI, AnswerError::Empty), "No response from OpenAI");
    assert_eq!(
        answer_error_text(Provider::Anthropic, AnswerError::Malformed),
        "Failed to parse Anthropic response"
    );
    assert_eq!(
        answer_error_text(Provider::Anthropic, AnswerError::Empty),
        "No response from Anthropic"
    );
}
