use kid_videos::batch::Provider;
use kid_videos::model::Video;
use kid_videos::prompt::{
    batch_request, build_batch_prompt, build_single_prompt, single_request, video_entry,
    video_list, ANSWER_FORMAT, DEFAULT_BATCH_PROMPT, DEFAULT_SINGLE_PROMPT_ANTHROPIC,
    DEFAULT_SINGLE_PROMPT_OPENAI, LIST_HEADING,
};

fn bare(title: &str) -> Video {
    Video {
        id: "id".to_string(),
        title: title.to_string(),
        description: None,
        thumbnail_url: None,
        duration: None,
        channel_title: None,
        published_at: None,
        view_count: None,
        like_count: None,
        ai_score: None,
        education_score: None,
        safety_score: None,
        age_appropriate: None,
        tags: None,
        cached_at: None,
        subtitles: None,
    }
}

fn full(title: &str) -> Video {
    Video {
        description: Some("讲数字".to_string()),
        duration: Some(253),
        channel_title: Some("频道A".to_string()),
        published_at: Some("2024-01-02T03:04:05Z".to_string()),
        view_count: Some(1000),
        like_count: Some(50),
        subtitles: Some("可用字幕: [en] English (人工)".to_string()),
        ..bare(title)
    }
}

#[test]
fn entry_states_every_field() {
    assert_eq!(
        video_entry(&full("数字歌"), 3),
        "视频3:\n标题：数字歌\n时长：4分13秒 (253秒)\n描述：讲数字\n喜欢人数：50\n观看人数：1000\n发布时间：2024-01-02T03:04:05Z\n频道：频道A\n字幕：可用字幕: [en] English (人工)"
    );
}

#[test]
fn entry_names_what_is_unknown() {
    assert_eq!(
        video_entry(&bare("t"), 1),
        "视频1:\n标题：t\n时长：未知 (0秒)\n描述：无描述\n喜欢人数：0\n观看人数：0\n发布时间：无发布时间\n频道：未知\n字幕：无字幕信息"
    );
}

#[test]
fn entries_always_have_the_same_lines() {
    assert_eq!(video_entry(&bare("t"), 1).lines().count(), 9);
    assert_eq!(video_entry(&full("t"), 12).lines().count(), 9);
}

#[test]
fn list_numbers_the_videos_from_one() {
    let videos = vec![bare("a"), bare("b"), bare("c")];
    let list = video_list(&videos);
    let parts: Vec<&str> = list.split("\n\n").collect();
    assert_eq!(parts.len(), 3);
    assert!(parts[0].starts_with("视频1:\n标题：a\n"));
    assert!(parts[1].starts_with("视频2:\n标题：b\n"));
    assert!(parts[2].starts_with("视频3:\n标题：c\n"));
    assert_eq!(video_list(&Vec::new()), "");
    assert_eq!(video_list(&vec![bare("x")]), video_entry(&bare("x"), 1));
}

#[test]
fn batch_prompt_has_instructions_format_count_and_list() {
    let videos = vec![bare("a"), full("b")];
    let expected = format!(
        "{}{}{}{}{}",
        DEFAULT_BATCH_PROMPT,
        ANSWER_FORMAT,
        2,
        LIST_HEADING,
        video_list(&videos)
    );
    assert_eq!(build_batch_prompt(&videos, None), expected);
    let custom = build_batch_prompt(&videos, Some("只要动画"));
    assert!(custom.starts_with("只要动画\n\n输出要求：\n- 返回 JSON 格式\n"));
    assert!(custom.contains("\n\n请分析以下2个视频：\n\n视频1:\n"));
    assert!(custom.contains("{\n  \"videos\": [\n    {\n      \"index\": 1,\n"));
}

#[test]
fn default_batch_instructions_start_and_end_as_written() {
    assert!(DEFAULT_BATCH_PROMPT.starts_with("请分析以下儿童视频的适宜性。评判标准：\n1. 教育价值："));
    assert!(DEFAULT_BATCH_PROMPT.ends_with("- 若时长符合要求，综合各项指标取平均分作为总分。"));
    assert_eq!(DEFAULT_BATCH_PROMPT.lines().count(), 9);
}

#[test]
fn single_prompt_has_title_description_and_instructions() {
    assert_eq!(
        build_single_prompt("数字歌", "讲数字", Some("严格一点"), Provider::OpenAI),
        "视频标题：数字歌\n视频描述：讲数字\n\n严格一点"
    );
    assert_eq!(
        build_single_prompt("t", "", None, Provider::OpenAI),
        format!("视频标题：t\n视频描述：\n\n{}", DEFAULT_SINGLE_PROMPT_OPENAI)
    );
    assert_eq!(
        build_single_prompt("t", "d", None, Provider::Anthropic),
        format!("视频标题：t\n视频描述：d\n\n{}", DEFAULT_SINGLE_PROMPT_ANTHROPIC)
    );
}

#[test]
fn requests_go_to_the_address_of_their_service() {
    let videos = vec![bare("a"), bare("b"), bare("c")];
    let r = batch_request(Provider::OpenAI, "model-a", "KEY", &videos, None);
    assert_eq!(r.endpoint, "https://api.openai.com/v1/chat/completions");
    assert_eq!(r.model, "model-a");
    assert_eq!(r.max_tokens, 1400);
    assert_eq!(r.temperature, Some(30));
    assert_eq!(r.role, "user");
    assert_eq!(r.content, build_batch_prompt(&videos, None));
    let r = batch_request(Provider::Anthropic, "model-b", "KEY", &videos, Some("x"));
    assert_eq!(r.endpoint, "https://api.anthropic.com/v1/messages");
    assert_eq!(r.model, "model-b");
    assert_eq!(r.max_tokens, 1400);
    assert_eq!(r.temperature, None);
    assert_eq!(r.role, "user");
    let r = single_request(Provider::Anthropic, "model-b", "KEY", "t", "d", None);
    assert_eq!(r.endpoint, "https://api.anthropic.com/v1/messages");
    assert_eq!(r.max_tokens, 500);
    assert_eq!(r.content, build_single_prompt("t", "d", None, Provider::Anthropic));
}

#[test]
fn requests_carry_the_key_as_each_service_wants_it() {
    let pairs = |r: &kid_videos::prompt::ClassifierRequest| -> Vec<(String, String)> {
        r.headers.clone()
    };
    let r = single_request(Provider::OpenAI, "m", "sk-1", "t", "d", None);
    assert_eq!(
        pairs(&r),
        vec![
            ("Authorization".to_string(), "Bearer sk-1".to_string()),
            ("Content-Type".to_string(), "application/json".to_string()),
        ]
    );
    let r = single_request(Provider::Anthropic, "m", "key-2", "t", "d", None);
    assert_eq!(
        pairs(&r),
        vec![
            ("x-api-key".to_string(), "key-2".to_string()),
            ("anthropic-version".to_string(), "2023-06-01".to_string()),
            ("Content-Type".to_string(), "application/json".to_string()),
        ]
    );
}
