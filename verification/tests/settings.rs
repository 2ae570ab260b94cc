use kid_videos::settings::{default_filter_prompt, AppSettings, DEFAULT_FILTER_PROMPT};

#[test]
fn fresh_settings_have_the_documented_values() {
    let s = AppSettings::default();
    assert_eq!(s.openai_api_key, None);
    assert_eq!(s.anthropic_api_key, None);
    assert_eq!(s.youtube_api_key, None);
    assert_eq!(s.ai_provider, "openai");
    assert_eq!(s.child_age, "3-6");
    assert_eq!(s.custom_filter_prompt.as_deref(), Some(DEFAULT_FILTER_PROMPT));
    assert_eq!(s.video_count, 10);
    assert_eq!(s.cache_duration_hours, 24);
    assert_eq!(s.default_platforms, vec!["youtube", "youtube_kids"]);
    assert_eq!(s.search_language, "zh");
    assert_eq!(s.min_duration, 2);
    assert_eq!(s.max_duration, 30);
    assert!(!s.enable_alarm);
    assert_eq!(s.default_alarm_time, 600);
    assert_eq!(s.countdown_seconds, 60);
    assert_eq!(s.alarm_interval, 10);
    assert!(s.enable_alarm_sound);
    assert!(s.enable_visual_alarm);
    assert!(!s.enable_vibration_alarm);
    assert_eq!(s.alarm_message, "该休息了，小朋友！");
    assert!(s.enable_notifications);
    assert!(!s.enable_debug_mode);
    assert!(s.enable_usage_stats);
    assert!(s.enable_filter_stats);
    assert_eq!(s.theme, "light");
    assert_eq!(s.language, "zh-CN");
    assert_eq!(s.default_filter_mode, "balanced");
    assert_eq!(s.default_platform, "youtube");
    assert_eq!(s.max_video_duration_minutes, 30);
}

#[test]
fn default_instructions_are_the_constant() {
    let prompt = default_filter_prompt();
    assert_eq!(prompt, DEFAULT_FILTER_PROMPT);
    assert!(prompt.starts_with("请分析以下视频是否适合3-6岁儿童观看。评判标准：\n1. 教育价值："));
    assert!(prompt.ends_with("只返回评分高于70分的视频。"));
    assert_eq!(prompt.lines().count(), 8);
}
