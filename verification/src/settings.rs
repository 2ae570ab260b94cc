//! What the user has configured, and the values a fresh installation
//! starts with.

use vstd::prelude::*;

verus! {

/// The instructions given to the classifier when the user has written none.
pub const DEFAULT_FILTER_PROMPT: &'static str = "请分析以下视频是否适合3-6岁儿童观看。评判标准：
1. 教育价值：是否有助于学习认知、语言、数学、科学等
2. 内容安全：无暴力、恐怖、不当内容
3. 年龄适宜：符合学前儿童认知水平
4. 时长合适：建议2-20分钟
5. 制作质量：画面清晰、音频清楚、制作精良

请对每个视频给出0-100的评分，并说明理由。只返回评分高于70分的视频。";

/// The instructions given to the classifier when the user has written none.
pub fn default_filter_prompt() -> (r: String)
    ensures
        r@ == DEFAULT_FILTER_PROMPT@,
{
    String::from_str(DEFAULT_FILTER_PROMPT)
}

/// Everything the user can configure.
#[derive(Debug, Clone)]
pub struct AppSettings {
    pub openai_api_key: Option<String>,
    pub anthropic_api_key: Option<String>,
    pub youtube_api_key: Option<String>,
    /// `"openai"` or `"anthropic"`.
    pub ai_provider: String,
    /// An age range such as `"3-6"`.
    pub child_age: String,
    pub custom_filter_prompt: Option<String>,
    /// How many videos one search asks for.
    pub video_count: i32,
    pub cache_duration_hours: i32,
    pub default_platforms: Vec<String>,
    /// `"zh"`, `"en"` or `"both"`.
    pub search_language: String,
    /// Shortest accepted video, in minutes.
    pub min_duration: i32,
    /// Longest accepted video, in minutes.
    pub max_duration: i32,
    pub enable_alarm: bool,
    /// In seconds.
    pub default_alarm_time: i32,
    pub countdown_seconds: i32,
    /// In minutes.
    pub alarm_interval: i32,
    pub enable_alarm_sound: bool,
    pub enable_visual_alarm: bool,
    pub enable_vibration_alarm: bool,
    pub alarm_message: String,
    pub enable_notifications: bool,
    pub enable_debug_mode: bool,
    pub enable_usage_stats: bool,
    pub enable_filter_stats: bool,
    /// `"auto"`, `"light"` or `"dark"`.
    pub theme: String,
    pub language: String,
    /// `"strict"`, `"balanced"` or `"educational"`.
    pub default_filter_mode: String,
    pub default_platform: String,
    pub max_video_duration_minutes: i32,
}

impl AppSettings {
    /// Whether these are the settings of a fresh installation.
    pub open spec fn is_default(&self) -> bool {
        &&& self.openai_api_key is None
        &&& self.anthropic_api_key is None
        &&& self.youtube_api_key is None
        &&& self.ai_provider@ == "openai"@
        &&& self.child_age@ == "3-6"@
        &&& self.custom_filter_prompt matches Some(p) && p@ == DEFAULT_FILTER_PROMPT@
        &&& self.video_count == 10
        &&& self.cache_duration_hours == 24
        &&& self.default_platforms@.len() == 2
        &&& self.default_platforms@[0]@ == "youtube"@
        &&& self.default_platforms@[1]@ == "youtube_kids"@
        &&& self.search_language@ == "zh"@
        &&& self.min_duration == 2
        &&& self.max_duration == 30
        &&& !self.enable_alarm
        &&& self.default_alarm_time == 600
        &&& self.countdown_seconds == 60
        &&& self.alarm_interval == 10
        &&& self.enable_alarm_sound
        &&& self.enable_visual_alarm
        &&& !self.enable_vibration_alarm
        &&& self.alarm_message@ == "该休息了，小朋友！"@
        &&& self.enable_notifications
        &&& !self.enable_debug_mode
        &&& self.enable_usage_stats
        &&& self.enable_filter_stats
        &&& self.theme@ == "light"@
        &&& self.language@ == "zh-CN"@
        &&& self.default_filter_mode@ == "balanced"@
        &&& self.default_platform@ == "youtube"@
        &&& self.max_video_duration_minutes == 30
    }
}

impl Default for AppSettings {
    fn default() -> (r: Self)
        ensures
            r.is_default(),
    {
        let mut platforms: Vec<String> = Vec::new();
        platforms.push(String::from_str("youtube"));
        platforms.push(String::from_str("youtube_kids"));
        AppSettings {
            openai_api_key: None,
            anthropic_api_key: None,
            youtube_api_key: None,
            ai_provider: String::from_str("openai"),
            child_age: String::from_str("3-6"),
            custom_filter_prompt: Some(default_filter_prompt()),
            video_count: 10,
            cache_duration_hours: 24,
            default_platforms: platforms,
            search_language: String::from_str("zh"),
            min_duration: 2,
            max_duration: 30,
            enable_alarm: false,
            default_alarm_time: 600,
            countdown_seconds: 60,
            alarm_interval: 10,
            enable_alarm_sound: true,
            enable_visual_alarm: true,
            enable_vibration_alarm: false,
            alarm_message: String::from_str("该休息了，小朋友！"),
            enable_notifications: true,
            enable_debug_mode: false,
            enable_usage_stats: true,
            enable_filter_stats: true,
            theme: String::from_str("light"),
            language: String::from_str("zh-CN"),
            default_filter_mode: String::from_str("balanced"),
            default_platform: String::from_str("youtube"),
            max_video_duration_minutes: 30,
        }
    }
}

} // verus!
