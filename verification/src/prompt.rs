//! What a request to a classifier says: the instructions, the description
//! of each video, and how the request is addressed to a service.

use crate::batch::{calculate_required_tokens, spec_required_tokens, Provider};
use crate::duration::{format_duration, spec_format_duration};
use crate::model::Video;
use crate::text::{decimal, decimal_digits, decimal_string, decimal_string_unsigned};
use vstd::prelude::*;

verus! {

/// The instructions of a batch request where the user has written none.
pub const DEFAULT_BATCH_PROMPT: &'static str =
    "请分析以下儿童视频的适宜性。评判标准：
1. 教育价值：是否有助于学习认知、语言、数学、科学等
2. 内容安全：无暴力、恐怖、不当内容
3. 年龄适宜：符合学前儿童认知水平
4. 制作质量：画面清晰、音频清楚、制作精良

总分计算：
- 若时长不符合要求，直接将总分设为 min(原计算分数, 60)。
- 若时长符合要求，综合各项指标取平均分作为总分。";

/// What a batch request says between the instructions and the number of
/// videos: the shape of the answer it asks for.
pub const ANSWER_FORMAT: &'static str =
    "\n\n输出要求：\n- 返回 JSON 格式\n- 只返回同时满足：score >= 70 且 时长符合要求 的视频\n- 字段：\n{\n  \"videos\": [\n    {\n      \"index\": 1,\n      \"score\": 0-100,\n      \"suitable\": true/false,   // true 表示总分≥70且时长合格\n      \"reason\": \"评分理由\",\n      \"educational_value\": 0-100,\n      \"safety_score\": 0-100\n    }\n  ]\n}\n\n请分析以下";

/// What a batch request says between the number of videos and their
/// descriptions.
pub const LIST_HEADING: &'static str = "个视频：\n\n";

/// The instructions of a request about one video to the first service,
/// where the user has written none.
pub const DEFAULT_SINGLE_PROMPT_OPENAI: &'static str =
    "请分析这个视频对儿童的适宜性。请提供：\n1. 教育价值评分(0-1)\n2. 安全性评分(0-1)\n3. 是否适合儿童(true/false)\n4. 综合评分(0-1)\n5. 推荐年龄段\n6. 详细理由\n\n请以JSON格式返回：\n{\"education_score\": 0.8, \"safety_score\": 0.9, \"age_appropriate\": true, \"overall_score\": 0.85, \"recommended_age\": \"3-6岁\", \"reasoning\": \"详细分析...\"}";

/// The instructions of a request about one video to the second service,
/// where the user has written none.
pub const DEFAULT_SINGLE_PROMPT_ANTHROPIC: &'static str =
    "请分析这个视频对儿童的适宜性。请以JSON格式返回分析结果，包含education_score(0-1), safety_score(0-1), age_appropriate(布尔值), overall_score(0-1), recommended_age(字符串), reasoning(详细理由)。";

/// A text, or `placeholder` where there is none.
pub open spec fn text_or(value: Option<String>, placeholder: Seq<char>) -> Seq<char> {
    match value {
        Some(s) => s@,
        None => placeholder,
    }
}

/// A count, or zero where there is none.
pub open spec fn count_or_zero(value: Option<i64>) -> int {
    match value {
        Some(n) => n as int,
        None => 0,
    }
}

/// How a request describes one video, which it numbers `number`. Every
/// line is always there: what is unknown is said to be unknown.
pub open spec fn spec_video_entry(video: Video, number: nat) -> Seq<char> {
    "视频"@ + decimal_digits(number) + ":\n标题："@ + video.title@ + "\n时长："@ + (match video.duration {
        Some(d) => spec_format_duration(d as int),
        None => "未知"@,
    }) + " ("@ + decimal(
        match video.duration {
            Some(d) => d as int,
            None => 0,
        },
    ) + "秒)\n描述："@ + text_or(video.description, "无描述"@) + "\n喜欢人数："@ + decimal(
        count_or_zero(video.like_count),
    ) + "\n观看人数："@ + decimal(count_or_zero(video.view_count)) + "\n发布时间："@ + text_or(
        video.published_at,
        "无发布时间"@,
    ) + "\n频道："@ + text_or(video.channel_title, "未知"@) + "\n字幕："@ + text_or(
        video.subtitles,
        "无字幕信息"@,
    )
}

/// The descriptions of the first `n` videos, numbered from one, with an
/// empty line between two of them.
pub open spec fn spec_video_list(videos: Seq<Video>, n: nat) -> Seq<char>
    decreases n,
{
    if n == 0 {
        Seq::empty()
    } else if n == 1 {
        spec_video_entry(videos[0], 1)
    } else {
        spec_video_list(videos, (n - 1) as nat) + "\n\n"@ + spec_video_entry(videos[n - 1], n)
    }
}

/// What a batch request says: the instructions, the shape of the answer,
/// the number of videos and their descriptions.
pub open spec fn spec_batch_prompt(videos: Seq<Video>, instructions: Seq<char>) -> Seq<char> {
    instructions + ANSWER_FORMAT@ + decimal_digits(videos.len()) + LIST_HEADING@
        + spec_video_list(videos, videos.len())
}

/// What a request about one video says.
pub open spec fn spec_single_prompt(
    title: Seq<char>,
    description: Seq<char>,
    instructions: Seq<char>,
) -> Seq<char> {
    "视频标题："@ + title + "\n视频描述："@ + description + "\n\n"@ + instructions
}

/// The instructions of a request about one video where the user has
/// written none.
pub open spec fn default_single_prompt(provider: Provider) -> Seq<char> {
    match provider {
        Provider::OpenAI => DEFAULT_SINGLE_PROMPT_OPENAI@,
        Provider::Anthropic => DEFAULT_SINGLE_PROMPT_ANTHROPIC@,
    }
}

/// The user's instructions, or `default` where there are none.
pub open spec fn instructions_or(custom: Option<&str>, default: Seq<char>) -> Seq<char> {
    match custom {
        Some(text) => text@,
        None => default,
    }
}

fn append_text_or(out: &mut String, value: &Option<String>, placeholder: &str)
    ensures
        final(out)@ == old(out)@ + text_or(*value, placeholder@),
{
    match value {
        Some(s) => out.append(s.as_str()),
        None => out.append(placeholder),
    }
}

fn append_count(out: &mut String, value: Option<i64>)
    ensures
        final(out)@ == old(out)@ + decimal(count_or_zero(value)),
{
    let n: i64 = match value {
        Some(n) => n,
        None => 0,
    };
    out.append(decimal_string(n).as_str());
}

/// Describes one video for a request, which numbers it `number`.
pub fn video_entry(video: &Video, number: usize) -> (r: String)
    ensures
        r@ == spec_video_entry(*video, number as nat),
{
    let mut out = String::from_str("视频");
    out.append(decimal_string_unsigned(number as u64).as_str());
    out.append(":\n标题：");
    out.append(video.title.as_str());
    out.append("\n时长：");
    match video.duration {
        Some(d) => {
            out.append(format_duration(d).as_str());
            out.append(" (");
            out.append(decimal_string(d as i64).as_str());
        },
        None => {
            out.append("未知");
            out.append(" (");
            out.append(decimal_string(0).as_str());
        },
    }
    out.append("秒)\n描述：");
    append_text_or(&mut out, &video.description, "无描述");
    out.append("\n喜欢人数：");
    append_count(&mut out, video.like_count);
    out.append("\n观看人数：");
    append_count(&mut out, video.view_count);
    out.append("\n发布时间：");
    append_text_or(&mut out, &video.published_at, "无发布时间");
    out.append("\n频道：");
    append_text_or(&mut out, &video.channel_title, "未知");
    out.append("\n字幕：");
    append_text_or(&mut out, &video.subtitles, "无字幕信息");
    out
}

/// Describes the videos of a request, numbered from one.
pub fn video_list(videos: &Vec<Video>) -> (r: String)
    ensures
        r@ == spec_video_list(videos@, videos@.len()),
{
    let mut out = String::new();
    let mut i: usize = 0;
    while i < videos.len()
        invariant
            i <= videos.len(),
            out@ == spec_video_list(videos@, i as nat),
        decreases videos.len() - i,
    {
        let entry = video_entry(&videos[i], i + 1);
        if i > 0 {
            out.append("\n\n");
        } else {
            proof {
                assert(Seq::<char>::empty() + entry@ =~= entry@);
            }
        }
        out.append(entry.as_str());
        i = i + 1;
    }
    out
}

/// Writes a batch request about `videos`, with the user's instructions or
/// the default ones.
pub fn build_batch_prompt(videos: &Vec<Video>, custom_prompt: Option<&str>) -> (r: String)
    ensures
        r@ == spec_batch_prompt(videos@, instructions_or(custom_prompt, DEFAULT_BATCH_PROMPT@)),
{
    let mut out = String::from_str(
        match custom_prompt {
            Some(text) => text,
            None => DEFAULT_BATCH_PROMPT,
        },
    );
    out.append(ANSWER_FORMAT);
    out.append(decimal_string_unsigned(videos.len() as u64).as_str());
    out.append(LIST_HEADING);
    out.append(video_list(videos).as_str());
    out
}

/// Writes a request about one video, with the user's instructions or the
/// default ones of the service.
pub fn build_single_prompt(
    title: &str,
    description: &str,
    custom_prompt: Option<&str>,
    provider: Provider,
) -> (r: String)
    ensures
        r@ == spec_single_prompt(
            title@,
            description@,
            instructions_or(custom_prompt, default_single_prompt(provider)),
        ),
{
    let mut out = String::from_str("视频标题：");
    out.append(title);
    out.append("\n视频描述：");
    out.append(description);
    out.append("\n\n");
    match custom_prompt {
        Some(text) => out.append(text),
        None => match provider {
            Provider::OpenAI => out.append(DEFAULT_SINGLE_PROMPT_OPENAI),
            Provider::Anthropic => out.append(DEFAULT_SINGLE_PROMPT_ANTHROPIC),
        },
    }
    out
}

/// What is sent to a classification service, whichever it is: where it
/// goes, the headers that identify the caller, and the one message.
#[derive(Debug, Clone)]
pub struct ClassifierRequest {
    /// The address that the request goes to.
    pub endpoint: String,
    /// The headers of the request, each a name and a value, in order.
    pub headers: Vec<(String, String)>,
    /// The model that is asked, as the caller names it.
    pub model: String,
    /// How many units of output the service may spend on its answer.
    pub max_tokens: u32,
    /// The sampling temperature in hundredths, where the service is given
    /// one.
    pub temperature: Option<u8>,
    /// The role in which the message is sent.
    pub role: String,
    /// The message.
    pub content: String,
}

/// The model of the first service that is asked.
pub const OPENAI_MODEL: &'static str = "gpt-3.5-turbo";

/// The sampling temperature that the first service is given, in
/// hundredths.
pub const OPENAI_TEMPERATURE: u8 = 30;

/// The version of its interface that the second service is asked for.
pub const ANTHROPIC_VERSION: &'static str = "2023-06-01";

/// The role in which every message is sent.
pub const USER_ROLE: &'static str = "user";

/// The address at which a service takes requests.
pub open spec fn endpoint_of(provider: Provider) -> Seq<char> {
    match provider {
        Provider::OpenAI => "https://api.openai.com/v1/chat/completions"@,
        Provider::Anthropic => "https://api.anthropic.com/v1/messages"@,
    }
}

/// The address at which a service takes requests.
pub fn endpoint_for(provider: Provider) -> (r: String)
    ensures
        r@ == endpoint_of(provider),
{
    match provider {
        Provider::OpenAI => String::from_str("https://api.openai.com/v1/chat/completions"),
        Provider::Anthropic => String::from_str("https://api.anthropic.com/v1/messages"),
    }
}

/// The headers of a request to a service, each a name and a value. The
/// first service takes the key as a bearer token, the second under a
/// header of its own beside the version of its interface; both are told
/// that the body is JSON.
pub open spec fn headers_of(provider: Provider, api_key: Seq<char>) -> Seq<(Seq<char>, Seq<char>)> {
    match provider {
        Provider::OpenAI => seq![
            ("Authorization"@, "Bearer "@ + api_key),
            ("Content-Type"@, "application/json"@),
        ],
        Provider::Anthropic => seq![
            ("x-api-key"@, api_key),
            ("anthropic-version"@, ANTHROPIC_VERSION@),
            ("Content-Type"@, "application/json"@),
        ],
    }
}

/// The names and values of `headers` as sequences of characters.
pub open spec fn header_views(headers: Seq<(String, String)>) -> Seq<(Seq<char>, Seq<char>)> {
    Seq::new(headers.len(), |i: int| (headers[i].0@, headers[i].1@))
}

/// The sampling temperature that a service is given, in hundredths.
pub open spec fn temperature_of(provider: Provider) -> Option<u8> {
    match provider {
        Provider::OpenAI => Some(OPENAI_TEMPERATURE),
        Provider::Anthropic => None,
    }
}

/// Whether `request` is addressed to the model `model` of `provider` on
/// behalf of the holder of `api_key`, with an output budget of
/// `max_tokens`.
pub open spec fn is_addressed(
    request: ClassifierRequest,
    provider: Provider,
    model: Seq<char>,
    api_key: Seq<char>,
    max_tokens: nat,
) -> bool {
    &&& request.endpoint@ == endpoint_of(provider)
    &&& header_views(request.headers@) == headers_of(provider, api_key)
    &&& request.model@ == model
    &&& request.max_tokens == max_tokens
    &&& request.temperature == temperature_of(provider)
    &&& request.role@ == USER_ROLE@
}

fn headers_for(provider: Provider, api_key: &str) -> (r: Vec<(String, String)>)
    ensures
        header_views(r@) == headers_of(provider, api_key@),
{
    let mut headers: Vec<(String, String)> = Vec::new();
    match provider {
        Provider::OpenAI => {
            let mut token = String::from_str("Bearer ");
            token.append(api_key);
            headers.push((String::from_str("Authorization"), token));
        },
        Provider::Anthropic => {
            headers.push((String::from_str("x-api-key"), String::from_str(api_key)));
            headers.push(
                (String::from_str("anthropic-version"), String::from_str(ANTHROPIC_VERSION)),
            );
        },
    }
    headers.push((String::from_str("Content-Type"), String::from_str("application/json")));
    proof {
        assert(header_views(headers@) =~= headers_of(provider, api_key@));
    }
    headers
}

fn request_to(
    provider: Provider,
    model: &str,
    api_key: &str,
    max_tokens: u32,
    content: String,
) -> (r: ClassifierRequest)
    ensures
        is_addressed(r, provider, model@, api_key@, max_tokens as nat),
        r.content == content,
{
    ClassifierRequest {
        endpoint: endpoint_for(provider),
        headers: headers_for(provider, api_key),
        model: String::from_str(model),
        max_tokens,
        temperature: match provider {
            Provider::OpenAI => Some(OPENAI_TEMPERATURE),
            Provider::Anthropic => None,
        },
        role: String::from_str(USER_ROLE),
        content,
    }
}

/// The request that asks the model `model` of `provider` about a batch of
/// videos. Its output budget grows with the number of videos.
pub fn batch_request(
    provider: Provider,
    model: &str,
    api_key: &str,
    videos: &Vec<Video>,
    custom_prompt: Option<&str>,
) -> (r: ClassifierRequest)
    ensures
        is_addressed(r, provider, model@, api_key@, spec_required_tokens(videos@.len())),
        r.content@ == spec_batch_prompt(
            videos@,
            instructions_or(custom_prompt, DEFAULT_BATCH_PROMPT@),
        ),
{
    request_to(
        provider,
        model,
        api_key,
        calculate_required_tokens(videos.len()),
        build_batch_prompt(videos, custom_prompt),
    )
}

/// The output budget of a request about one video.
pub const SINGLE_REQUEST_TOKENS: u32 = 500;

/// The request that asks the model `model` of `provider` about one video.
pub fn single_request(
    provider: Provider,
    model: &str,
    api_key: &str,
    title: &str,
    description: &str,
    custom_prompt: Option<&str>,
) -> (r: ClassifierRequest)
    ensures
        is_addressed(r, provider, model@, api_key@, SINGLE_REQUEST_TOKENS as nat),
        r.content@ == spec_single_prompt(
            title@,
            description@,
            instructions_or(custom_prompt, default_single_prompt(provider)),
        ),
{
    request_to(
        provider,
        model,
        api_key,
        SINGLE_REQUEST_TOKENS,
        build_single_prompt(title, description, custom_prompt, provider),
    )
}

} // verus!
