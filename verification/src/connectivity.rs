//! Trying out the configured keys: what is asked of each service, and how
//! its answer is reported.

use crate::json::{decode_json, json_document, Json};
use crate::text::{decimal_digits, decimal_string_unsigned};
use vstd::prelude::*;

verus! {

/// The services whose keys can be tried out.
#[derive(Debug, Clone, Copy, PartialEq, Eq, Structural)]
pub enum Service {
    YouTube,
    OpenAI,
    Anthropic,
}

/// How a try went: whether the service accepted the key, and what there is
/// to say about it.
#[derive(Debug, Clone)]
pub struct ConnectionReport {
    pub success: bool,
    pub text: String,
}

/// What is done about the key of one service.
#[derive(Debug)]
pub enum KeyCheck {
    /// The caller has not asked about this service.
    NotAsked,
    /// The caller asked but gave an empty key: this is reported.
    NotProvided(ConnectionReport),
    /// The key is tried out.
    Try,
}

/// The report of a key that was asked about but is empty.
pub open spec fn not_provided_text(service: Service) -> Seq<char> {
    match service {
        Service::YouTube => "YouTube API key not provided"@,
        Service::OpenAI => "OpenAI API key not provided"@,
        Service::Anthropic => "Anthropic API key not provided"@,
    }
}

/// Decides what is done about the key of `service`.
pub fn check_key(service: Service, key: Option<&str>) -> (r: KeyCheck)
    ensures
        key is None ==> r is NotAsked,
        key matches Some(k) && k@.len() > 0 ==> r is Try,
        key matches Some(k) && k@.len() == 0 ==> (r matches KeyCheck::NotProvided(report)
            && !report.success && report.text@ == not_provided_text(service)),
{
    match key {
        None => KeyCheck::NotAsked,
        Some(k) => {
            if !k.is_empty() {
                KeyCheck::Try
            } else {
                let text = match service {
                    Service::YouTube => String::from_str("YouTube API key not provided"),
                    Service::OpenAI => String::from_str("OpenAI API key not provided"),
                    Service::Anthropic => String::from_str("Anthropic API key not provided"),
                };
                KeyCheck::NotProvided(ConnectionReport { success: false, text })
            }
        },
    }
}

/// The address that tries out a key of the video provider.
pub fn youtube_test_url(api_key: &str) -> (r: String)
    ensures
        r@
            == "https://www.googleapis.com/youtube/v3/videos?part=snippet&chart=mostPopular&maxResults=1&key="@
            + api_key@,
{
    let mut out = String::from_str(
        "https://www.googleapis.com/youtube/v3/videos?part=snippet&chart=mostPopular&maxResults=1&key=",
    );
    out.append(api_key);
    out
}

/// The address that tries out a key of the first classification service.
pub const OPENAI_TEST_URL: &'static str = "https://api.openai.com/v1/models";

/// What is said of the quota that the video provider reports as left, or
/// of its silence about it.
pub open spec fn quota_text(remaining: Option<&str>) -> Seq<char> {
    match remaining {
        Some(n) => "Remaining quota: "@ + n@,
        None => "Quota info not available"@,
    }
}

/// What the answer of the video provider means. `status` is the number of
/// the answer's status, `status_text` the status as it is shown, and
/// `remaining` the quota that the answer reports as left. A status from 200
/// to 299 is a success. 403 means that the quota is used up or the key
/// wrong, 400 that the request was wrong; neither is worth another try.
pub open spec fn spec_youtube_report(
    status: u16,
    status_text: Seq<char>,
    remaining: Option<&str>,
) -> (bool, Seq<char>) {
    if 200 <= status <= 299 {
        (true, "YouTube API connection successful. "@ + quota_text(remaining))
    } else if status == 403 {
        (false, "YouTube API quota exceeded or invalid API key"@)
    } else if status == 400 {
        (false, "YouTube API request parameters error"@)
    } else {
        (false, "YouTube API error: "@ + status_text)
    }
}

/// Reports the answer of the video provider to a try of its key.
pub fn youtube_report(status: u16, status_text: &str, remaining: Option<&str>) -> (r:
    ConnectionReport)
    ensures
        (r.success, r.text@) == spec_youtube_report(status, status_text@, remaining),
{
    if 200 <= status && status <= 299 {
        let mut text = String::from_str("YouTube API connection successful. ");
        match remaining {
            Some(n) => {
                let mut quota = String::from_str("Remaining quota: ");
                quota.append(n);
                text.append(quota.as_str());
            },
            None => {
                text.append("Quota info not available");
            },
        }
        ConnectionReport { success: true, text }
    } else if status == 403 {
        ConnectionReport {
            success: false,
            text: String::from_str("YouTube API quota exceeded or invalid API key"),
        }
    } else if status == 400 {
        ConnectionReport {
            success: false,
            text: String::from_str("YouTube API request parameters error"),
        }
    } else {
        let mut text = String::from_str("YouTube API error: ");
        text.append(status_text);
        ConnectionReport { success: false, text }
    }
}

/// How many models a list of models names: the length of the array under
/// `data`, and zero where there is none.
pub open spec fn model_count(doc: Option<Json>) -> nat {
    match doc {
        Some(d) => match d.spec_member("data"@) {
            Some(list) => match list.spec_items() {
                Some(items) => items.len(),
                None => 0,
            },
            None => 0,
        },
        None => 0,
    }
}

/// What the answer of the first classification service means: a success
/// names the number of models that the key can use.
pub open spec fn spec_openai_report(
    status: u16,
    status_text: Seq<char>,
    doc: Option<Json>,
) -> (bool, Seq<char>) {
    if 200 <= status <= 299 {
        (
            true,
            "OpenAI API connection successful. Available models: "@ + decimal_digits(
                model_count(doc),
            ),
        )
    } else {
        (false, "OpenAI API error: "@ + status_text)
    }
}

/// Reports the answer of the first classification service, given the
/// document of its body.
pub fn openai_report_of(status: u16, status_text: &str, doc: &Option<Json>) -> (r: ConnectionReport)
    ensures
        (r.success, r.text@) == spec_openai_report(status, status_text@, *doc),
{
    if 200 <= status && status <= 299 {
        let count: usize = match doc {
            Some(d) => match d.member("data") {
                Some(list) => match list.items() {
                    Some(items) => items.len(),
                    None => 0,
                },
                None => 0,
            },
            None => 0,
        };
        let mut text = String::from_str("OpenAI API connection successful. Available models: ");
        text.append(decimal_string_unsigned(count as u64).as_str());
        ConnectionReport { success: true, text }
    } else {
        let mut text = String::from_str("OpenAI API error: ");
        text.append(status_text);
        ConnectionReport { success: false, text }
    }
}

/// Reports the answer of the first classification service to a try of its
/// key, given the text of its body.
pub fn openai_report(status: u16, status_text: &str, body: &str) -> (r: ConnectionReport)
    ensures
        (r.success, r.text@) == spec_openai_report(status, status_text@, json_document(body@)),
{
    let doc = decode_json(body);
    openai_report_of(status, status_text, &doc)
}

/// The message of an error that the second classification service
/// describes under `error` and there under `message`; the words
/// `Unknown error` where it describes none.
pub open spec fn error_message(doc: Option<Json>) -> Seq<char> {
    match doc {
        Some(d) => match d.spec_member("error"@) {
            Some(error) => match error.spec_member("message"@) {
                Some(message) => match message.spec_text() {
                    Some(text) => text,
                    None => "Unknown error"@,
                },
                None => "Unknown error"@,
            },
            None => "Unknown error"@,
        },
        None => "Unknown error"@,
    }
}

/// What the answer of the second classification service means.
pub open spec fn spec_anthropic_report(status: u16, doc: Option<Json>) -> (bool, Seq<char>) {
    if 200 <= status <= 299 {
        (true, "Anthropic API connection successful"@)
    } else {
        (false, "Anthropic API error: "@ + error_message(doc))
    }
}

/// Reports the answer of the second classification service, given the
/// document of its body.
pub fn anthropic_report_of(status: u16, doc: &Option<Json>) -> (r: ConnectionReport)
    ensures
        (r.success, r.text@) == spec_anthropic_report(status, *doc),
{
    if 200 <= status && status <= 299 {
        return ConnectionReport {
            success: true,
            text: String::from_str("Anthropic API connection successful"),
        };
    }
    let described: Option<&String> = match doc {
        Some(d) => match d.member("error") {
            Some(error) => match error.member("message") {
                Some(message) => message.as_text(),
                None => None,
            },
            None => None,
        },
        None => None,
    };
    let mut text = String::from_str("Anthropic API error: ");
    match described {
        Some(message) => text.append(message.as_str()),
        None => text.append("Unknown error"),
    }
    ConnectionReport { success: false, text }
}

/// Reports the answer of the second classification service to a try of
/// its key, given the text of its body.
pub fn anthropic_report(status: u16, body: &str) -> (r: ConnectionReport)
    ensures
        (r.success, r.text@) == spec_anthropic_report(status, json_document(body@)),
{
    let doc = decode_json(body);
    anthropic_report_of(status, &doc)
}

/// What a try of a key says to the second classification service, and how
/// much it may answer.
pub const ANTHROPIC_TEST_MESSAGE: &'static str = "Hello";

/// How many units of output the answer to a try may take.
pub const ANTHROPIC_TEST_TOKENS: u32 = 10;

} // verus!
