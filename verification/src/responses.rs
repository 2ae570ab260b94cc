//! Reading what the services answer: search results, details, caption
//! tracks, and the text of a classifier's answer. An answer of another
//! shape than the expected one is not read at all.

use crate::batch::Provider;
use crate::captions::CaptionTrack;
use crate::json::{decode_json, json_document, Json};
use crate::search::{SearchItem, VideoDetail};
use crate::text::{parse_i64, spec_parse_i64};
use vstd::prelude::*;

verus! {

/// Whether an object holds a whole number under `key` that fits in `i32`.
pub open spec fn spec_has_i32(object: Json, key: Seq<char>) -> bool {
    match object.spec_member(key) {
        Some(Json::Number(text)) => match spec_parse_i64(text@) {
            Some(n) => i32::MIN <= n <= i32::MAX,
            None => false,
        },
        _ => false,
    }
}

/// Whether an object holds a whole number under `key` that fits in `i32`.
pub fn has_i32(object: &Json, key: &str) -> (r: bool)
    ensures
        r == spec_has_i32(*object, key@),
{
    match object.member(key) {
        Some(Json::Number(text)) => match parse_i64(text.as_str()) {
            Some(n) => -2147483648 <= n && n <= 2147483647,
            None => false,
        },
        _ => false,
    }
}

/// The address of one picture of a search result: that under `url` of the
/// object under `key`. There is none where the picture is absent; the outer
/// result is none where what stands there is no picture.
pub open spec fn spec_thumbnail(thumbnails: Json, key: Seq<char>) -> Option<Option<String>> {
    match thumbnails.spec_optional_object(key) {
        Some(Some(picture)) => match picture.spec_required_text("url"@) {
            Some(url) => Some(Some(url)),
            None => None,
        },
        Some(None) => Some(None),
        None => None,
    }
}

fn thumbnail(thumbnails: &Json, key: &str) -> (r: Option<Option<String>>)
    ensures
        r == spec_thumbnail(*thumbnails, key@),
{
    match thumbnails.optional_object(key) {
        Some(Some(picture)) => match picture.required_text("url") {
            Some(url) => Some(Some(url)),
            None => None,
        },
        Some(None) => Some(None),
        None => None,
    }
}

/// The search result that a value describes: an object with the video's
/// identifier under `id` and, under `snippet`, its title, description,
/// channel, time of publication and pictures.
pub open spec fn spec_search_item(value: Json) -> Option<SearchItem> {
    match (value.spec_required_object("id"@), value.spec_required_object("snippet"@)) {
        (Some(id), Some(snippet)) => match (
            id.spec_required_text("videoId"@),
            snippet.spec_required_text("title"@),
            snippet.spec_required_text("description"@),
            snippet.spec_required_text("channelTitle"@),
            snippet.spec_required_text("publishedAt"@),
            snippet.spec_required_object("thumbnails"@),
        ) {
            (
                Some(video_id),
                Some(title),
                Some(description),
                Some(channel_title),
                Some(published_at),
                Some(thumbnails),
            ) => match (spec_thumbnail(thumbnails, "medium"@), spec_thumbnail(thumbnails, "high"@)) {
                (Some(thumbnail_medium), Some(thumbnail_high)) => Some(
                    SearchItem {
                        video_id,
                        title,
                        description,
                        channel_title,
                        published_at,
                        thumbnail_medium,
                        thumbnail_high,
                    },
                ),
                _ => None,
            },
            _ => None,
        },
        _ => None,
    }
}

/// Reads one search result.
pub fn search_item_from(value: &Json) -> (r: Option<SearchItem>)
    ensures
        r == spec_search_item(*value),
{
    let id = value.required_object("id")?;
    let snippet = value.required_object("snippet")?;
    let video_id = id.required_text("videoId")?;
    let title = snippet.required_text("title")?;
    let description = snippet.required_text("description")?;
    let channel_title = snippet.required_text("channelTitle")?;
    let published_at = snippet.required_text("publishedAt")?;
    let thumbnails = snippet.required_object("thumbnails")?;
    let thumbnail_medium = thumbnail(thumbnails, "medium")?;
    let thumbnail_high = thumbnail(thumbnails, "high")?;
    Some(
        SearchItem {
            video_id,
            title,
            description,
            channel_title,
            published_at,
            thumbnail_medium,
            thumbnail_high,
        },
    )
}

/// The search results that a list of values describes, if every one of
/// them describes one.
pub open spec fn spec_search_items(values: Seq<Json>) -> Option<Seq<SearchItem>>
    decreases values.len(),
{
    if values.len() == 0 {
        Some(Seq::empty())
    } else {
        match (spec_search_items(values.drop_last()), spec_search_item(values.last())) {
            (Some(before), Some(item)) => Some(before.push(item)),
            _ => None,
        }
    }
}

/// The results of a search: those under `items`, in their order. The answer
/// must also state, under `pageInfo`, how many results there are in all.
pub open spec fn spec_search_response(doc: Option<Json>) -> Option<Seq<SearchItem>> {
    match doc {
        Some(d) => match (d.spec_required_items("items"@), d.spec_required_object("pageInfo"@)) {
            (Some(values), Some(page)) => if spec_has_i32(page, "totalResults"@) {
                spec_search_items(values)
            } else {
                None
            },
            _ => None,
        },
        None => None,
    }
}

proof fn lemma_search_items_prefix(values: Seq<Json>, n: int)
    requires
        0 <= n <= values.len(),
        spec_search_items(values.take(n)) is None,
    ensures
        spec_search_items(values) is None,
    decreases values.len() - n,
{
    if n < values.len() {
        assert(values.take(n + 1).drop_last() =~= values.take(n));
        lemma_search_items_prefix(values, n + 1);
    } else {
        assert(values.take(n) =~= values);
    }
}

/// Reads the results of a search from the document of the answer.
#[verifier::loop_isolation(false)]
pub fn search_items_from(doc: &Option<Json>) -> (r: Option<Vec<SearchItem>>)
    ensures
        r matches Some(items) ==> spec_search_response(*doc) == Some(items@),
        r is None ==> spec_search_response(*doc) is None,
{
    let d = match doc {
        Some(d) => d,
        None => {
            return None;
        },
    };
    let values = d.required_items("items")?;
    let page = d.required_object("pageInfo")?;
    if !has_i32(page, "totalResults") {
        return None;
    }
    let mut out: Vec<SearchItem> = Vec::new();
    let mut i: usize = 0;
    while i < values.len()
        invariant
            i <= values.len(),
            spec_search_items(values@.take(i as int)) == Some(out@),
        decreases values.len() - i,
    {
        proof {
            assert(values@.take(i + 1).drop_last() =~= values@.take(i as int));
            assert(values@.take(i + 1).last() == values@[i as int]);
        }
        match search_item_from(&values[i]) {
            Some(item) => {
                out.push(item);
            },
            None => {
                proof {
                    lemma_search_items_prefix(values@, i + 1);
                }
                return None;
            },
        }
        i = i + 1;
    }
    proof {
        assert(values@.take(values.len() as int) =~= values@);
    }
    Some(out)
}

/// Reads the results of a search from the text of the answer.
pub fn parse_search_response(body: &str) -> (r: Option<Vec<SearchItem>>)
    ensures
        r matches Some(items) ==> spec_search_response(json_document(body@)) == Some(items@),
        r is None ==> spec_search_response(json_document(body@)) is None,
{
    let doc = decode_json(body);
    search_items_from(&doc)
}

/// Whether the optional part `snippet` of a video's details has the
/// expected shape: where it names a localized title, it names a localized
/// description too.
pub open spec fn spec_detail_snippet_ok(value: Json) -> bool {
    match value.spec_optional_object("snippet"@) {
        Some(Some(snippet)) => match snippet.spec_optional_object("localized"@) {
            Some(Some(localized)) => localized.spec_required_text("title"@) is Some
                && localized.spec_required_text("description"@) is Some,
            Some(None) => true,
            None => false,
        },
        Some(None) => true,
        None => false,
    }
}

/// The views and likes that the optional part `statistics` of a video's
/// details states, each as text.
pub open spec fn spec_detail_counts(value: Json) -> Option<(Option<String>, Option<String>)> {
    match value.spec_optional_object("statistics"@) {
        Some(Some(statistics)) => match (
            statistics.spec_optional_text("viewCount"@),
            statistics.spec_optional_text("likeCount"@),
        ) {
            (Some(views), Some(likes)) => Some((views, likes)),
            _ => None,
        },
        Some(None) => Some((None, None)),
        None => None,
    }
}

/// The length that the optional part `contentDetails` of a video's details
/// states, as a duration token.
pub open spec fn spec_detail_duration(value: Json) -> Option<Option<String>> {
    match value.spec_optional_object("contentDetails"@) {
        Some(Some(content)) => match content.spec_required_text("duration"@) {
            Some(token) => Some(Some(token)),
            None => None,
        },
        Some(None) => Some(None),
        None => None,
    }
}

/// The details that a value describes: an object, all of whose parts may
/// be absent.
pub open spec fn spec_video_detail(value: Json) -> Option<VideoDetail> {
    if value is Object && spec_detail_snippet_ok(value) {
        match (
            value.spec_optional_text("id"@),
            spec_detail_counts(value),
            spec_detail_duration(value),
        ) {
            (Some(id), Some(counts), Some(duration)) => Some(
                VideoDetail { id, view_count: counts.0, like_count: counts.1, duration },
            ),
            _ => None,
        }
    } else {
        None
    }
}

fn detail_snippet_ok(value: &Json) -> (r: bool)
    ensures
        r == spec_detail_snippet_ok(*value),
{
    match value.optional_object("snippet") {
        Some(Some(snippet)) => match snippet.optional_object("localized") {
            Some(Some(localized)) => {
                let title = localized.required_text("title");
                let description = localized.required_text("description");
                title.is_some() && description.is_some()
            },
            Some(None) => true,
            None => false,
        },
        Some(None) => true,
        None => false,
    }
}

fn detail_counts(value: &Json) -> (r: Option<(Option<String>, Option<String>)>)
    ensures
        r == spec_detail_counts(*value),
{
    match value.optional_object("statistics") {
        Some(Some(statistics)) => {
            let views = statistics.optional_text("viewCount")?;
            let likes = statistics.optional_text("likeCount")?;
            Some((views, likes))
        },
        Some(None) => Some((None, None)),
        None => None,
    }
}

fn detail_duration(value: &Json) -> (r: Option<Option<String>>)
    ensures
        r == spec_detail_duration(*value),
{
    match value.optional_object("contentDetails") {
        Some(Some(content)) => match content.required_text("duration") {
            Some(token) => Some(Some(token)),
            None => None,
        },
        Some(None) => Some(None),
        None => None,
    }
}

/// Reads the details of one video.
pub fn video_detail_from(value: &Json) -> (r: Option<VideoDetail>)
    ensures
        r == spec_video_detail(*value),
{
    match value {
        Json::Object(_) => {},
        _ => {
            return None;
        },
    }
    if !detail_snippet_ok(value) {
        return None;
    }
    let id = value.optional_text("id")?;
    let counts = detail_counts(value)?;
    let duration = detail_duration(value)?;
    Some(VideoDetail { id, view_count: counts.0, like_count: counts.1, duration })
}

/// The details that a list of values describes, if every one of them
/// describes some.
pub open spec fn spec_video_details(values: Seq<Json>) -> Option<Seq<VideoDetail>>
    decreases values.len(),
{
    if values.len() == 0 {
        Some(Seq::empty())
    } else {
        match (spec_video_details(values.drop_last()), spec_video_detail(values.last())) {
            (Some(before), Some(detail)) => Some(before.push(detail)),
            _ => None,
        }
    }
}

/// The details of the videos asked about: those under `items`.
pub open spec fn spec_details_response(doc: Option<Json>) -> Option<Seq<VideoDetail>> {
    match doc {
        Some(d) => match d.spec_required_items("items"@) {
            Some(values) => spec_video_details(values),
            None => None,
        },
        None => None,
    }
}

proof fn lemma_video_details_prefix(values: Seq<Json>, n: int)
    requires
        0 <= n <= values.len(),
        spec_video_details(values.take(n)) is None,
    ensures
        spec_video_details(values) is None,
    decreases values.len() - n,
{
    if n < values.len() {
        assert(values.take(n + 1).drop_last() =~= values.take(n));
        lemma_video_details_prefix(values, n + 1);
    } else {
        assert(values.take(n) =~= values);
    }
}

/// Reads the details of the videos asked about from the document of the
/// answer.
#[verifier::loop_isolation(false)]
pub fn video_details_from(doc: &Option<Json>) -> (r: Option<Vec<VideoDetail>>)
    ensures
        r matches Some(details) ==> spec_details_response(*doc) == Some(details@),
        r is None ==> spec_details_response(*doc) is None,
{
    let d = match doc {
        Some(d) => d,
        None => {
            return None;
        },
    };
    let values = d.required_items("items")?;
    let mut out: Vec<VideoDetail> = Vec::new();
    let mut i: usize = 0;
    while i < values.len()
        invariant
            i <= values.len(),
            spec_video_details(values@.take(i as int)) == Some(out@),
        decreases values.len() - i,
    {
        proof {
            assert(values@.take(i + 1).drop_last() =~= values@.take(i as int));
            assert(values@.take(i + 1).last() == values@[i as int]);
        }
        match video_detail_from(&values[i]) {
            Some(detail) => {
                out.push(detail);
            },
            None => {
                proof {
                    lemma_video_details_prefix(values@, i + 1);
                }
                return None;
            },
        }
        i = i + 1;
    }
    proof {
        assert(values@.take(values.len() as int) =~= values@);
    }
    Some(out)
}

/// Reads the details of the videos asked about from the text of the answer.
pub fn parse_details_response(body: &str) -> (r: Option<Vec<VideoDetail>>)
    ensures
        r matches Some(details) ==> spec_details_response(json_document(body@)) == Some(
            details@,
        ),
        r is None ==> spec_details_response(json_document(body@)) is None,
{
    let doc = decode_json(body);
    video_details_from(&doc)
}

/// The caption track that a value describes: an object with the track's
/// language, kind and name under `snippet`.
pub open spec fn spec_caption_track(value: Json) -> Option<CaptionTrack> {
    match value.spec_required_object("snippet"@) {
        Some(snippet) => match (
            snippet.spec_required_text("language"@),
            snippet.spec_required_text("trackKind"@),
            snippet.spec_required_text("name"@),
        ) {
            (Some(language), Some(track_kind), Some(name)) => Some(
                CaptionTrack { language, track_kind, name },
            ),
            _ => None,
        },
        None => None,
    }
}

/// Reads one caption track.
pub fn caption_track_from(value: &Json) -> (r: Option<CaptionTrack>)
    ensures
        r == spec_caption_track(*value),
{
    let snippet = value.required_object("snippet")?;
    let language = snippet.required_text("language")?;
    let track_kind = snippet.required_text("trackKind")?;
    let name = snippet.required_text("name")?;
    Some(CaptionTrack { language, track_kind, name })
}

/// The caption tracks that a list of values describes, if every one of
/// them describes one.
pub open spec fn spec_caption_tracks(values: Seq<Json>) -> Option<Seq<CaptionTrack>>
    decreases values.len(),
{
    if values.len() == 0 {
        Some(Seq::empty())
    } else {
        match (spec_caption_tracks(values.drop_last()), spec_caption_track(values.last())) {
            (Some(before), Some(track)) => Some(before.push(track)),
            _ => None,
        }
    }
}

/// The caption tracks of a video: those under `items`.
pub open spec fn spec_captions_response(doc: Option<Json>) -> Option<Seq<CaptionTrack>> {
    match doc {
        Some(d) => match d.spec_required_items("items"@) {
            Some(values) => spec_caption_tracks(values),
            None => None,
        },
        None => None,
    }
}

proof fn lemma_caption_tracks_prefix(values: Seq<Json>, n: int)
    requires
        0 <= n <= values.len(),
        spec_caption_tracks(values.take(n)) is None,
    ensures
        spec_caption_tracks(values) is None,
    decreases values.len() - n,
{
    if n < values.len() {
        assert(values.take(n + 1).drop_last() =~= values.take(n));
        lemma_caption_tracks_prefix(values, n + 1);
    } else {
        assert(values.take(n) =~= values);
    }
}

/// Reads the caption tracks of a video from the document of the answer.
#[verifier::loop_isolation(false)]
pub fn caption_tracks_from(doc: &Option<Json>) -> (r: Option<Vec<CaptionTrack>>)
    ensures
        r matches Some(tracks) ==> spec_captions_response(*doc) == Some(tracks@),
        r is None ==> spec_captions_response(*doc) is None,
{
    let d = match doc {
        Some(d) => d,
        None => {
            return None;
        },
    };
    let values = d.required_items("items")?;
    let mut out: Vec<CaptionTrack> = Vec::new();
    let mut i: usize = 0;
    while i < values.len()
        invariant
            i <= values.len(),
            spec_caption_tracks(values@.take(i as int)) == Some(out@),
        decreases values.len() - i,
    {
        proof {
            assert(values@.take(i + 1).drop_last() =~= values@.take(i as int));
            assert(values@.take(i + 1).last() == values@[i as int]);
        }
        match caption_track_from(&values[i]) {
            Some(track) => {
                out.push(track);
            },
            None => {
                proof {
                    lemma_caption_tracks_prefix(values@, i + 1);
                }
                return None;
            },
        }
        i = i + 1;
    }
    proof {
        assert(values@.take(values.len() as int) =~= values@);
    }
    Some(out)
}

/// Reads the caption tracks of a video from the text of the answer.
pub fn parse_captions_response(body: &str) -> (r: Option<Vec<CaptionTrack>>)
    ensures
        r matches Some(tracks) ==> spec_captions_response(json_document(body@)) == Some(tracks@),
        r is None ==> spec_captions_response(json_document(body@)) is None,
{
    let doc = decode_json(body);
    caption_tracks_from(&doc)
}

/// Why the answer of a classification service yields no text.
#[derive(Debug, Clone, Copy, PartialEq, Eq, Structural)]
pub enum AnswerError {
    /// The answer has another shape than that of the service.
    Malformed,
    /// The answer has the shape of the service but holds no message.
    Empty,
}

/// The text that one message of an answer carries. With the first service
/// it stands under `message` and there under `content`, beside the role of
/// the speaker; with the second it stands under `text`.
pub open spec fn spec_message_text(provider: Provider, value: Json) -> Option<String> {
    match provider {
        Provider::OpenAI => match value.spec_required_object("message"@) {
            Some(message) => match (
                message.spec_required_text("role"@),
                message.spec_required_text("content"@),
            ) {
                (Some(role), Some(content)) => Some(content),
                _ => None,
            },
            None => None,
        },
        Provider::Anthropic => value.spec_required_text("text"@),
    }
}

/// Reads the text of one message of an answer.
pub fn message_text_from(provider: Provider, value: &Json) -> (r: Option<String>)
    ensures
        r == spec_message_text(provider, *value),
{
    match provider {
        Provider::OpenAI => {
            let message = value.required_object("message")?;
            let role = message.required_text("role");
            let content = message.required_text("content");
            if role.is_some() {
                content
            } else {
                None
            }
        },
        Provider::Anthropic => value.required_text("text"),
    }
}

/// Whether every one of `values` is a message of the service.
pub open spec fn spec_all_messages(provider: Provider, values: Seq<Json>) -> bool {
    forall|i: int| 0 <= i < values.len() ==> spec_message_text(provider, #[trigger] values[i]) is Some
}

/// The key under which a service lists the messages of its answer.
pub open spec fn messages_key(provider: Provider) -> Seq<char> {
    match provider {
        Provider::OpenAI => "choices"@,
        Provider::Anthropic => "content"@,
    }
}

/// The text of a classification service's answer, whichever service it
/// is: that of the first message. The answer is malformed where it is no
/// document, does not list its messages or lists something that is no
/// message; it is empty where it lists no message at all.
pub open spec fn spec_answer_text(provider: Provider, doc: Option<Json>) -> Result<
    String,
    AnswerError,
> {
    match doc {
        Some(d) => match d.spec_required_items(messages_key(provider)) {
            Some(values) => if !spec_all_messages(provider, values) {
                Err(AnswerError::Malformed)
            } else if values.len() == 0 {
                Err(AnswerError::Empty)
            } else {
                Ok(spec_message_text(provider, values[0])->0)
            },
            None => Err(AnswerError::Malformed),
        },
        None => Err(AnswerError::Malformed),
    }
}

/// Reads the text of a classification service's answer from the document
/// of its body.
#[verifier::loop_isolation(false)]
pub fn answer_text_from(provider: Provider, doc: &Option<Json>) -> (r: Result<String, AnswerError>)
    ensures
        r == spec_answer_text(provider, *doc),
{
    let d = match doc {
        Some(d) => d,
        None => {
            return Err(AnswerError::Malformed);
        },
    };
    let listed = match provider {
        Provider::OpenAI => d.required_items("choices"),
        Provider::Anthropic => d.required_items("content"),
    };
    let values = match listed {
        Some(values) => values,
        None => {
            return Err(AnswerError::Malformed);
        },
    };
    let mut first: Option<String> = None;
    let mut i: usize = 0;
    while i < values.len()
        invariant
            i <= values.len(),
            spec_all_messages(provider, values@.take(i as int)),
            i == 0 ==> first is None,
            i > 0 ==> first == spec_message_text(provider, values@[0]),
        decreases values.len() - i,
    {
        match message_text_from(provider, &values[i]) {
            Some(text) => {
                if i == 0 {
                    first = Some(text);
                }
            },
            None => {
                return Err(AnswerError::Malformed);
            },
        }
        proof {
            assert forall|j: int| 0 <= j < i + 1 implies spec_message_text(
                provider,
                #[trigger] values@.take(i + 1)[j],
            ) is Some by {
                if j < i {
                    assert(values@.take(i as int)[j] == values@[j]);
                }
            }
        }
        i = i + 1;
    }
    proof {
        assert(values@.take(values.len() as int) =~= values@);
    }
    match first {
        Some(text) => Ok(text),
        None => Err(AnswerError::Empty),
    }
}

/// Reads the text of a classification service's answer from its body.
pub fn parse_answer(provider: Provider, body: &str) -> (r: Result<String, AnswerError>)
    ensures
        r == spec_answer_text(provider, json_document(body@)),
{
    let doc = decode_json(body);
    answer_text_from(provider, &doc)
}

/// What is said of an answer that yields no text.
pub open spec fn spec_answer_error_text(provider: Provider, error: AnswerError) -> Seq<char> {
    match (provider, error) {
        (Provider::OpenAI, AnswerError::Malformed) => "Failed to parse OpenAI response"@,
        (Provider::OpenAI, AnswerError::Empty) => "No response from OpenAI"@,
        (Provider::Anthropic, AnswerError::Malformed) => "Failed to parse Anthropic response"@,
        (Provider::Anthropic, AnswerError::Empty) => "No response from Anthropic"@,
    }
}

/// Says why an answer yields no text.
pub fn answer_error_text(provider: Provider, error: AnswerError) -> (r: String)
    ensures
        r@ == spec_answer_error_text(provider, error),
{
    match provider {
        Provider::OpenAI => match error {
            AnswerError::Malformed => String::from_str("Failed to parse OpenAI response"),
            AnswerError::Empty => String::from_str("No response from OpenAI"),
        },
        Provider::Anthropic => match error {
            AnswerError::Malformed => String::from_str("Failed to parse Anthropic response"),
            AnswerError::Empty => String::from_str("No response from Anthropic"),
        },
    }
}

} // verus!
