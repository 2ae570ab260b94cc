//! Searching the video provider: the addresses that are asked, and how the
//! answers are put together into videos.

use crate::clock::now_rfc3339;
use crate::duration::{parse_youtube_duration, spec_parse_duration};
use crate::model::Video;
use crate::text::{
    decimal, decimal_string, parse_i64, same_text, spec_parse_i64,
};
use vstd::prelude::*;
use vstd::string::StringSliceAdditionalSpecFns;

verus! {

/// The most results that one search may ask the provider for.
pub const MAX_SEARCH_RESULTS: i32 = 50;

/// Whether a byte stands for itself in an address: a letter or digit of
/// ASCII, or one of `-`, `.`, `_` and `~`.
pub open spec fn is_unreserved(b: u8) -> bool {
    ||| 0x30 <= b <= 0x39
    ||| 0x41 <= b <= 0x5a
    ||| 0x61 <= b <= 0x7a
    ||| b == 0x2d
    ||| b == 0x2e
    ||| b == 0x5f
    ||| b == 0x7e
}

/// The hexadecimal digit for `d`, which is below sixteen, in upper case.
pub open spec fn hex_digit(d: int) -> char {
    if d < 10 {
        (48 + d) as char
    } else {
        (55 + d) as char
    }
}

/// How one byte is written in an address: as itself, or as a percent sign
/// and its two hexadecimal digits.
pub open spec fn percent_encoded_byte(b: u8) -> Seq<char> {
    if is_unreserved(b) {
        seq![b as char]
    } else {
        seq!['%', hex_digit(b as int / 16), hex_digit(b as int % 16)]
    }
}

/// How a run of bytes is written in an address.
pub open spec fn percent_encoded(bytes: Seq<u8>) -> Seq<char>
    decreases bytes.len(),
{
    if bytes.len() == 0 {
        Seq::empty()
    } else {
        percent_encoded(bytes.drop_last()) + percent_encoded_byte(bytes.last())
    }
}

/// Calls `urlencoding::encode`, which writes each byte of the text's UTF-8
/// form as itself if it is an ASCII letter, a digit or one of `-`, `.`, `_`
/// and `~`, and else as `%` and two upper-case hexadecimal digits.
#[verifier::external_body]
pub(crate) fn url_encode(text: &str) -> (r: String)
    ensures
        r@ == percent_encoded(text.spec_bytes()),
{
    urlencoding::encode(text).into_owned()
}

/// The number of results that a search asks the provider for.
pub open spec fn result_cap(max_results: i32) -> i32 {
    if max_results < MAX_SEARCH_RESULTS {
        max_results
    } else {
        MAX_SEARCH_RESULTS
    }
}

/// The address of a search for `query`: videos only, safe search, one
/// category, embeddable, in English and for the United States, with at
/// most `max_results` results and never more than fifty.
pub open spec fn spec_search_url(query: &str, max_results: i32, api_key: Seq<char>) -> Seq<char> {
    "https://www.googleapis.com/youtube/v3/search?part=snippet&type=video&q="@ + percent_encoded(
        query.spec_bytes(),
    ) + "&maxResults="@ + decimal(result_cap(max_results) as int) + "&key="@ + api_key
        + "&order=relevance&safeSearch=strict&videoCategoryId=22&videoEmbeddable=true&relevanceLanguage=en&regionCode=US"@
}

/// The address of a search for `query`.
pub fn search_url(query: &str, max_results: i32, api_key: &str) -> (r: String)
    ensures
        r@ == spec_search_url(query, max_results, api_key@),
{
    let cap: i32 = if max_results < MAX_SEARCH_RESULTS {
        max_results
    } else {
        MAX_SEARCH_RESULTS
    };
    let mut out = String::from_str(
        "https://www.googleapis.com/youtube/v3/search?part=snippet&type=video&q=",
    );
    out.append(url_encode(query).as_str());
    out.append("&maxResults=");
    out.append(decimal_string(cap as i64).as_str());
    out.append("&key=");
    out.append(api_key);
    out.append(
        "&order=relevance&safeSearch=strict&videoCategoryId=22&videoEmbeddable=true&relevanceLanguage=en&regionCode=US",
    );
    out
}

/// The first `n` of `ids`, with a comma between two of them.
pub open spec fn comma_joined(ids: Seq<String>, n: nat) -> Seq<char>
    decreases n,
{
    if n == 0 {
        Seq::empty()
    } else if n == 1 {
        ids[0]@
    } else {
        comma_joined(ids, (n - 1) as nat) + ","@ + ids[n - 1]@
    }
}

/// The address that gives the details of all of `video_ids` at once.
pub open spec fn spec_details_url(video_ids: Seq<String>, api_key: Seq<char>) -> Seq<char> {
    "https://www.googleapis.com/youtube/v3/videos?part=snippet,contentDetails,statistics&id="@
        + comma_joined(video_ids, video_ids.len()) + "&key="@ + api_key
}

/// The address that gives the details of all of `video_ids` at once.
pub fn details_url(video_ids: &Vec<String>, api_key: &str) -> (r: String)
    ensures
        r@ == spec_details_url(video_ids@, api_key@),
{
    let mut joined = String::new();
    let mut i: usize = 0;
    while i < video_ids.len()
        invariant
            i <= video_ids.len(),
            joined@ == comma_joined(video_ids@, i as nat),
        decreases video_ids.len() - i,
    {
        if i > 0 {
            joined.append(",");
        } else {
            proof {
                assert(Seq::<char>::empty() + video_ids@[0]@ =~= video_ids@[0]@);
            }
        }
        joined.append(video_ids[i].as_str());
        i = i + 1;
    }
    let mut out = String::from_str(
        "https://www.googleapis.com/youtube/v3/videos?part=snippet,contentDetails,statistics&id=",
    );
    out.append(joined.as_str());
    out.append("&key=");
    out.append(api_key);
    out
}

/// One result of a search, as the provider describes it.
#[derive(Debug)]
pub struct SearchItem {
    pub video_id: String,
    pub title: String,
    pub description: String,
    pub channel_title: String,
    pub published_at: String,
    /// The address of the medium-sized picture, if there is one.
    pub thumbnail_medium: Option<String>,
    /// The address of the large picture, if there is one.
    pub thumbnail_high: Option<String>,
}

/// What the provider adds about one video when asked for details.
#[derive(Debug)]
pub struct VideoDetail {
    pub id: Option<String>,
    /// The number of views, as decimal text.
    pub view_count: Option<String>,
    /// The number of likes, as decimal text.
    pub like_count: Option<String>,
    /// The length, as a duration token.
    pub duration: Option<String>,
}

impl Clone for VideoDetail {
    fn clone(&self) -> (r: Self)
        ensures
            r == *self,
    {
        VideoDetail {
            id: self.id.clone(),
            view_count: self.view_count.clone(),
            like_count: self.like_count.clone(),
            duration: self.duration.clone(),
        }
    }
}

/// The count that a text denotes: a decimal integer that is not negative.
pub open spec fn spec_parse_count(text: Seq<char>) -> Option<i64> {
    match spec_parse_i64(text) {
        Some(n) => if n >= 0 {
            Some(n)
        } else {
            None
        },
        None => None,
    }
}

/// The count that an optional text denotes, if it denotes one.
pub open spec fn count_of(text: Option<String>) -> Option<i64> {
    match text {
        Some(s) => spec_parse_count(s@),
        None => None,
    }
}

/// The length that an optional duration token denotes, if it denotes one.
pub open spec fn length_of(token: Option<String>) -> Option<i32> {
    match token {
        Some(s) => spec_parse_duration(s@),
        None => None,
    }
}

/// The picture of a search result: the large one, or else the medium one.
pub open spec fn thumbnail_of(item: SearchItem) -> Option<String> {
    if item.thumbnail_high is Some {
        item.thumbnail_high
    } else {
        item.thumbnail_medium
    }
}

/// The video that a search result and its details describe, stamped with
/// the time `cached_at`. Length and counts come from the details and are
/// unset without them. The video carries no verdict and no captions yet.
pub open spec fn spec_video(item: SearchItem, details: Option<VideoDetail>, cached_at: String) -> Video {
    Video {
        id: item.video_id,
        title: item.title,
        description: Some(item.description),
        thumbnail_url: thumbnail_of(item),
        duration: match details {
            Some(d) => length_of(d.duration),
            None => None,
        },
        channel_title: Some(item.channel_title),
        published_at: Some(item.published_at),
        view_count: match details {
            Some(d) => count_of(d.view_count),
            None => None,
        },
        like_count: match details {
            Some(d) => count_of(d.like_count),
            None => None,
        },
        ai_score: None,
        education_score: None,
        safety_score: None,
        age_appropriate: None,
        tags: None,
        cached_at: Some(cached_at),
        subtitles: None,
    }
}

/// Reads a count: a decimal integer that is not negative.
pub fn parse_count(text: &str) -> (r: Option<i64>)
    ensures
        r == spec_parse_count(text@),
{
    match parse_i64(text) {
        Some(n) => if n >= 0 {
            Some(n)
        } else {
            None
        },
        None => None,
    }
}

fn read_count(text: &Option<String>) -> (r: Option<i64>)
    ensures
        r == count_of(*text),
{
    match text {
        Some(s) => parse_count(s.as_str()),
        None => None,
    }
}

/// Puts a search result and its details together into a video stamped with
/// the time `cached_at`.
pub fn video_from_parts(item: &SearchItem, details: Option<&VideoDetail>, cached_at: String) -> (r:
    Video)
    ensures
        r == spec_video(
            *item,
            match details {
                Some(d) => Some(*d),
                None => None,
            },
            cached_at,
        ),
        r.wf(),
{
    let thumbnail_url: Option<String> = match &item.thumbnail_high {
        Some(url) => Some(url.clone()),
        None => item.thumbnail_medium.clone(),
    };
    let duration: Option<i32> = match details {
        Some(d) => match &d.duration {
            Some(token) => parse_youtube_duration(token.as_str()),
            None => None,
        },
        None => None,
    };
    let view_count: Option<i64> = match details {
        Some(d) => read_count(&d.view_count),
        None => None,
    };
    let like_count: Option<i64> = match details {
        Some(d) => read_count(&d.like_count),
        None => None,
    };
    Video {
        id: item.video_id.clone(),
        title: item.title.clone(),
        description: Some(item.description.clone()),
        thumbnail_url,
        duration,
        channel_title: Some(item.channel_title.clone()),
        published_at: Some(item.published_at.clone()),
        view_count,
        like_count,
        ai_score: None,
        education_score: None,
        safety_score: None,
        age_appropriate: None,
        tags: None,
        cached_at: Some(cached_at),
        subtitles: None,
    }
}

/// Puts a search result and its details together into a video stamped with
/// the current time.
pub fn format_video_data(search_item: &SearchItem, details: Option<&VideoDetail>) -> (r: Video)
    ensures
        r.cached_at matches Some(stamp) && r == spec_video(
            *search_item,
            match details {
                Some(d) => Some(*d),
                None => None,
            },
            stamp,
        ),
        r.wf(),
{
    video_from_parts(search_item, details, now_rfc3339())
}

/// The identifiers of the search results, in their order.
pub fn video_ids(items: &Vec<SearchItem>) -> (r: Vec<String>)
    ensures
        r@.len() == items@.len(),
        forall|i: int| 0 <= i < r@.len() ==> #[trigger] r@[i] == items@[i].video_id,
{
    let mut out: Vec<String> = Vec::new();
    let mut i: usize = 0;
    while i < items.len()
        invariant
            i <= items.len(),
            out@.len() == i,
            forall|j: int| 0 <= j < i ==> #[trigger] out@[j] == items@[j].video_id,
        decreases items.len() - i,
    {
        out.push(items[i].video_id.clone());
        i = i + 1;
    }
    out
}

/// The last of `details` that carries the identifier `id`.
pub open spec fn last_with_id(details: Seq<VideoDetail>, id: Seq<char>) -> Option<VideoDetail>
    decreases details.len(),
{
    if details.len() == 0 {
        None
    } else if details.last().id matches Some(s) && s@ == id {
        Some(details.last())
    } else {
        last_with_id(details.drop_last(), id)
    }
}

/// Whether the identifier at position `k` also stands at an earlier one.
pub open spec fn seen_before(ids: Seq<String>, k: int) -> bool {
    exists|j: int| 0 <= j < k && #[trigger] ids[j]@ == ids[k]@
}

/// The details that belong to the identifier at position `k`: the last
/// that carry it. An identifier that already stood at an earlier position
/// gets none, for each of the details is handed out once.
pub open spec fn matched_detail(ids: Seq<String>, details: Seq<VideoDetail>, k: int) -> Option<
    VideoDetail,
> {
    if seen_before(ids, k) {
        None
    } else {
        last_with_id(details, ids[k]@)
    }
}

fn find_last_with_id(details: &Vec<VideoDetail>, id: &str) -> (r: Option<VideoDetail>)
    ensures
        r == last_with_id(details@, id@),
{
    let mut i: usize = details.len();
    proof {
        assert(details@.take(i as int) =~= details@);
    }
    while i > 0
        invariant
            i <= details.len(),
            last_with_id(details@, id@) == last_with_id(details@.take(i as int), id@),
        decreases i,
    {
        i = i - 1;
        proof {
            assert(details@.take(i + 1).last() == details@[i as int]);
            assert(details@.take(i + 1).drop_last() =~= details@.take(i as int));
        }
        let hit: bool = match &details[i].id {
            Some(s) => same_text(s.as_str(), id),
            None => false,
        };
        if hit {
            return Some(details[i].clone());
        }
    }
    None
}

fn is_seen_before(ids: &Vec<String>, k: usize) -> (r: bool)
    requires
        k < ids.len(),
    ensures
        r == seen_before(ids@, k as int),
{
    let mut j: usize = 0;
    while j < k
        invariant
            j <= k < ids.len(),
            forall|i: int| 0 <= i < j ==> #[trigger] ids@[i]@ != ids@[k as int]@,
        decreases k - j,
    {
        if same_text(ids[j].as_str(), ids[k].as_str()) {
            return true;
        }
        j = j + 1;
    }
    false
}

/// Puts the details that the provider returned in the order of the
/// identifiers that were asked about. An identifier without details gets
/// none: details are an extra, not a condition.
pub fn match_details(video_ids: &Vec<String>, details: &Vec<VideoDetail>) -> (r: Vec<
    Option<VideoDetail>,
>)
    ensures
        r@.len() == video_ids@.len(),
        forall|k: int|
            0 <= k < r@.len() ==> #[trigger] r@[k] == matched_detail(video_ids@, details@, k),
{
    let mut out: Vec<Option<VideoDetail>> = Vec::new();
    let mut k: usize = 0;
    while k < video_ids.len()
        invariant
            k <= video_ids.len(),
            out@.len() == k,
            forall|i: int|
                0 <= i < k ==> #[trigger] out@[i] == matched_detail(video_ids@, details@, i),
        decreases video_ids.len() - k,
    {
        if is_seen_before(video_ids, k) {
            out.push(None);
        } else {
            out.push(find_last_with_id(details, video_ids[k].as_str()));
        }
        k = k + 1;
    }
    out
}

/// The smallest of three lengths.
pub open spec fn shortest(a: nat, b: nat, c: nat) -> nat {
    if a <= b && a <= c {
        a
    } else if b <= c {
        b
    } else {
        c
    }
}

/// Whether `video` is what a search result, its details and its caption
/// summary describe, stamped with some time.
pub open spec fn is_assembled(
    video: Video,
    item: SearchItem,
    details: Option<VideoDetail>,
    caption: Option<String>,
) -> bool {
    video.cached_at matches Some(stamp) && video == (Video {
        subtitles: caption,
        ..spec_video(item, details, stamp)
    })
}

/// Puts search results, their details and their caption summaries together
/// into videos, position by position and in the order of the search
/// results; a list that is shorter than the others ends the output. Each
/// video is stamped with the time at which it was put together.
pub fn assemble_videos(
    items: &Vec<SearchItem>,
    details: &Vec<Option<VideoDetail>>,
    captions: &Vec<Option<String>>,
) -> (r: Vec<Video>)
    ensures
        r@.len() == shortest(items@.len(), details@.len(), captions@.len()),
        forall|k: int|
            0 <= k < r@.len() ==> is_assembled(#[trigger] r@[k], items@[k], details@[k], captions@[k]),
        forall|k: int| 0 <= k < r@.len() ==> (#[trigger] r@[k]).wf(),
{
    let mut n: usize = items.len();
    if details.len() < n {
        n = details.len();
    }
    if captions.len() < n {
        n = captions.len();
    }
    let mut out: Vec<Video> = Vec::new();
    let mut k: usize = 0;
    while k < n
        invariant
            k <= n,
            n == shortest(items@.len(), details@.len(), captions@.len()),
            out@.len() == k,
            forall|i: int|
                0 <= i < k ==> is_assembled(
                    #[trigger] out@[i],
                    items@[i],
                    details@[i],
                    captions@[i],
                ),
            forall|i: int| 0 <= i < k ==> (#[trigger] out@[i]).wf(),
        decreases n - k,
    {
        let detail: Option<&VideoDetail> = match &details[k] {
            Some(d) => Some(d),
            None => None,
        };
        let mut video = format_video_data(&items[k], detail);
        video.subtitles = captions[k].clone();
        out.push(video);
        k = k + 1;
    }
    out
}

} // verus!
