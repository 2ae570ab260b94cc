//! Which caption tracks a video has, summed up in one line.

use crate::text::{chars_of, same_text};
use vstd::prelude::*;

verus! {

/// One caption track of a video, as the provider describes it.
#[derive(Debug, Clone)]
pub struct CaptionTrack {
    /// The language tag, such as `en` or `zh-Hans`.
    pub language: String,
    /// `asr` for a track made by speech recognition.
    pub track_kind: String,
    pub name: String,
}

/// Whether a language tag is of interest: Chinese, English or undetermined.
pub open spec fn language_matches(language: Seq<char>) -> bool {
    ||| language.len() >= 2 && language[0] == 'z' && language[1] == 'h'
    ||| language.len() >= 2 && language[0] == 'e' && language[1] == 'n'
    ||| language == "und"@
}

/// How the summary names one track: its language, its name, and whether
/// it was generated or written by hand.
pub open spec fn spec_track_entry(track: CaptionTrack) -> Seq<char> {
    "["@ + track.language@ + "] "@ + track.name@ + " ("@ + (if track.track_kind@ == "asr"@ {
        "自动生成"@
    } else {
        "人工"@
    }) + ")"@
}

/// How many of the first `n` tracks are in a language of interest.
pub open spec fn matching_count(tracks: Seq<CaptionTrack>, n: nat) -> nat
    decreases n,
{
    if n == 0 {
        0
    } else if language_matches(tracks[n - 1].language@) {
        matching_count(tracks, (n - 1) as nat) + 1
    } else {
        matching_count(tracks, (n - 1) as nat)
    }
}

/// The entries of those of the first `n` tracks that are in a language of
/// interest, with a comma and a space between two of them.
pub open spec fn spec_track_list(tracks: Seq<CaptionTrack>, n: nat) -> Seq<char>
    decreases n,
{
    if n == 0 {
        Seq::empty()
    } else if !language_matches(tracks[n - 1].language@) {
        spec_track_list(tracks, (n - 1) as nat)
    } else if matching_count(tracks, (n - 1) as nat) == 0 {
        spec_track_entry(tracks[n - 1])
    } else {
        spec_track_list(tracks, (n - 1) as nat) + ", "@ + spec_track_entry(tracks[n - 1])
    }
}

/// The summary of a video's caption tracks: a heading and the tracks in a
/// language of interest. A video without such a track has no summary,
/// which is not the same as an empty one.
pub open spec fn spec_caption_summary(tracks: Seq<CaptionTrack>) -> Option<Seq<char>> {
    if matching_count(tracks, tracks.len()) == 0 {
        None
    } else {
        Some("可用字幕: "@ + spec_track_list(tracks, tracks.len()))
    }
}

/// Whether a language tag is of interest.
pub fn is_language_of_interest(language: &str) -> (r: bool)
    ensures
        r == language_matches(language@),
{
    if same_text(language, "und") {
        return true;
    }
    let s = chars_of(language);
    s.len() >= 2 && ((s[0] == 'z' && s[1] == 'h') || (s[0] == 'e' && s[1] == 'n'))
}

/// Names one track for the summary.
pub fn track_entry(track: &CaptionTrack) -> (r: String)
    ensures
        r@ == spec_track_entry(*track),
{
    let mut out = String::from_str("[");
    out.append(track.language.as_str());
    out.append("] ");
    out.append(track.name.as_str());
    out.append(" (");
    if same_text(track.track_kind.as_str(), "asr") {
        out.append("自动生成");
    } else {
        out.append("人工");
    }
    out.append(")");
    out
}

/// Sums up the caption tracks of a video in one line, if any of them is in
/// a language of interest.
pub fn summarize_captions(tracks: &Vec<CaptionTrack>) -> (r: Option<String>)
    ensures
        r matches Some(s) ==> spec_caption_summary(tracks@) == Some(s@),
        r is None ==> spec_caption_summary(tracks@) is None,
{
    let mut list = String::new();
    let mut found: bool = false;
    let mut i: usize = 0;
    while i < tracks.len()
        invariant
            i <= tracks.len(),
            found == (matching_count(tracks@, i as nat) > 0),
            list@ == spec_track_list(tracks@, i as nat),
        decreases tracks.len() - i,
    {
        if is_language_of_interest(tracks[i].language.as_str()) {
            let entry = track_entry(&tracks[i]);
            if found {
                list.append(", ");
            } else {
                proof {
                    assert(Seq::<char>::empty() + entry@ =~= entry@);
                    lemma_no_match_no_list(tracks@, i as nat);
                }
            }
            list.append(entry.as_str());
            found = true;
        }
        i = i + 1;
    }
    if found {
        let mut out = String::from_str("可用字幕: ");
        out.append(list.as_str());
        Some(out)
    } else {
        None
    }
}

proof fn lemma_no_match_no_list(tracks: Seq<CaptionTrack>, n: nat)
    requires
        matching_count(tracks, n) == 0,
    ensures
        spec_track_list(tracks, n) == Seq::<char>::empty(),
    decreases n,
{
    if n > 0 {
        lemma_no_match_no_list(tracks, (n - 1) as nat);
    }
}

/// The address that lists the caption tracks of a video.
pub open spec fn spec_captions_url(video_id: Seq<char>, api_key: Seq<char>) -> Seq<char> {
    "https://www.googleapis.com/youtube/v3/captions?part=snippet&videoId="@ + video_id + "&key="@
        + api_key
}

/// The address that lists the caption tracks of a video.
pub fn captions_url(video_id: &str, api_key: &str) -> (r: String)
    ensures
        r@ == spec_captions_url(video_id@, api_key@),
{
    let mut out = String::from_str(
        "https://www.googleapis.com/youtube/v3/captions?part=snippet&videoId=",
    );
    out.append(video_id);
    out.append("&key=");
    out.append(api_key);
    out
}

} // verus!
