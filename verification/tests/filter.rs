use kid_videos::filter::{filter_mode_of, filter_videos, filter_videos_by_mode, FilterMode};
use kid_videos::model::Video;

fn scored(
    id: &str,
    ai: Option<u8>,
    education: Option<u8>,
    safety: Option<u8>,
    fit: Option<bool>,
) -> Video {
    Video {
        id: id.to_string(),
        title: String::new(),
        description: None,
        thumbnail_url: None,
        duration: None,
        channel_title: None,
        published_at: None,
        view_count: None,
        like_count: None,
        ai_score: ai,
        education_score: education,
        safety_score: safety,
        age_appropriate: fit,
        tags: None,
        cached_at: None,
        subtitles: None,
    }
}

fn ids(videos: &[Video]) -> Vec<&str> {
    videos.iter().map(|v| v.id.as_str()).collect()
}

#[test]
fn mode_names_are_recognized() {
    assert_eq!(filter_mode_of("strict"), FilterMode::Strict);
    assert_eq!(filter_mode_of("educational"), FilterMode::Educational);
    assert_eq!(filter_mode_of("balanced"), FilterMode::Balanced);
    assert_eq!(filter_mode_of(""), FilterMode::Balanced);
    assert_eq!(filter_mode_of("STRICT"), FilterMode::Balanced);
    assert_eq!(filter_mode_of("anything"), FilterMode::Balanced);
}

#[test]
fn strict_keeps_only_what_is_safe_and_fit() {
    let videos = vec![
        scored("a", None, None, Some(95), Some(true)),
        scored("b", None, None, Some(50), Some(true)),
        scored("c", None, None, None, Some(false)),
    ];
    assert_eq!(ids(&filter_videos_by_mode(videos, "strict")), vec!["a"]);
}

#[test]
fn strict_needs_both_conditions() {
    let videos = vec![
        scored("a", None, None, Some(90), Some(true)),
        scored("b", None, None, Some(89), Some(true)),
        scored("c", None, None, Some(100), Some(false)),
        scored("d", None, None, Some(100), None),
        scored("e", None, None, None, Some(true)),
    ];
    assert_eq!(ids(&filter_videos_by_mode(videos, "strict")), vec!["a"]);
}

#[test]
fn balanced_keeps_videos_without_a_score() {
    let videos = vec![
        scored("a", None, None, Some(95), Some(true)),
        scored("b", None, None, Some(50), Some(true)),
        scored("c", None, None, None, Some(false)),
    ];
    assert_eq!(ids(&filter_videos_by_mode(videos, "balanced")), vec!["a", "b", "c"]);
}

#[test]
fn balanced_drops_low_scores_and_ranks_unscored_last() {
    let videos = vec![
        scored("none", None, None, None, None),
        scored("low", Some(59), None, None, None),
        scored("edge", Some(60), None, None, None),
        scored("high", Some(90), None, None, None),
    ];
    assert_eq!(ids(&filter_videos_by_mode(videos, "balanced")), vec!["high", "edge", "none"]);
}

#[test]
fn unknown_mode_filters_like_balanced() {
    let videos = vec![
        scored("low", Some(30), None, None, None),
        scored("none", None, None, None, None),
        scored("high", Some(61), None, None, None),
    ];
    assert_eq!(ids(&filter_videos_by_mode(videos, "whatever")), vec!["high", "none"]);
}

#[test]
fn educational_keeps_what_teaches() {
    let videos = vec![
        scored("a", Some(99), Some(74), Some(99), Some(true)),
        scored("b", None, Some(75), None, None),
        scored("c", None, None, None, None),
        scored("d", None, Some(100), None, None),
    ];
    assert_eq!(ids(&filter_videos_by_mode(videos, "educational")), vec!["d", "b"]);
}

#[test]
fn equal_scores_keep_their_order() {
    let videos = vec![
        scored("a", Some(80), None, None, None),
        scored("b", Some(90), None, None, None),
        scored("c", Some(80), None, None, None),
        scored("d", Some(90), None, None, None),
        scored("e", Some(80), None, None, None),
    ];
    assert_eq!(ids(&filter_videos(videos, FilterMode::Balanced)), vec!["b", "d", "a", "c", "e"]);
}

#[test]
fn scores_above_the_scale_still_rank() {
    let videos = vec![
        scored("a", Some(100), None, None, None),
        scored("b", Some(255), None, None, None),
        scored("c", Some(101), None, None, None),
    ];
    assert_eq!(ids(&filter_videos(videos, FilterMode::Balanced)), vec!["b", "c", "a"]);
}

#[test]
fn nothing_in_nothing_out() {
    assert!(filter_videos_by_mode(Vec::new(), "strict").is_empty());
    assert!(filter_videos_by_mode(Vec::new(), "balanced").is_empty());
}

#[test]
fn filtered_output_is_a_ranked_rearrangement_of_what_is_kept() {
    let mut videos = Vec::new();
    for i in 0..40u32 {
        let score = ((i * 37) % 101) as u8;
        videos.push(scored(&format!("v{}", i), Some(score), None, None, None));
    }
    let kept: Vec<String> =
        videos.iter().filter(|v| v.ai_score.unwrap() >= 60).map(|v| v.id.clone()).collect();
    let out = filter_videos(videos, FilterMode::Balanced);
    assert_eq!(out.len(), kept.len());
    for pair in out.windows(2) {
        assert!(pair[0].ai_score >= pair[1].ai_score);
    }
    let mut got: Vec<String> = out.iter().map(|v| v.id.clone()).collect();
    let mut want = kept.clone();
    got.sort();
    want.sort();
    assert_eq!(got, want);
}
