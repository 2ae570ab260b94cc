use kid_videos::duration::{format_duration, parse_youtube_duration};

#[test]
fn parses_minutes_and_seconds() {
    assert_eq!(parse_youtube_duration("PT4M13S"), Some(253));
}

#[test]
fn parses_hours_minutes_and_seconds() {
    assert_eq!(parse_youtube_duration("PT1H2M10S"), Some(3730));
    assert_eq!(parse_youtube_duration("PT1H2M2S"), Some(3722));
}

#[test]
fn rejects_text_without_the_marker() {
    assert_eq!(parse_youtube_duration("invalid"), None);
    assert_eq!(parse_youtube_duration(""), None);
    assert_eq!(parse_youtube_duration("P"), None);
    assert_eq!(parse_youtube_duration("P1DT2H"), None);
    assert_eq!(parse_youtube_duration("pt4m"), None);
}

#[test]
fn any_subset_of_the_units_may_be_present() {
    assert_eq!(parse_youtube_duration("PT"), Some(0));
    assert_eq!(parse_youtube_duration("PT45S"), Some(45));
    assert_eq!(parse_youtube_duration("PT7M"), Some(420));
    assert_eq!(parse_youtube_duration("PT2H"), Some(7200));
    assert_eq!(parse_youtube_duration("PT2H5S"), Some(7205));
}

#[test]
fn unknown_unit_letters_are_ignored() {
    assert_eq!(parse_youtube_duration("PT3X4M"), Some(240));
    assert_eq!(parse_youtube_duration("PT1D2S"), Some(2));
    assert_eq!(parse_youtube_duration("PTM5S"), Some(5));
    assert_eq!(parse_youtube_duration("PT12"), Some(0));
}

#[test]
fn numbers_that_do_not_fit_are_left_out() {
    assert_eq!(parse_youtube_duration("PT99999999999S"), Some(0));
    assert_eq!(parse_youtube_duration("PT2147483647S"), Some(2147483647));
    assert_eq!(parse_youtube_duration("PT2147483648S"), Some(0));
    assert_eq!(parse_youtube_duration("PT00000000000000000012S"), Some(12));
}

#[test]
fn lengths_beyond_the_range_are_no_lengths() {
    assert_eq!(parse_youtube_duration("PT2147483647H"), None);
    assert_eq!(parse_youtube_duration("PT2147483647S1S"), None);
    assert_eq!(parse_youtube_duration("PT596523H14M7S"), Some(2147483647));
    assert_eq!(parse_youtube_duration("PT596523H14M8S"), None);
}

#[test]
fn formats_minutes_and_seconds() {
    assert_eq!(format_duration(253), "4分13秒");
}

#[test]
fn formats_with_the_largest_unit_that_applies() {
    assert_eq!(format_duration(0), "0秒");
    assert_eq!(format_duration(59), "59秒");
    assert_eq!(format_duration(60), "1分0秒");
    assert_eq!(format_duration(3599), "59分59秒");
    assert_eq!(format_duration(3600), "1小时0分0秒");
    assert_eq!(format_duration(3730), "1小时2分10秒");
    assert_eq!(format_duration(i32::MAX), "596523小时14分7秒");
}

#[test]
fn formats_negative_lengths_as_seconds() {
    assert_eq!(format_duration(-5), "-5秒");
    assert_eq!(format_duration(-60), "0秒");
    assert_eq!(format_duration(-3700), "-40秒");
    assert_eq!(format_duration(i32::MIN), "-8秒");
}

#[test]
fn reading_then_writing_keeps_minutes_and_seconds() {
    assert_eq!(format_duration(parse_youtube_duration("PT4M13S").unwrap()), "4分13秒");
    assert_eq!(format_duration(parse_youtube_duration("PT59S").unwrap()), "59秒");
    assert_eq!(format_duration(parse_youtube_duration("PT1H2M10S").unwrap()), "1小时2分10秒");
    assert_eq!(format_duration(parse_youtube_duration("PT3H").unwrap()), "3小时0分0秒");
    assert_eq!(format_duration(parse_youtube_duration("PT0H5M0S").unwrap()), "5分0秒");
}
