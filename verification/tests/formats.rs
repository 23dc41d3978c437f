use whisper_server::backend::TranscriptSegment;
use whisper_server::error::AppError;
use whisper_server::formats::{normalize_text, segments_to_srt, segments_to_vtt, ResponseFormat};

#[test]
fn response_format_parse() {
    assert!(matches!(
        ResponseFormat::parse("json"),
        Ok(ResponseFormat::Json)
    ));
    assert!(ResponseFormat::parse("nope").is_err());
}

#[test]
fn normalize_collapses_spaces() {
    assert_eq!(
        normalize_text("  hello   world\nagain"),
        "hello world again"
    );
}

#[test]
fn response_format_parse_all_names_and_trims() {
    assert!(matches!(
        ResponseFormat::parse(" text "),
        Ok(ResponseFormat::Text)
    ));
    assert!(matches!(
        ResponseFormat::parse("verbose_json"),
        Ok(ResponseFormat::VerboseJson)
    ));
    assert!(matches!(ResponseFormat::parse("srt"), Ok(ResponseFormat::Srt)));
    assert!(matches!(ResponseFormat::parse("vtt"), Ok(ResponseFormat::Vtt)));
}

#[test]
fn response_format_error_is_invalid_request() {
    let err = ResponseFormat::parse("yaml").unwrap_err();
    assert!(matches!(err, AppError::InvalidRequest { .. }));
    assert!(err.to_string().contains("invalid response_format"));
}

#[test]
fn response_format_as_str_round_trips() {
    for f in [
        ResponseFormat::Json,
        ResponseFormat::Text,
        ResponseFormat::VerboseJson,
        ResponseFormat::Srt,
        ResponseFormat::Vtt,
    ] {
        assert!(matches!(ResponseFormat::parse(f.as_str()), Ok(g) if g == f));
    }
}

#[test]
fn normalize_is_idempotent() {
    let once = normalize_text("  a \t b \n  c  ");
    assert_eq!(normalize_text(&once), once);
    assert_eq!(once, "a b c");
}

#[test]
fn normalize_collapses_unicode_whitespace() {
    assert_eq!(normalize_text("a\u{a0}b\u{2003}c"), "a b c");
    assert_eq!(normalize_text("\u{3000}padded\u{2028}"), "padded");
}

#[test]
fn normalize_handles_empty_and_all_whitespace() {
    assert_eq!(normalize_text(""), "");
    assert_eq!(normalize_text(" \t\r\n "), "");
    assert_eq!(normalize_text("one"), "one");
}

fn seg(start_cs: u64, end_cs: u64, text: &str) -> TranscriptSegment {
    TranscriptSegment {
        start_cs,
        end_cs,
        text: text.to_string(),
    }
}

#[test]
fn srt_numbers_cues_and_formats_timestamps() {
    let segments = vec![seg(0, 120, "hello world"), seg(120, 123456, " again ")];
    assert_eq!(
        segments_to_srt(&segments),
        "1\n00:00:00,000 --> 00:00:01,200\nhello world\n\n2\n00:00:01,200 --> 00:20:34,560\nagain\n"
    );
}

#[test]
fn srt_skips_blank_segments_but_keeps_numbering() {
    let segments = vec![seg(0, 100, "  "), seg(100, 200, "kept")];
    assert_eq!(
        segments_to_srt(&segments),
        "2\n00:00:01,000 --> 00:00:02,000\nkept\n"
    );
}

#[test]
fn srt_hours_grow_past_two_digits() {
    // 36 000 000 centiseconds is exactly one hundred hours.
    let segments = vec![seg(36_000_000, 36_000_100, "late")];
    assert_eq!(
        segments_to_srt(&segments),
        "1\n100:00:00,000 --> 100:00:01,000\nlate\n"
    );
}

#[test]
fn srt_of_no_segments_is_a_single_newline() {
    assert_eq!(segments_to_srt(&Vec::new()), "\n");
}

#[test]
fn vtt_starts_with_header_and_uses_dots() {
    let segments = vec![seg(0, 120, "hello")];
    assert_eq!(
        segments_to_vtt(&segments),
        "WEBVTT\n\n00:00:00.000 --> 00:00:01.200\nhello\n"
    );
}

#[test]
fn vtt_of_no_segments_is_only_the_header() {
    assert_eq!(segments_to_vtt(&Vec::new()), "WEBVTT\n");
}
