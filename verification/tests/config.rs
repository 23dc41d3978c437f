use whisper_server::config::{
    parse_model_size, parse_usize_bounded, whisper_model_filename, CliOptions, WhisperModelSize,
};

#[test]
fn parse_usize_bounded_accepts_in_range_values() {
    assert_eq!(
        parse_usize_bounded("WHISPER_PARALLELISM", "1", 1, 8).unwrap(),
        1
    );
    assert_eq!(
        parse_usize_bounded("WHISPER_PARALLELISM", "8", 1, 8).unwrap(),
        8
    );
}

#[test]
fn parse_usize_bounded_rejects_non_numeric_value() {
    assert!(parse_usize_bounded("WHISPER_PARALLELISM", "abc", 1, 8).is_err());
}

#[test]
fn parse_usize_bounded_rejects_out_of_range_values() {
    assert!(parse_usize_bounded("WHISPER_PARALLELISM", "0", 1, 8).is_err());
    assert!(parse_usize_bounded("WHISPER_PARALLELISM", "9", 1, 8).is_err());
}

#[test]
fn cli_parsing_supports_help_flag() {
    let options = CliOptions::from_tokens(
        "whisper-openai-rust".to_string(),
        vec!["--help".to_string()],
    )
    .unwrap();
    assert!(options.help_requested);
}

#[test]
fn cli_parsing_reads_value_from_equals_form() {
    let options = CliOptions::from_tokens(
        "whisper-openai-rust".to_string(),
        vec!["--port=9001".to_string()],
    )
    .unwrap();
    assert_eq!(options.port, Some(9001));
}

#[test]
fn cli_parsing_rejects_unknown_flags() {
    let err = CliOptions::from_tokens(
        "whisper-openai-rust".to_string(),
        vec!["--unknown".to_string()],
    )
    .unwrap_err();
    assert!(err.to_string().contains("unknown argument"));
}

#[test]
fn cli_parsing_supports_model_size() {
    let options = CliOptions::from_tokens(
        "whisper-openai-rust".to_string(),
        vec!["--whisper-model-size=medium".to_string()],
    )
    .unwrap();
    assert_eq!(options.whisper_model_size, Some(WhisperModelSize::Medium));
}

#[test]
fn cli_parsing_reads_value_from_following_token() {
    let options = CliOptions::from_tokens(
        "whisper-openai-rust".to_string(),
        vec!["--port".to_string(), "9001".to_string()],
    )
    .unwrap();
    assert_eq!(options.port, Some(9001));
}

#[test]
fn cli_parsing_lets_later_options_override_earlier_ones() {
    let options = CliOptions::from_tokens(
        "whisper-openai-rust".to_string(),
        vec!["--host=first".to_string(), "--host=second".to_string()],
    )
    .unwrap();
    assert_eq!(options.host.as_deref(), Some("second"));
}

#[test]
fn cli_parsing_requires_a_value_for_value_options() {
    let err = CliOptions::from_tokens(
        "whisper-openai-rust".to_string(),
        vec!["--port".to_string()],
    )
    .unwrap_err();
    assert!(err.to_string().contains("missing value"));
}

#[test]
fn cli_parsing_rejects_positional_arguments() {
    let err = CliOptions::from_tokens(
        "whisper-openai-rust".to_string(),
        vec!["stray".to_string()],
    )
    .unwrap_err();
    assert!(err.to_string().contains("unexpected positional argument"));
}

#[test]
fn cli_parsing_rejects_out_of_range_option_values() {
    assert!(CliOptions::from_tokens(
        "whisper-openai-rust".to_string(),
        vec!["--whisper-parallelism=9".to_string()],
    )
    .is_err());
    assert!(CliOptions::from_tokens(
        "whisper-openai-rust".to_string(),
        vec!["--port=0".to_string()],
    )
    .is_err());
}

#[test]
fn parse_model_size_accepts_large_alias() {
    assert_eq!(
        parse_model_size("WHISPER_MODEL_SIZE", "large").unwrap(),
        WhisperModelSize::LargeV3
    );
}

#[test]
fn parse_model_size_accepts_english_variants() {
    assert_eq!(
        parse_model_size("WHISPER_MODEL_SIZE", "tiny.en").unwrap(),
        WhisperModelSize::TinyEn
    );
    assert_eq!(
        parse_model_size("WHISPER_MODEL_SIZE", "medium.en").unwrap(),
        WhisperModelSize::MediumEn
    );
}

#[test]
fn parse_model_size_accepts_large_model_versions() {
    assert_eq!(
        parse_model_size("WHISPER_MODEL_SIZE", "large-v1").unwrap(),
        WhisperModelSize::LargeV1
    );
    assert_eq!(
        parse_model_size("WHISPER_MODEL_SIZE", "large-v2").unwrap(),
        WhisperModelSize::LargeV2
    );
    assert_eq!(
        parse_model_size("WHISPER_MODEL_SIZE", "large-v3-turbo").unwrap(),
        WhisperModelSize::Turbo
    );
}

#[test]
fn whisper_model_filename_uses_expected_small_name() {
    assert_eq!(
        whisper_model_filename(WhisperModelSize::Small),
        "ggml-small.bin"
    );
}

#[test]
fn whisper_model_filename_uses_expected_en_name() {
    assert_eq!(
        whisper_model_filename(WhisperModelSize::SmallEn),
        "ggml-small.en.bin"
    );
}
