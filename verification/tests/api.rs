use whisper_server::api::{require_auth, validate_requested_model};
use whisper_server::config::{AppConfig, EnvValues, WhisperModelSize};
use whisper_server::error::AppError;

#[test]
fn auth_passes_without_a_configured_key() {
    assert!(require_auth(&None, None).is_ok());
    assert!(require_auth(&None, Some("anything")).is_ok());
}

#[test]
fn auth_requires_a_header_when_a_key_is_set() {
    let key = Some("secret".to_string());
    let err = require_auth(&key, None).unwrap_err();
    assert!(matches!(err, AppError::Unauthorized(_)));
}

#[test]
fn auth_accepts_bearer_in_any_case() {
    let key = Some("secret".to_string());
    assert!(require_auth(&key, Some("Bearer secret")).is_ok());
    assert!(require_auth(&key, Some("bearer secret")).is_ok());
    assert!(require_auth(&key, Some("BEARER secret")).is_ok());
}

#[test]
fn auth_rejects_wrong_tokens_and_malformed_headers() {
    let key = Some("secret".to_string());
    assert!(require_auth(&key, Some("Bearer wrong")).is_err());
    assert!(require_auth(&key, Some("Basic secret")).is_err());
    assert!(require_auth(&key, Some("Bearer")).is_err());
    assert!(require_auth(&key, Some("Bearer secret extra")).is_err());
}

fn cfg_with_alias(alias: &str) -> AppConfig {
    let mut env = EnvValues::default();
    env.api_model_alias = Some(alias.to_string());
    AppConfig::from_env(&env).unwrap()
}

#[test]
fn model_validation_accepts_the_standard_id_and_the_alias() {
    let cfg = cfg_with_alias("whisper-mlx");
    assert!(validate_requested_model(&cfg, "whisper-1").is_ok());
    assert!(validate_requested_model(&cfg, "whisper-mlx").is_ok());
}

#[test]
fn model_validation_rejects_unknown_ids() {
    let cfg = cfg_with_alias("whisper-mlx");
    let err = validate_requested_model(&cfg, "gpt-4o").unwrap_err();
    assert!(matches!(err, AppError::InvalidRequest { .. }));
    assert!(err.to_string().contains("unsupported model"));
}

#[test]
fn from_env_defaults_are_the_documented_ones() {
    let cfg = AppConfig::from_env(&EnvValues::default()).unwrap();
    assert_eq!(cfg.host, "127.0.0.1");
    assert_eq!(cfg.port, 8000);
    assert_eq!(cfg.whisper_model_size, WhisperModelSize::Small);
    assert!(cfg.whisper_auto_download);
    assert_eq!(cfg.whisper_hf_repo, "ggerganov/whisper.cpp");
    assert_eq!(cfg.whisper_hf_filename, "ggml-small.bin");
    assert_eq!(cfg.api_model_alias, "whisper-mlx");
    assert_eq!(cfg.whisper_parallelism, 1);
    assert!(!cfg.whisper_model_explicit);
    assert!(cfg.whisper_model.ends_with("/.cache/whispercpp/models/ggml-small.bin"));
}

#[test]
fn from_env_pins_an_explicit_model_path() {
    let mut env = EnvValues::default();
    env.whisper_model = Some("  /models/tiny.bin ".to_string());
    let cfg = AppConfig::from_env(&env).unwrap();
    assert!(cfg.whisper_model_explicit);
    assert_eq!(cfg.whisper_model, "/models/tiny.bin");
}

#[test]
fn from_env_rejects_bad_values() {
    let mut env = EnvValues::default();
    env.port = Some("0".to_string());
    assert!(AppConfig::from_env(&env).is_err());

    let mut env = EnvValues::default();
    env.whisper_parallelism = Some("9".to_string());
    assert!(AppConfig::from_env(&env).is_err());

    let mut env = EnvValues::default();
    env.whisper_auto_download = Some("perhaps".to_string());
    assert!(AppConfig::from_env(&env).is_err());

    let mut env = EnvValues::default();
    env.whisper_backend = Some("other-engine".to_string());
    assert!(AppConfig::from_env(&env).is_err());
}

#[test]
fn from_env_derives_the_filename_from_the_model_size() {
    let mut env = EnvValues::default();
    env.whisper_model_size = Some("tiny.en".to_string());
    let cfg = AppConfig::from_env(&env).unwrap();
    assert_eq!(cfg.whisper_model_size, WhisperModelSize::TinyEn);
    assert_eq!(cfg.whisper_hf_filename, "ggml-tiny.en.bin");
}

#[test]
fn cli_overrides_recompute_a_derived_model_path() {
    let cfg = AppConfig::from_env(&EnvValues::default()).unwrap();
    let mut cfg = cfg;
    let mut options = whisper_server::config::CliOptions::default();
    options.whisper_cache_dir = Some("/elsewhere".to_string());
    options.whisper_model_size = Some(WhisperModelSize::Medium);
    cfg.apply_cli_overrides(options);
    assert_eq!(cfg.whisper_model, "/elsewhere/ggml-medium.bin");
    assert_eq!(cfg.whisper_hf_filename, "ggml-medium.bin");
}

#[test]
fn cli_override_of_the_model_path_pins_it() {
    let mut cfg = AppConfig::from_env(&EnvValues::default()).unwrap();
    let mut options = whisper_server::config::CliOptions::default();
    options.whisper_model = Some("/pinned.bin".to_string());
    options.whisper_cache_dir = Some("/elsewhere".to_string());
    cfg.apply_cli_overrides(options);
    assert!(cfg.whisper_model_explicit);
    assert_eq!(cfg.whisper_model, "/pinned.bin");
}

#[test]
fn accepted_model_ids_lists_alias_once() {
    let cfg = cfg_with_alias("whisper-mlx");
    assert_eq!(cfg.accepted_model_ids(), vec!["whisper-1", "whisper-mlx"]);
    let cfg = cfg_with_alias("whisper-1");
    assert_eq!(cfg.accepted_model_ids(), vec!["whisper-1"]);
}

#[test]
fn error_constructors_keep_their_messages() {
    assert_eq!(
        AppError::bad_multipart("broken form".to_string()).to_string(),
        "broken form"
    );
    assert_eq!(
        AppError::unauthorized("no token".to_string()).to_string(),
        "no token"
    );
    assert_eq!(
        AppError::backend("engine".to_string()).to_string(),
        "engine"
    );
    assert_eq!(
        AppError::internal("internal".to_string()).to_string(),
        "internal"
    );
}
