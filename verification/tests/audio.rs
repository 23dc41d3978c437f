use whisper_server::audio::validate_extension;
use whisper_server::error::AppError;

#[test]
fn rejects_mp4() {
    assert!(validate_extension("clip.mp4").is_err());
}

#[test]
fn accepts_m4a() {
    assert!(matches!(
        validate_extension("clip.m4a").as_deref(),
        Ok("m4a")
    ));
}

#[test]
fn lowercases_extensions() {
    assert!(matches!(
        validate_extension("REC.WAV").as_deref(),
        Ok("wav")
    ));
}

#[test]
fn rejects_missing_extension() {
    let err = validate_extension("noext").unwrap_err();
    assert!(matches!(err, AppError::UnsupportedMediaType(_)));
    assert!(err.to_string().contains("must include an extension"));
}

#[test]
fn rejects_unknown_extension() {
    let err = validate_extension("clip.txt").unwrap_err();
    assert!(matches!(err, AppError::UnsupportedMediaType(_)));
    assert!(err.to_string().contains("unsupported file extension"));
}
