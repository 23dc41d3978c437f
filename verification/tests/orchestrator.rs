use std::cell::Cell;

use whisper_server::backend::whisper_rs::{
    is_parenthesized_event, looks_like_non_speech_only, run_decode, transcript_score, DecodeOptions,
    DecodeRun,
};
use whisper_server::backend::{TaskKind, TranscribeRequest, TranscriptSegment};
use whisper_server::error::AppError;

fn seg(text: &str) -> TranscriptSegment {
    TranscriptSegment {
        start_cs: 0,
        end_cs: 100,
        text: text.to_string(),
    }
}

fn req(language: Option<&str>) -> TranscribeRequest {
    TranscribeRequest {
        task: TaskKind::Transcribe,
        language: language.map(|l| l.to_string()),
        prompt: None,
        temperature_milli: None,
    }
}

#[test]
fn silent_audio_without_language_runs_the_english_fallback() {
    // Primary pass: auto-detect, no segments; fallback pass: pinned to
    // English, still no segments; the result is empty text, no error.
    let (mut run, first) = DecodeRun::start(req(None));
    assert!(first.detect_language);
    assert!(first.language.is_none());
    let next = run.on_segments(Vec::new()).expect("fallback expected");
    assert_eq!(next.language.as_deref(), Some("en"));
    assert!(!next.detect_language);
    assert!(run.on_segments(Vec::new()).is_none());
    let result = run.finalize(Some("en".to_string()));
    assert_eq!(result.text, "");
    assert_eq!(result.language.as_deref(), Some("en"));
    assert!(result.segments.is_empty());
}

#[test]
fn nonempty_fallback_replaces_an_empty_primary_unconditionally() {
    let (mut run, _) = DecodeRun::start(req(None));
    run.on_segments(Vec::new()).expect("fallback expected");
    assert!(run.on_segments(vec![seg("hi there")]).is_none());
    let result = run.finalize(Some("en".to_string()));
    assert_eq!(result.text, "hi there");
}

#[test]
fn explicit_language_skips_the_empty_fallback() {
    // An empty primary with a caller-pinned language just finishes.
    let (mut run, first) = DecodeRun::start(req(Some("es")));
    assert_eq!(first.language.as_deref(), Some("es"));
    assert!(!first.detect_language);
    assert!(run.on_segments(Vec::new()).is_none());
    let result = run.finalize(None);
    assert_eq!(result.text, "");
    assert_eq!(result.language.as_deref(), Some("es"));
}

#[test]
fn nonspeech_only_output_triggers_the_aggressive_retry() {
    let (mut run, _) = DecodeRun::start(req(Some("en")));
    let retry = run
        .on_segments(vec![seg("(applause)"), seg("(applause)")])
        .expect("aggressive retry expected");
    assert!(retry.max_no_speech_threshold);
    assert!(!retry.suppress_blank);
    assert_eq!(retry.language.as_deref(), Some("en"));
    assert!(run
        .on_segments(vec![seg("actual words spoken in the audio")])
        .is_none());
    let result = run.finalize(None);
    assert_eq!(result.text, "actual words spoken in the audio");
}

#[test]
fn mixed_output_with_a_normal_word_does_not_trigger_the_retry() {
    let (mut run, _) = DecodeRun::start(req(Some("en")));
    assert!(run
        .on_segments(vec![seg("hello"), seg("(applause)")])
        .is_none());
    let result = run.finalize(None);
    assert_eq!(result.text, "hello (applause)");
}

#[test]
fn equal_scores_keep_the_earlier_candidate() {
    // "(applause)" and "tapssssss!" both normalize to 10 characters: the
    // primary result must survive the tie.
    let (mut run, _) = DecodeRun::start(req(Some("en")));
    run.on_segments(vec![seg("(applause)")])
        .expect("aggressive retry expected");
    assert!(run.on_segments(vec![seg("tapssssss!")]).is_none());
    let result = run.finalize(None);
    assert_eq!(result.text, "(applause)");
}

#[test]
fn strictly_better_scores_replace_the_candidate() {
    let (mut run, _) = DecodeRun::start(req(Some("en")));
    run.on_segments(vec![seg("(applause)")])
        .expect("aggressive retry expected");
    assert!(run
        .on_segments(vec![seg("a longer real transcript")])
        .is_none());
    let result = run.finalize(None);
    assert_eq!(result.text, "a longer real transcript");
}

#[test]
fn finalized_text_joins_segments_in_order_and_collapses_whitespace() {
    let (mut run, _) = DecodeRun::start(req(Some("en")));
    assert!(run
        .on_segments(vec![seg("  first \t chunk "), seg("second"), seg(" third  ")])
        .is_none());
    let result = run.finalize(None);
    assert_eq!(result.text, "first chunk second third");
    assert_eq!(result.segments.len(), 3);
    assert_eq!(result.segments[0].text, "  first \t chunk ");
}

#[test]
fn run_decode_end_to_end_silence_reports_english() {
    let calls = Cell::new(0u32);
    let decode = |opts: DecodeOptions| -> Result<(Vec<TranscriptSegment>, Option<String>), AppError> {
        calls.set(calls.get() + 1);
        if opts.detect_language {
            Ok((Vec::new(), None))
        } else {
            assert_eq!(opts.language.as_deref(), Some("en"));
            Ok((Vec::new(), Some("en".to_string())))
        }
    };
    let result = run_decode(req(None), &decode).unwrap();
    assert_eq!(calls.get(), 2);
    assert_eq!(result.text, "");
    assert_eq!(result.language.as_deref(), Some("en"));
    assert!(result.segments.is_empty());
}

#[test]
fn run_decode_pins_an_explicit_language_and_echoes_it() {
    let calls = Cell::new(0u32);
    let decode = |opts: DecodeOptions| -> Result<(Vec<TranscriptSegment>, Option<String>), AppError> {
        calls.set(calls.get() + 1);
        assert_eq!(opts.language.as_deref(), Some("es"));
        assert!(!opts.detect_language);
        Ok((vec![seg("hola mundo")], Some("es".to_string())))
    };
    let result = run_decode(req(Some("es")), &decode).unwrap();
    assert_eq!(calls.get(), 1, "no fallback pass may run");
    assert_eq!(result.text, "hola mundo");
    assert_eq!(result.language.as_deref(), Some("es"));
}

#[test]
fn run_decode_propagates_engine_errors_without_fallback() {
    let calls = Cell::new(0u32);
    let decode = |_opts: DecodeOptions| -> Result<(Vec<TranscriptSegment>, Option<String>), AppError> {
        calls.set(calls.get() + 1);
        Err(AppError::backend("engine exploded".to_string()))
    };
    let err = run_decode(req(None), &decode).unwrap_err();
    assert_eq!(calls.get(), 1);
    assert!(matches!(err, AppError::Backend(_)));
}

#[test]
fn parenthesized_event_detection() {
    assert!(is_parenthesized_event("(applause)"));
    assert!(is_parenthesized_event("  (music)  "));
    assert!(!is_parenthesized_event("(two words)"));
    assert!(!is_parenthesized_event("words"));
    assert!(!is_parenthesized_event("("));
    assert!(!is_parenthesized_event(""));
}

#[test]
fn nonspeech_only_needs_every_segment_bracketed() {
    assert!(looks_like_non_speech_only(&vec![
        seg("(applause)"),
        seg("(applause)")
    ]));
    assert!(!looks_like_non_speech_only(&vec![
        seg("hello"),
        seg("(applause)")
    ]));
    assert!(!looks_like_non_speech_only(&Vec::new()));
}

#[test]
fn score_counts_normalized_characters() {
    assert_eq!(transcript_score(&vec![seg(" a  b "), seg("c")]), 5);
    assert_eq!(transcript_score(&Vec::new()), 0);
}

#[test]
fn sanitize_trims_texts_and_drops_empty_segments() {
    let raw = vec![
        TranscriptSegment {
            start_cs: 0,
            end_cs: 100,
            text: "  hello ".to_string(),
        },
        TranscriptSegment {
            start_cs: 100,
            end_cs: 200,
            text: "   ".to_string(),
        },
        TranscriptSegment {
            start_cs: 200,
            end_cs: 300,
            text: "world".to_string(),
        },
    ];
    let cleaned = whisper_server::backend::sanitize_segments(raw);
    assert_eq!(cleaned.len(), 2);
    assert_eq!(cleaned[0].text, "hello");
    assert_eq!(cleaned[0].start_cs, 0);
    assert_eq!(cleaned[1].text, "world");
    assert_eq!(cleaned[1].start_cs, 200);
}

#[test]
fn sanitize_of_clean_segments_changes_nothing() {
    let raw = vec![seg("already"), seg("clean")];
    let cleaned = whisper_server::backend::sanitize_segments(raw.clone());
    assert_eq!(cleaned.len(), 2);
    assert_eq!(cleaned[0].text, "already");
    assert_eq!(cleaned[1].text, "clean");
}

#[test]
fn prompt_and_temperature_pass_through_trimmed() {
    let r = TranscribeRequest {
        task: TaskKind::Translate,
        language: Some(" fr ".to_string()),
        prompt: Some("  bias text  ".to_string()),
        temperature_milli: Some(250),
    };
    let (_, first) = DecodeRun::start(r);
    assert_eq!(first.language.as_deref(), Some("fr"));
    assert_eq!(first.prompt.as_deref(), Some("bias text"));
    assert_eq!(first.temperature_milli, Some(250));
    assert!(first.translate);
}
