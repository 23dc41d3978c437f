//! Upload validation: the file-extension check that guards audio decoding.

use vstd::prelude::*;

use crate::error::AppError;
use crate::text::{eq_ignore_case, last_index_of, rfind_char, spec_trimmed, str_eq_ignore_case,
    trim};

verus! {

/// The canonical (lowercase) form of a supported audio file extension,
/// matched ignoring ASCII case; `None` for everything unsupported.
pub open spec fn spec_extension_token(t: Seq<char>) -> Option<Seq<char>> {
    if eq_ignore_case(t, "wav"@) {
        Some("wav"@)
    } else if eq_ignore_case(t, "mp3"@) {
        Some("mp3"@)
    } else if eq_ignore_case(t, "m4a"@) {
        Some("m4a"@)
    } else if eq_ignore_case(t, "flac"@) {
        Some("flac"@)
    } else if eq_ignore_case(t, "ogg"@) {
        Some("ogg"@)
    } else if eq_ignore_case(t, "webm"@) {
        Some("webm"@)
    } else {
        None
    }
}

/// What follows the last dot of a filename, when it has one.
pub open spec fn spec_raw_extension(f: Seq<char>) -> Option<Seq<char>> {
    let i = last_index_of(f, '.');
    if i < 0 {
        None
    } else {
        Some(f.subrange(i + 1, f.len() as int))
    }
}

/// Validates and normalizes the file extension from an uploaded filename:
/// the part after the last dot, trimmed, must name a supported audio
/// container in any ASCII case; the canonical lowercase form is returned.
pub fn validate_extension(filename: &str) -> (r: Result<String, AppError>)
    ensures
        ({
            let ext = spec_raw_extension(filename@);
            match r {
                Ok(e) => ext matches Some(x) && spec_extension_token(spec_trimmed(x)) == Some(
                    e@,
                ),
                Err(err) => (err matches AppError::UnsupportedMediaType(_)) && (match ext {
                    None => true,
                    Some(x) => spec_extension_token(spec_trimmed(x)) is None,
                }),
            }
        }),
{
    let n = filename.unicode_len();
    proof {
        crate::text::lemma_last_index_of(filename@, '.');
    }
    let dot = match rfind_char(filename, '.') {
        Some(i) => i,
        None => {
            return Err(
                AppError::unsupported_media_type(
                    String::from_str(
                        "file must include an extension; accepted extensions: .wav,.mp3,.m4a,.flac,.ogg,.webm",
                    ),
                ),
            );
        },
    };
    let raw = filename.substring_char(dot + 1, n);
    let t = trim(raw);
    if str_eq_ignore_case(t, "wav") {
        Ok(String::from_str("wav"))
    } else if str_eq_ignore_case(t, "mp3") {
        Ok(String::from_str("mp3"))
    } else if str_eq_ignore_case(t, "m4a") {
        Ok(String::from_str("m4a"))
    } else if str_eq_ignore_case(t, "flac") {
        Ok(String::from_str("flac"))
    } else if str_eq_ignore_case(t, "ogg") {
        Ok(String::from_str("ogg"))
    } else if str_eq_ignore_case(t, "webm") {
        Ok(String::from_str("webm"))
    } else if str_eq_ignore_case(t, "mp4") {
        Err(
            AppError::unsupported_media_type(
                String::from_str(
                    "unsupported file extension .mp4; accepted extensions: .wav,.mp3,.m4a,.flac,.ogg,.webm",
                ),
            ),
        )
    } else {
        let mut m = String::from_str("unsupported file extension .");
        m.append(t);
        m.append("; accepted extensions: .wav,.mp3,.m4a,.flac,.ogg,.webm");
        Err(AppError::unsupported_media_type(m))
    }
}

} // verus!
