//! Request-level validation: bearer-token authentication and model-id
//! checks, on the plain values the HTTP layer extracts.

use vstd::prelude::*;

use crate::config::AppConfig;
use crate::error::AppError;
use crate::text::{eq_ignore_case, spec_words, split_words, str_eq, str_eq_ignore_case};

verus! {

/// Whether an authorization header satisfies the configured requirement:
/// no API key configured, or a header of exactly two words — the scheme
/// `bearer` in any ASCII case, then precisely the configured token.
pub open spec fn spec_auth_ok(key: Option<String>, header: Option<Seq<char>>) -> bool {
    match key {
        None => true,
        Some(k) => match header {
            Some(h) => {
                let ws = spec_words(h);
                ws.len() == 2 && eq_ignore_case(ws[0], "bearer"@) && ws[1] == k@
            },
            None => false,
        },
    }
}

/// Enforces optional bearer-token authentication against the raw
/// `Authorization` header value.
pub fn require_auth(api_key: &Option<String>, authorization: Option<&str>) -> (r: Result<
    (),
    AppError,
>)
    ensures
        r is Ok <==> spec_auth_ok(
            *api_key,
            match authorization {
                Some(h) => Some(h@),
                None => None,
            },
        ),
        r matches Err(e) ==> e matches AppError::Unauthorized(_),
{
    let expected = match api_key {
        None => {
            return Ok(());
        },
        Some(k) => k,
    };
    let header = match authorization {
        None => {
            return Err(AppError::unauthorized(String::from_str("missing bearer token")));
        },
        Some(h) => h,
    };
    let words = split_words(header);
    if words.len() != 2 {
        return Err(AppError::unauthorized(String::from_str("missing bearer token")));
    }
    if !str_eq_ignore_case(words[0].as_str(), "bearer") {
        return Err(AppError::unauthorized(String::from_str("missing bearer token")));
    }
    if !str_eq(words[1].as_str(), expected.as_str()) {
        return Err(AppError::unauthorized(String::from_str("invalid token")));
    }
    Ok(())
}

/// Verifies that the requested model id is one the configuration accepts:
/// `whisper-1` or the configured alias, exactly.
pub fn validate_requested_model(cfg: &AppConfig, requested_model: &str) -> (r: Result<
    (),
    AppError,
>)
    ensures
        r is Ok <==> (requested_model@ == "whisper-1"@ || requested_model@
            == cfg.api_model_alias@),
        r matches Err(e) ==> (e matches AppError::InvalidRequest { param, code, .. } && (
        param matches Some(p) && p@ == "model"@) && (code matches Some(c) && c@
            == "invalid_model"@)),
{
    if str_eq(requested_model, "whisper-1") || str_eq(
        requested_model,
        cfg.api_model_alias.as_str(),
    ) {
        return Ok(());
    }
    let mut m = String::from_str("unsupported model=");
    m.append(requested_model);
    m.append("; accepted models: whisper-1");
    if !str_eq(cfg.api_model_alias.as_str(), "whisper-1") {
        m.append(",");
        m.append(cfg.api_model_alias.as_str());
    }
    Err(
        AppError::invalid_request(
            m,
            Some(String::from_str("model")),
            Some(String::from_str("invalid_model")),
        ),
    )
}

} // verus!
