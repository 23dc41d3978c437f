//! Runtime configuration: values handed in from the environment and the
//! command line, validated early so startup fails fast.

use vstd::prelude::*;

use crate::error::AppError;
use crate::text::{
    eq_ignore_case, opt_view, spec_trimmed, str_eq, str_eq_ignore_case, starts_with, trim,
    trimmed_or_none,
};

verus! {

pub const DEFAULT_WHISPER_PARALLELISM: usize = 1;

pub const MAX_WHISPER_PARALLELISM: usize = 8;

/// Supported whisper model sizes.
#[derive(Debug, Clone, Copy, PartialEq, Eq, Structural)]
pub enum WhisperModelSize {
    Tiny,
    TinyEn,
    Base,
    BaseEn,
    Small,
    SmallEn,
    Medium,
    MediumEn,
    LargeV1,
    LargeV2,
    LargeV3,
    Turbo,
}

/// Supported inference backend implementations.
#[derive(Debug, Clone, Copy, PartialEq, Eq, Structural)]
pub enum BackendKind {
    /// Local inference through the bundled recognition engine.
    WhisperRs,
}

/// Hardware acceleration requested for model loading.
#[derive(Debug, Clone, Copy, PartialEq, Eq, Structural)]
pub enum AccelerationKind {
    /// Plain CPU execution, the fallback for every accelerated mode.
    Cpu,
    Metal,
    Cuda,
}

/// The configuration token naming an acceleration mode.
pub open spec fn spec_acceleration_name(k: AccelerationKind) -> Seq<char> {
    match k {
        AccelerationKind::Cpu => "none"@,
        AccelerationKind::Metal => "metal"@,
        AccelerationKind::Cuda => "cuda"@,
    }
}

impl AccelerationKind {
    /// The configuration token naming this mode.
    pub fn as_str(self) -> (r: &'static str)
        ensures
            r@ == spec_acceleration_name(self),
    {
        match self {
            AccelerationKind::Cpu => "none",
            AccelerationKind::Metal => "metal",
            AccelerationKind::Cuda => "cuda",
        }
    }
}

/// Runtime configuration for the HTTP server and inference backend.
#[derive(Debug, Clone)]
pub struct AppConfig {
    /// Host interface to bind, for example `127.0.0.1`.
    pub host: String,
    /// TCP port to bind.
    pub port: u16,
    /// Optional bearer token required by all endpoints.
    pub api_key: Option<String>,
    /// Path to a whisper model file on disk.
    pub whisper_model: String,
    /// Whether `whisper_model` was supplied explicitly.
    pub whisper_model_explicit: bool,
    /// Enables startup download when the model file is missing.
    pub whisper_auto_download: bool,
    /// Remote repository used for model download.
    pub whisper_hf_repo: String,
    /// Model filename in the remote repository.
    pub whisper_hf_filename: String,
    /// Local cache directory for downloaded models.
    pub whisper_cache_dir: String,
    /// Optional token for authenticated model downloads.
    pub hf_token: Option<String>,
    /// Additional accepted model identifier exposed by the API.
    pub api_model_alias: String,
    /// Selected backend implementation.
    pub backend_kind: BackendKind,
    /// Number of parallel inference workers.
    pub whisper_parallelism: usize,
    /// Requested model size used to resolve the default model filename.
    pub whisper_model_size: WhisperModelSize,
    /// Requested hardware acceleration.
    pub acceleration_kind: AccelerationKind,
    /// Whether the acceleration mode was supplied explicitly (no silent
    /// CPU fallback when loading fails).
    pub acceleration_explicit: bool,
}

/// Command-line overrides for runtime configuration.
#[derive(Debug, Clone)]
pub struct CliOptions {
    pub help_requested: bool,
    pub host: Option<String>,
    pub port: Option<u16>,
    pub api_key: Option<String>,
    pub whisper_model: Option<String>,
    pub whisper_model_size: Option<WhisperModelSize>,
    pub whisper_auto_download: Option<bool>,
    pub whisper_hf_repo: Option<String>,
    pub whisper_hf_filename: Option<String>,
    pub whisper_cache_dir: Option<String>,
    pub hf_token: Option<String>,
    pub api_model_alias: Option<String>,
    pub backend_kind: Option<BackendKind>,
    pub whisper_parallelism: Option<usize>,
}

/// The options value with nothing set.
pub open spec fn cli_defaults() -> CliOptions {
    CliOptions {
        help_requested: false,
        host: None,
        port: None,
        api_key: None,
        whisper_model: None,
        whisper_model_size: None,
        whisper_auto_download: None,
        whisper_hf_repo: None,
        whisper_hf_filename: None,
        whisper_cache_dir: None,
        hf_token: None,
        api_model_alias: None,
        backend_kind: None,
        whisper_parallelism: None,
    }
}

impl Default for CliOptions {
    /// Returns the options value with nothing set.
    fn default() -> (r: Self)
        ensures
            r == cli_defaults(),
    {
        CliOptions {
            help_requested: false,
            host: None,
            port: None,
            api_key: None,
            whisper_model: None,
            whisper_model_size: None,
            whisper_auto_download: None,
            whisper_hf_repo: None,
            whisper_hf_filename: None,
            whisper_cache_dir: None,
            hf_token: None,
            api_model_alias: None,
            backend_kind: None,
            whisper_parallelism: None,
        }
    }
}

/// Raw environment values handed in by the process bootstrap, one field per
/// variable the configuration reads. `None` means the variable was unset.
#[derive(Debug, Clone)]
pub struct EnvValues {
    pub host: Option<String>,
    pub port: Option<String>,
    pub api_key: Option<String>,
    pub whisper_model: Option<String>,
    pub whisper_model_size: Option<String>,
    pub whisper_auto_download: Option<String>,
    pub whisper_hf_repo: Option<String>,
    pub whisper_hf_filename: Option<String>,
    pub whisper_cache_dir: Option<String>,
    pub hf_token: Option<String>,
    pub api_model_alias: Option<String>,
    pub whisper_backend: Option<String>,
    pub whisper_parallelism: Option<String>,
    pub acceleration: Option<String>,
    pub home: Option<String>,
}

impl Default for EnvValues {
    /// An environment with nothing set.
    fn default() -> (r: Self)
        ensures
            r.host is None,
            r.port is None,
            r.api_key is None,
            r.whisper_model is None,
            r.whisper_model_size is None,
            r.whisper_auto_download is None,
            r.whisper_hf_repo is None,
            r.whisper_hf_filename is None,
            r.whisper_cache_dir is None,
            r.hf_token is None,
            r.api_model_alias is None,
            r.whisper_backend is None,
            r.whisper_parallelism is None,
            r.acceleration is None,
            r.home is None,
    {
        EnvValues {
            host: None,
            port: None,
            api_key: None,
            whisper_model: None,
            whisper_model_size: None,
            whisper_auto_download: None,
            whisper_hf_repo: None,
            whisper_hf_filename: None,
            whisper_cache_dir: None,
            hf_token: None,
            api_model_alias: None,
            whisper_backend: None,
            whisper_parallelism: None,
            acceleration: None,
            home: None,
        }
    }
}

/// Whether `c` is a decimal digit.
pub open spec fn is_digit(c: char) -> bool {
    48 <= (c as u32) && (c as u32) <= 57
}

/// The value of a digit character (0 for anything else).
pub open spec fn digit_val(c: char) -> int {
    if is_digit(c) {
        (c as u32) - 48
    } else {
        0
    }
}

/// Whether `t` is one or more decimal digits.
pub open spec fn all_digits(t: Seq<char>) -> bool {
    t.len() > 0 && (forall|i: int| 0 <= i < t.len() ==> is_digit(t[i]))
}

/// The numeric value of a digit string.
pub open spec fn digits_val(t: Seq<char>) -> int
    decreases t.len(),
{
    if t.len() == 0 {
        0
    } else {
        digits_val(t.drop_last()) * 10 + digit_val(t.last())
    }
}

/// What Rust's unsigned-integer parsing accepts: an optional leading plus
/// sign followed by one or more digits.
pub open spec fn spec_parse_uint(s: Seq<char>) -> Option<int> {
    let t = if s.len() > 0 && s[0] == '+' {
        s.drop_first()
    } else {
        s
    };
    if all_digits(t) {
        Some(digits_val(t))
    } else {
        None
    }
}

pub proof fn lemma_digits_val_nonneg(t: Seq<char>)
    ensures
        digits_val(t) >= 0,
    decreases t.len(),
{
    if t.len() > 0 {
        lemma_digits_val_nonneg(t.drop_last());
    }
}

/// Parses a non-negative integer no larger than `max`; `None` when `s` is
/// not a valid integer or its value exceeds `max`.
pub fn parse_bounded_uint(s: &str, max: u64) -> (r: Option<u64>)
    ensures
        ({
            let p = spec_parse_uint(s@);
            match p {
                Some(v) => v >= 0 && (if v <= max {
                    r == Some(v as u64)
                } else {
                    r is None
                }),
                None => r is None,
            }
        }),
{
    proof {
        if s@.len() > 0 && s@[0] == '+' {
            lemma_digits_val_nonneg(s@.drop_first());
        } else {
            lemma_digits_val_nonneg(s@);
        }
    }
    let n = s.unicode_len();
    let plus: bool = n > 0 && s.get_char(0) == '+';
    let start: usize = if plus {
        1
    } else {
        0
    };
    let ghost t = if plus {
        s@.drop_first()
    } else {
        s@
    };
    proof {
        assert(t.len() == n - start);
        assert(forall|j: int| 0 <= j < t.len() ==> t[j] == s@[j + start]);
    }
    if n == start {
        return None;
    }
    let cap: u128 = (max as u128) + 1;
    let mut val: u128 = 0;
    let mut i: usize = start;
    while i < n
        invariant
            start <= i <= n,
            n == s@.len(),
            t == (if s@.len() > 0 && s@[0] == '+' {
                s@.drop_first()
            } else {
                s@
            }),
            t.len() == n - start,
            forall|j: int| 0 <= j < t.len() ==> t[j] == s@[j + start],
            forall|j: int| 0 <= j < i - start ==> is_digit(t[j]),
            cap == max as u128 + 1,
            val <= cap,
            digits_val(t.take(i - start)) <= max ==> val == digits_val(t.take(i - start)),
            digits_val(t.take(i - start)) > max ==> val == cap,
        decreases n - i,
    {
        let c = s.get_char(i);
        let u = c as u32;
        if !(48 <= u && u <= 57) {
            proof {
                assert(t[i - start] == s@[i as int]);
                assert(!is_digit(t[i - start]));
                assert(!all_digits(t));
                assert(spec_parse_uint(s@) is None);
            }
            return None;
        }
        let d: u128 = (u - 48) as u128;
        let nv: u128 = val * 10 + d;
        proof {
            let j = i - start;
            assert(t.take(j + 1).drop_last() =~= t.take(j));
            assert(digits_val(t.take(j + 1)) == digits_val(t.take(j)) * 10 + digit_val(t[j]));
            lemma_digits_val_nonneg(t.take(j));
        }
        val = if nv > max as u128 {
            cap
        } else {
            nv
        };
        i += 1;
    }
    proof {
        assert(t.take(t.len() as int) =~= t);
        assert(all_digits(t));
    }
    if val > max as u128 {
        proof {
            lemma_digits_val_nonneg(t);
        }
        None
    } else {
        Some(val as u64)
    }
}

/// Builds `"invalid <name>=<raw>; expected <expected>"`.
fn invalid_value_message(name: &str, raw: &str, expected: &str) -> String {
    let mut m = String::from_str("invalid ");
    m.append(name);
    m.append("=");
    m.append(raw);
    m.append("; expected ");
    m.append(expected);
    m
}

/// Parses a TCP port: an integer in `[1, 65535]`.
pub fn parse_u16_option(name: &str, raw: &str) -> (r: Result<u16, AppError>)
    ensures
        ({
            let p = spec_parse_uint(spec_trimmed(raw@));
            match r {
                Ok(v) => p == Some(v as int) && v >= 1,
                Err(e) => (e matches AppError::Internal(_)) && (match p {
                    Some(v) => v == 0 || v > 65535,
                    None => true,
                }),
            }
        }),
{
    let trimmed = trim(raw);
    match parse_bounded_uint(trimmed, 65535) {
        Some(v) => {
            if v == 0 {
                Err(AppError::internal(invalid_value_message(name, raw, "> 0")))
            } else {
                Ok(v as u16)
            }
        },
        None => Err(AppError::internal(invalid_value_message(name, raw, "integer 1-65535"))),
    }
}

/// The boolean named by a (trimmed) configuration token, if any: the usual
/// on/off spellings, ASCII case ignored.
pub open spec fn spec_bool_token(t: Seq<char>) -> Option<bool> {
    if eq_ignore_case(t, "1"@) || eq_ignore_case(t, "true"@) || eq_ignore_case(t, "yes"@)
        || eq_ignore_case(t, "on"@) {
        Some(true)
    } else if eq_ignore_case(t, "0"@) || eq_ignore_case(t, "false"@) || eq_ignore_case(t, "no"@)
        || eq_ignore_case(t, "off"@) {
        Some(false)
    } else {
        None
    }
}

/// Parses a boolean configuration value.
pub fn parse_bool_option(name: &str, raw: &str) -> (r: Result<bool, AppError>)
    ensures
        ({
            let p = spec_bool_token(spec_trimmed(raw@));
            match r {
                Ok(b) => p == Some(b),
                Err(e) => (e matches AppError::Internal(_)) && p is None,
            }
        }),
{
    let trimmed = trim(raw);
    if str_eq_ignore_case(trimmed, "1") || str_eq_ignore_case(trimmed, "true")
        || str_eq_ignore_case(trimmed, "yes") || str_eq_ignore_case(trimmed, "on") {
        Ok(true)
    } else if str_eq_ignore_case(trimmed, "0") || str_eq_ignore_case(trimmed, "false")
        || str_eq_ignore_case(trimmed, "no") || str_eq_ignore_case(trimmed, "off") {
        Ok(false)
    } else {
        Err(AppError::internal(invalid_value_message(name, raw, "true/false")))
    }
}

/// Parses an integer bounded to `[min, max]`.
pub fn parse_usize_bounded(name: &str, raw: &str, min: usize, max: usize) -> (r: Result<
    usize,
    AppError,
>)
    ensures
        ({
            let p = spec_parse_uint(spec_trimmed(raw@));
            match r {
                Ok(v) => p == Some(v as int) && min <= v <= max,
                Err(e) => (e matches AppError::Internal(_)) && (match p {
                    Some(v) => v < min || v > max,
                    None => true,
                }),
            }
        }),
{
    let trimmed = trim(raw);
    let mut expected = String::from_str("integer in range [");
    expected.append(crate::text::u64_to_string(min as u64).as_str());
    expected.append(", ");
    expected.append(crate::text::u64_to_string(max as u64).as_str());
    expected.append("]");
    match parse_bounded_uint(trimmed, max as u64) {
        Some(v) => {
            let vu: usize = v as usize;
            if vu < min {
                Err(AppError::internal(invalid_value_message(name, raw, expected.as_str())))
            } else {
                Ok(vu)
            }
        },
        None => Err(AppError::internal(invalid_value_message(name, raw, expected.as_str()))),
    }
}

/// The model size named by a (trimmed) configuration token, if any,
/// ASCII case ignored.
pub open spec fn spec_model_size_token(t: Seq<char>) -> Option<WhisperModelSize> {
    if eq_ignore_case(t, "tiny"@) {
        Some(WhisperModelSize::Tiny)
    } else if eq_ignore_case(t, "tiny.en"@) {
        Some(WhisperModelSize::TinyEn)
    } else if eq_ignore_case(t, "base"@) {
        Some(WhisperModelSize::Base)
    } else if eq_ignore_case(t, "base.en"@) {
        Some(WhisperModelSize::BaseEn)
    } else if eq_ignore_case(t, "small"@) {
        Some(WhisperModelSize::Small)
    } else if eq_ignore_case(t, "small.en"@) {
        Some(WhisperModelSize::SmallEn)
    } else if eq_ignore_case(t, "medium"@) {
        Some(WhisperModelSize::Medium)
    } else if eq_ignore_case(t, "medium.en"@) {
        Some(WhisperModelSize::MediumEn)
    } else if eq_ignore_case(t, "large-v1"@) {
        Some(WhisperModelSize::LargeV1)
    } else if eq_ignore_case(t, "large-v2"@) {
        Some(WhisperModelSize::LargeV2)
    } else if eq_ignore_case(t, "large"@) || eq_ignore_case(t, "large-v3"@) {
        Some(WhisperModelSize::LargeV3)
    } else if eq_ignore_case(t, "large-v3-turbo"@) || eq_ignore_case(t, "turbo"@) {
        Some(WhisperModelSize::Turbo)
    } else {
        None
    }
}

/// Parses a model size name.
pub fn parse_model_size(name: &str, raw: &str) -> (r: Result<WhisperModelSize, AppError>)
    ensures
        ({
            let p = spec_model_size_token(spec_trimmed(raw@));
            match r {
                Ok(s) => p == Some(s),
                Err(e) => (e matches AppError::Internal(_)) && p is None,
            }
        }),
{
    let t = trim(raw);
    if str_eq_ignore_case(t, "tiny") {
        Ok(WhisperModelSize::Tiny)
    } else if str_eq_ignore_case(t, "tiny.en") {
        Ok(WhisperModelSize::TinyEn)
    } else if str_eq_ignore_case(t, "base") {
        Ok(WhisperModelSize::Base)
    } else if str_eq_ignore_case(t, "base.en") {
        Ok(WhisperModelSize::BaseEn)
    } else if str_eq_ignore_case(t, "small") {
        Ok(WhisperModelSize::Small)
    } else if str_eq_ignore_case(t, "small.en") {
        Ok(WhisperModelSize::SmallEn)
    } else if str_eq_ignore_case(t, "medium") {
        Ok(WhisperModelSize::Medium)
    } else if str_eq_ignore_case(t, "medium.en") {
        Ok(WhisperModelSize::MediumEn)
    } else if str_eq_ignore_case(t, "large-v1") {
        Ok(WhisperModelSize::LargeV1)
    } else if str_eq_ignore_case(t, "large-v2") {
        Ok(WhisperModelSize::LargeV2)
    } else if str_eq_ignore_case(t, "large") || str_eq_ignore_case(t, "large-v3") {
        Ok(WhisperModelSize::LargeV3)
    } else if str_eq_ignore_case(t, "large-v3-turbo") || str_eq_ignore_case(t, "turbo") {
        Ok(WhisperModelSize::Turbo)
    } else {
        Err(
            AppError::internal(
                invalid_value_message(
                    name,
                    raw,
                    "one of tiny|tiny.en|base|base.en|small|small.en|medium|medium.en|large-v1|large-v2|large-v3|large-v3-turbo|turbo",
                ),
            ),
        )
    }
}

/// Parses an inference backend name; only the bundled engine is supported.
pub fn parse_backend_kind(raw: &str) -> (r: Result<BackendKind, AppError>)
    ensures
        match r {
            Ok(b) => b == BackendKind::WhisperRs && spec_trimmed(raw@) == "whisper-rs"@,
            Err(e) => (e matches AppError::Internal(_)) && spec_trimmed(raw@) != "whisper-rs"@,
        },
{
    let t = trim(raw);
    if str_eq(t, "whisper-rs") {
        Ok(BackendKind::WhisperRs)
    } else {
        Err(AppError::internal(invalid_value_message("WHISPER_BACKEND", raw, "whisper-rs")))
    }
}

/// The acceleration mode named by a (trimmed) configuration token, if any,
/// ASCII case ignored.
pub open spec fn spec_acceleration_token(t: Seq<char>) -> Option<AccelerationKind> {
    if eq_ignore_case(t, "none"@) || eq_ignore_case(t, "cpu"@) {
        Some(AccelerationKind::Cpu)
    } else if eq_ignore_case(t, "metal"@) {
        Some(AccelerationKind::Metal)
    } else if eq_ignore_case(t, "cuda"@) {
        Some(AccelerationKind::Cuda)
    } else {
        None
    }
}

/// Parses an acceleration mode name.
pub fn parse_acceleration(name: &str, raw: &str) -> (r: Result<AccelerationKind, AppError>)
    ensures
        ({
            let p = spec_acceleration_token(spec_trimmed(raw@));
            match r {
                Ok(k) => p == Some(k),
                Err(e) => (e matches AppError::Internal(_)) && p is None,
            }
        }),
{
    let t = trim(raw);
    if str_eq_ignore_case(t, "none") || str_eq_ignore_case(t, "cpu") {
        Ok(AccelerationKind::Cpu)
    } else if str_eq_ignore_case(t, "metal") {
        Ok(AccelerationKind::Metal)
    } else if str_eq_ignore_case(t, "cuda") {
        Ok(AccelerationKind::Cuda)
    } else {
        Err(AppError::internal(invalid_value_message(name, raw, "none|metal|cuda")))
    }
}

/// The default model filename for each model size.
pub open spec fn spec_model_filename(size: WhisperModelSize) -> Seq<char> {
    match size {
        WhisperModelSize::Tiny => "ggml-tiny.bin"@,
        WhisperModelSize::TinyEn => "ggml-tiny.en.bin"@,
        WhisperModelSize::Base => "ggml-base.bin"@,
        WhisperModelSize::BaseEn => "ggml-base.en.bin"@,
        WhisperModelSize::Small => "ggml-small.bin"@,
        WhisperModelSize::SmallEn => "ggml-small.en.bin"@,
        WhisperModelSize::Medium => "ggml-medium.bin"@,
        WhisperModelSize::MediumEn => "ggml-medium.en.bin"@,
        WhisperModelSize::LargeV1 => "ggml-large-v1.bin"@,
        WhisperModelSize::LargeV2 => "ggml-large-v2.bin"@,
        WhisperModelSize::LargeV3 => "ggml-large-v3.bin"@,
        WhisperModelSize::Turbo => "ggml-large-v3-turbo.bin"@,
    }
}

/// The default model filename for a model size.
pub fn whisper_model_filename(size: WhisperModelSize) -> (r: &'static str)
    ensures
        r@ == spec_model_filename(size),
{
    match size {
        WhisperModelSize::Tiny => "ggml-tiny.bin",
        WhisperModelSize::TinyEn => "ggml-tiny.en.bin",
        WhisperModelSize::Base => "ggml-base.bin",
        WhisperModelSize::BaseEn => "ggml-base.en.bin",
        WhisperModelSize::Small => "ggml-small.bin",
        WhisperModelSize::SmallEn => "ggml-small.en.bin",
        WhisperModelSize::Medium => "ggml-medium.bin",
        WhisperModelSize::MediumEn => "ggml-medium.en.bin",
        WhisperModelSize::LargeV1 => "ggml-large-v1.bin",
        WhisperModelSize::LargeV2 => "ggml-large-v2.bin",
        WhisperModelSize::LargeV3 => "ggml-large-v3.bin",
        WhisperModelSize::Turbo => "ggml-large-v3-turbo.bin",
    }
}

/// The effective value of a string variable: the trimmed value when
/// non-empty, the default otherwise.
pub open spec fn spec_env_str(v: Option<Seq<char>>, d: Seq<char>) -> Seq<char> {
    match v {
        Some(s) => if spec_trimmed(s).len() > 0 {
            spec_trimmed(s)
        } else {
            d
        },
        None => d,
    }
}

/// Reads a string variable with a default.
pub fn env_str(value: Option<&String>, default: &str) -> (r: String)
    ensures
        r@ == spec_env_str(
            match value {
                Some(s) => Some(s@),
                None => None,
            },
            default@,
        ),
{
    match value {
        Some(s) => {
            let t = trim(s.as_str());
            if t.unicode_len() > 0 {
                String::from_str(t)
            } else {
                String::from_str(default)
            }
        },
        None => String::from_str(default),
    }
}

/// Reads an optional string variable; whitespace-only values count as unset.
pub fn env_opt(value: Option<&String>) -> (r: Option<String>)
    ensures
        opt_view(r) == trimmed_or_none(
            match value {
                Some(s) => Some(s@),
                None => None,
            },
        ),
{
    match value {
        Some(s) => {
            let t = trim(s.as_str());
            if t.unicode_len() > 0 {
                Some(String::from_str(t))
            } else {
                None
            }
        },
        None => None,
    }
}

/// The default model cache directory under the home directory.
pub open spec fn spec_default_cache_dir(home: Option<Seq<char>>) -> Seq<char> {
    (match home {
        Some(h) => h,
        None => "/Users/user"@,
    }) + "/.cache/whispercpp/models"@
}

fn default_whisper_cache_dir(home: Option<&String>) -> (r: String)
    ensures
        r@ == spec_default_cache_dir(
            match home {
                Some(h) => Some(h@),
                None => None,
            },
        ),
{
    let mut base = match home {
        Some(h) => h.clone(),
        None => String::from_str("/Users/user"),
    };
    base.append("/.cache/whispercpp/models");
    base
}

/// Replaces `slot` when an override value is supplied.
fn override_slot<A>(slot: &mut A, value: Option<A>)
    ensures
        *final(slot) == (match value {
            Some(v) => v,
            None => *old(slot),
        }),
{
    if let Some(v) = value {
        *slot = v;
    }
}

/// Whether any environment value is invalid, making configuration fail:
/// a bad port, model size, auto-download flag, backend name, parallelism,
/// or acceleration mode.
pub open spec fn spec_env_rejected(env: EnvValues) -> bool {
    ||| (match env.port {
        Some(p) => match spec_parse_uint(spec_trimmed(p@)) {
            Some(v) => v == 0 || v > 65535,
            None => true,
        },
        None => false,
    })
    ||| (match env.whisper_model_size {
        Some(s) => spec_model_size_token(spec_trimmed(s@)) is None,
        None => false,
    })
    ||| (match env.whisper_auto_download {
        Some(s) => spec_bool_token(spec_trimmed(s@)) is None,
        None => false,
    })
    ||| spec_trimmed(spec_env_str(opt_view(env.whisper_backend), "whisper-rs"@)) != "whisper-rs"@
    ||| (match env.whisper_parallelism {
        Some(s) => match spec_parse_uint(spec_trimmed(s@)) {
            Some(v) => v < 1 || v > 8,
            None => true,
        },
        None => false,
    })
    ||| (match trimmed_or_none(opt_view(env.acceleration)) {
        Some(a) => spec_acceleration_token(spec_trimmed(a)) is None,
        None => false,
    })
}

impl AppConfig {
    /// Builds configuration from raw environment values.
    ///
    /// Variables and defaults:
    /// - `HOST` (default `127.0.0.1`)
    /// - `PORT` (default `8000`)
    /// - `WHISPER_MODEL` (optional explicit local model path)
    /// - `WHISPER_MODEL_SIZE` (default `small`)
    /// - `WHISPER_AUTO_DOWNLOAD` (default `true`)
    /// - `WHISPER_HF_REPO` (default `ggerganov/whisper.cpp`)
    /// - `WHISPER_HF_FILENAME` (default derived from the model size)
    /// - `WHISPER_CACHE_DIR` (default `$HOME/.cache/whispercpp/models`)
    /// - `HF_TOKEN` (optional download token)
    /// - `WHISPER_MODEL_ALIAS` (default `whisper-mlx`)
    /// - `WHISPER_BACKEND` (only `whisper-rs` is currently supported)
    /// - `WHISPER_PARALLELISM` (default `1`, min `1`, max `8`)
    /// - `WHISPER_ACCELERATION` (default `none`)
    /// - `API_KEY` (optional)
    pub fn from_env(env: &EnvValues) -> (r: Result<Self, AppError>)
        ensures
            r is Err <==> spec_env_rejected(*env),
            match r {
                Ok(c) => ({
                    &&& c.host@ == spec_env_str(opt_view(env.host), "127.0.0.1"@)
                    &&& (match env.port {
                        Some(p) => spec_parse_uint(spec_trimmed(p@)) == Some(c.port as int)
                            && c.port >= 1,
                        None => c.port == 8000,
                    })
                    &&& (match env.whisper_model_size {
                        Some(s) => spec_model_size_token(spec_trimmed(s@)) == Some(
                            c.whisper_model_size,
                        ),
                        None => c.whisper_model_size == WhisperModelSize::Small,
                    })
                    &&& (match env.whisper_auto_download {
                        Some(s) => spec_bool_token(spec_trimmed(s@)) == Some(
                            c.whisper_auto_download,
                        ),
                        None => c.whisper_auto_download == true,
                    })
                    &&& c.whisper_hf_repo@ == spec_env_str(
                        opt_view(env.whisper_hf_repo),
                        "ggerganov/whisper.cpp"@,
                    )
                    &&& c.whisper_hf_filename@ == spec_env_str(
                        opt_view(env.whisper_hf_filename),
                        spec_model_filename(c.whisper_model_size),
                    )
                    &&& c.whisper_cache_dir@ == spec_env_str(
                        opt_view(env.whisper_cache_dir),
                        spec_default_cache_dir(opt_view(env.home)),
                    )
                    &&& c.whisper_model_explicit == (trimmed_or_none(opt_view(env.whisper_model))
                        is Some)
                    &&& (match trimmed_or_none(opt_view(env.whisper_model)) {
                        Some(m) => c.whisper_model@ == m,
                        None => c.whisper_model@ == c.whisper_cache_dir@ + "/"@
                            + c.whisper_hf_filename@,
                    })
                    &&& c.api_model_alias@ == spec_env_str(
                        opt_view(env.api_model_alias),
                        "whisper-mlx"@,
                    )
                    &&& c.backend_kind == BackendKind::WhisperRs
                    &&& (match env.whisper_parallelism {
                        Some(s) => spec_parse_uint(spec_trimmed(s@)) == Some(
                            c.whisper_parallelism as int,
                        ),
                        None => c.whisper_parallelism == 1,
                    })
                    &&& 1 <= c.whisper_parallelism <= 8
                    &&& opt_view(c.api_key) == trimmed_or_none(opt_view(env.api_key))
                    &&& opt_view(c.hf_token) == trimmed_or_none(opt_view(env.hf_token))
                    &&& c.acceleration_explicit == (trimmed_or_none(opt_view(env.acceleration))
                        is Some)
                    &&& (match trimmed_or_none(opt_view(env.acceleration)) {
                        Some(a) => spec_acceleration_token(spec_trimmed(a)) == Some(
                            c.acceleration_kind,
                        ),
                        None => c.acceleration_kind == AccelerationKind::Cpu,
                    })
                }),
                Err(e) => e matches AppError::Internal(_),
            },
    {
        let host = env_str(env.host.as_ref(), "127.0.0.1");
        let port: u16 = match env.port.as_ref() {
            Some(s) => parse_u16_option("PORT", s.as_str())?,
            None => 8000,
        };
        let whisper_model_size = match env.whisper_model_size.as_ref() {
            Some(s) => parse_model_size("WHISPER_MODEL_SIZE", s.as_str())?,
            None => WhisperModelSize::Small,
        };
        let whisper_auto_download = match env.whisper_auto_download.as_ref() {
            Some(s) => parse_bool_option("WHISPER_AUTO_DOWNLOAD", s.as_str())?,
            None => true,
        };
        let whisper_hf_repo = env_str(env.whisper_hf_repo.as_ref(), "ggerganov/whisper.cpp");
        let whisper_hf_filename = env_str(
            env.whisper_hf_filename.as_ref(),
            whisper_model_filename(whisper_model_size),
        );
        let default_cache = default_whisper_cache_dir(env.home.as_ref());
        let whisper_cache_dir = env_str(env.whisper_cache_dir.as_ref(), default_cache.as_str());
        let explicit_model = env_opt(env.whisper_model.as_ref());
        let whisper_model_explicit = explicit_model.is_some();
        let whisper_model = match explicit_model {
            Some(m) => m,
            None => {
                let mut p = whisper_cache_dir.clone();
                p.append("/");
                p.append(whisper_hf_filename.as_str());
                p
            },
        };
        let api_model_alias = env_str(env.api_model_alias.as_ref(), "whisper-mlx");
        let backend_raw = env_str(env.whisper_backend.as_ref(), "whisper-rs");
        let backend_kind = parse_backend_kind(backend_raw.as_str())?;
        let whisper_parallelism = match env.whisper_parallelism.as_ref() {
            Some(s) => parse_usize_bounded(
                "WHISPER_PARALLELISM",
                s.as_str(),
                1,
                MAX_WHISPER_PARALLELISM,
            )?,
            None => DEFAULT_WHISPER_PARALLELISM,
        };
        let acceleration_value = env_opt(env.acceleration.as_ref());
        let acceleration_explicit = acceleration_value.is_some();
        let acceleration_kind = match acceleration_value {
            Some(a) => parse_acceleration("WHISPER_ACCELERATION", a.as_str())?,
            None => AccelerationKind::Cpu,
        };
        proof {
            reveal_strlit("whisper-rs");
        }
        Ok(
            AppConfig {
                host,
                port,
                api_key: env_opt(env.api_key.as_ref()),
                whisper_model,
                whisper_model_explicit,
                whisper_auto_download,
                whisper_hf_repo,
                whisper_hf_filename,
                whisper_cache_dir,
                hf_token: env_opt(env.hf_token.as_ref()),
                api_model_alias,
                backend_kind,
                whisper_parallelism,
                whisper_model_size,
                acceleration_kind,
                acceleration_explicit,
            },
        )
    }

    /// Returns all accepted model identifiers for request validation:
    /// always `whisper-1`, plus the configured alias when different.
    pub fn accepted_model_ids(&self) -> (r: Vec<String>)
        ensures
            r@.len() >= 1,
            r@[0]@ == "whisper-1"@,
            self.api_model_alias@ == "whisper-1"@ ==> r@.len() == 1,
            self.api_model_alias@ != "whisper-1"@ ==> r@.len() == 2 && r@[1]@
                == self.api_model_alias@,
    {
        let mut ids: Vec<String> = Vec::new();
        ids.push(String::from_str("whisper-1"));
        if !str_eq(self.api_model_alias.as_str(), "whisper-1") {
            ids.push(self.api_model_alias.clone());
        }
        ids
    }

    /// Replaces each configuration field for which an override was given.
    fn apply_override_fields(&mut self, options: CliOptions)
        ensures
            final(self).whisper_model == (match options.whisper_model {
                Some(m) => m,
                None => old(self).whisper_model,
            }),
            final(self).host == (match options.host {
                Some(h) => h,
                None => old(self).host,
            }),
            final(self).port == (match options.port {
                Some(p) => p,
                None => old(self).port,
            }),
            final(self).api_key == (match options.api_key {
                Some(k) => Some(k),
                None => old(self).api_key,
            }),
            final(self).whisper_model_explicit == (old(self).whisper_model_explicit
                || options.whisper_model is Some),
            final(self).whisper_model_size == (match options.whisper_model_size {
                Some(s) => s,
                None => old(self).whisper_model_size,
            }),
            final(self).whisper_hf_filename@ == (match options.whisper_hf_filename {
                Some(f) => f@,
                None => match options.whisper_model_size {
                    Some(s) => spec_model_filename(s),
                    None => old(self).whisper_hf_filename@,
                },
            }),
            final(self).whisper_auto_download == (match options.whisper_auto_download {
                Some(b) => b,
                None => old(self).whisper_auto_download,
            }),
            final(self).whisper_hf_repo == (match options.whisper_hf_repo {
                Some(x) => x,
                None => old(self).whisper_hf_repo,
            }),
            final(self).whisper_cache_dir == (match options.whisper_cache_dir {
                Some(x) => x,
                None => old(self).whisper_cache_dir,
            }),
            final(self).hf_token == (match options.hf_token {
                Some(x) => Some(x),
                None => old(self).hf_token,
            }),
            final(self).api_model_alias == (match options.api_model_alias {
                Some(x) => x,
                None => old(self).api_model_alias,
            }),
            final(self).backend_kind == (match options.backend_kind {
                Some(x) => x,
                None => old(self).backend_kind,
            }),
            final(self).whisper_parallelism == (match options.whisper_parallelism {
                Some(x) => x,
                None => old(self).whisper_parallelism,
            }),
            final(self).acceleration_kind == old(self).acceleration_kind,
            final(self).acceleration_explicit == old(self).acceleration_explicit,
    {
        override_slot(&mut self.host, options.host);
        override_slot(&mut self.port, options.port);
        if let Some(api_key) = options.api_key {
            self.api_key = Some(api_key);
        }
        if let Some(whisper_model) = options.whisper_model {
            self.whisper_model = whisper_model;
            self.whisper_model_explicit = true;
        }
        if let Some(whisper_model_size) = options.whisper_model_size {
            self.whisper_model_size = whisper_model_size;
            self.whisper_hf_filename = String::from_str(
                whisper_model_filename(whisper_model_size),
            );
        }
        override_slot(&mut self.whisper_auto_download, options.whisper_auto_download);
        override_slot(&mut self.whisper_hf_repo, options.whisper_hf_repo);
        override_slot(&mut self.whisper_hf_filename, options.whisper_hf_filename);
        override_slot(&mut self.whisper_cache_dir, options.whisper_cache_dir);
        if let Some(hf_token) = options.hf_token {
            self.hf_token = Some(hf_token);
        }
        override_slot(&mut self.api_model_alias, options.api_model_alias);
        override_slot(&mut self.backend_kind, options.backend_kind);
        override_slot(&mut self.whisper_parallelism, options.whisper_parallelism);
    }

    /// Applies command-line overrides on top of environment-derived values:
    /// every supplied option replaces the current value, a supplied model
    /// path pins the model, and a derived (non-explicit) model path is
    /// recomputed from the final cache directory and filename.
    pub fn apply_cli_overrides(&mut self, options: CliOptions)
        ensures
            final(self).host == (match options.host {
                Some(h) => h,
                None => old(self).host,
            }),
            final(self).port == (match options.port {
                Some(p) => p,
                None => old(self).port,
            }),
            final(self).api_key == (match options.api_key {
                Some(k) => Some(k),
                None => old(self).api_key,
            }),
            final(self).whisper_model_explicit == (old(self).whisper_model_explicit
                || options.whisper_model is Some),
            final(self).whisper_model_size == (match options.whisper_model_size {
                Some(s) => s,
                None => old(self).whisper_model_size,
            }),
            final(self).whisper_hf_filename@ == (match options.whisper_hf_filename {
                Some(f) => f@,
                None => match options.whisper_model_size {
                    Some(s) => spec_model_filename(s),
                    None => old(self).whisper_hf_filename@,
                },
            }),
            final(self).whisper_auto_download == (match options.whisper_auto_download {
                Some(b) => b,
                None => old(self).whisper_auto_download,
            }),
            final(self).whisper_hf_repo == (match options.whisper_hf_repo {
                Some(x) => x,
                None => old(self).whisper_hf_repo,
            }),
            final(self).whisper_cache_dir == (match options.whisper_cache_dir {
                Some(x) => x,
                None => old(self).whisper_cache_dir,
            }),
            final(self).hf_token == (match options.hf_token {
                Some(x) => Some(x),
                None => old(self).hf_token,
            }),
            final(self).api_model_alias == (match options.api_model_alias {
                Some(x) => x,
                None => old(self).api_model_alias,
            }),
            final(self).backend_kind == (match options.backend_kind {
                Some(x) => x,
                None => old(self).backend_kind,
            }),
            final(self).whisper_parallelism == (match options.whisper_parallelism {
                Some(x) => x,
                None => old(self).whisper_parallelism,
            }),
            final(self).whisper_model_explicit ==> final(self).whisper_model == (match options
                .whisper_model {
                Some(m) => m,
                None => old(self).whisper_model,
            }),
            !final(self).whisper_model_explicit ==> final(self).whisper_model@ == final(
                self).whisper_cache_dir@ + "/"@ + final(self).whisper_hf_filename@,
            final(self).acceleration_kind == old(self).acceleration_kind,
            final(self).acceleration_explicit == old(self).acceleration_explicit,
    {
        self.apply_override_fields(options);
        if !self.whisper_model_explicit {
            let mut p = self.whisper_cache_dir.clone();
            p.append("/");
            p.append(self.whisper_hf_filename.as_str());
            self.whisper_model = p;
        }
    }
}

/// Splits a long option token: `--name=value` into the name and inline
/// value, a plain `--name` into itself; anything not starting with `--`
/// is refused.
pub fn split_long_option(token: &str) -> (r: Option<(&str, Option<&str>)>)
    ensures
        match r {
            None => !(token@.len() >= 2 && token@.subrange(0, 2) == "--"@),
            Some((name, inline)) => token@.len() >= 2 && token@.subrange(0, 2) == "--"@ && (
            match inline {
                Some(v) => {
                    let e = crate::text::first_index_of(token@, '=');
                    e < token@.len() && name@ == token@.subrange(0, e) && v@ == token@.subrange(
                        e + 1,
                        token@.len() as int,
                    )
                },
                None => crate::text::first_index_of(token@, '=') == token@.len() && name@
                    == token@,
            }),
        },
{
    proof {
        reveal_strlit("--");
    }
    if !starts_with(token, "--") {
        return None;
    }
    let n = token.unicode_len();
    match crate::text::find_char(token, '=') {
        Some(e) => {
            let name = token.substring_char(0, e);
            let value = token.substring_char(e + 1, n);
            Some((name, Some(value)))
        },
        None => Some((token, None)),
    }
}

/// Resolves the value of an option that requires one: from the inline
/// `--name=value` form when present, else from the next token. Returns the
/// trimmed value and whether the next token was consumed.
pub fn required_option_value(option_name: &str, inline_value: Option<&str>, next_token: Option<
    &String,
>) -> (r: Result<(String, bool), AppError>)
    ensures
        match r {
            Ok(pair) => match inline_value {
                Some(iv) => pair.1 == false && pair.0@ == spec_trimmed(iv@) && spec_trimmed(
                    iv@,
                ).len() > 0,
                None => match next_token {
                    Some(nt) => pair.1 == true && pair.0@ == spec_trimmed(nt@) && spec_trimmed(
                        nt@,
                    ).len() > 0,
                    None => false,
                },
            },
            Err(e) => (e matches AppError::Internal(msg) && msg@ == "missing value for "@
                + option_name@) && (match inline_value {
                Some(iv) => spec_trimmed(iv@).len() == 0,
                None => match next_token {
                    Some(nt) => spec_trimmed(nt@).len() == 0,
                    None => true,
                },
            }),
        },
{
    match inline_value {
        Some(iv) => {
            let t = trim(iv);
            if t.unicode_len() == 0 {
                let mut m = String::from_str("missing value for ");
                m.append(option_name);
                Err(AppError::internal(m))
            } else {
                Ok((String::from_str(t), false))
            }
        },
        None => {
            match next_token {
                Some(nt) => {
                    let t = trim(nt.as_str());
                    if t.unicode_len() == 0 {
                        let mut m = String::from_str("missing value for ");
                        m.append(option_name);
                        Err(AppError::internal(m))
                    } else {
                        Ok((String::from_str(t), true))
                    }
                },
                None => {
                    let mut m = String::from_str("missing value for ");
                    m.append(option_name);
                    Err(AppError::internal(m))
                },
            }
        },
    }
}

/// The long option names the command line recognizes.
pub open spec fn spec_known_option(name: Seq<char>) -> bool {
    ||| name == "--host"@
    ||| name == "--port"@
    ||| name == "--api-key"@
    ||| name == "--whisper-model"@
    ||| name == "--whisper-model-size"@
    ||| name == "--whisper-auto-download"@
    ||| name == "--whisper-hf-repo"@
    ||| name == "--whisper-hf-filename"@
    ||| name == "--whisper-cache-dir"@
    ||| name == "--hf-token"@
    ||| name == "--whisper-model-alias"@
    ||| name == "--whisper-backend"@
    ||| name == "--whisper-parallelism"@
}

/// Whether `v` is an acceptable value for the option: parsed options must
/// parse and lie in range, plain string options take anything.
pub open spec fn spec_option_value_ok(name: Seq<char>, v: Seq<char>) -> bool {
    if name == "--host"@ {
        true
    } else if name == "--port"@ {
        match spec_parse_uint(spec_trimmed(v)) {
            Some(p) => 1 <= p <= 65535,
            None => false,
        }
    } else if name == "--api-key"@ || name == "--whisper-model"@ {
        true
    } else if name == "--whisper-model-size"@ {
        spec_model_size_token(spec_trimmed(v)) is Some
    } else if name == "--whisper-auto-download"@ {
        spec_bool_token(spec_trimmed(v)) is Some
    } else if name == "--whisper-hf-repo"@ || name == "--whisper-hf-filename"@ || name
        == "--whisper-cache-dir"@ || name == "--hf-token"@ || name == "--whisper-model-alias"@ {
        true
    } else if name == "--whisper-backend"@ {
        spec_trimmed(v) == "whisper-rs"@
    } else {
        match spec_parse_uint(spec_trimmed(v)) {
            Some(p) => 1 <= p <= 8,
            None => false,
        }
    }
}

/// The options after one recognized option is applied with an acceptable
/// value: exactly the named field changes.
pub open spec fn spec_apply_option(o: CliOptions, name: Seq<char>, value: String) -> CliOptions {
    if name == "--host"@ {
        CliOptions { host: Some(value), ..o }
    } else if name == "--port"@ {
        match spec_parse_uint(spec_trimmed(value@)) {
            Some(p) => CliOptions { port: Some(p as u16), ..o },
            None => o,
        }
    } else if name == "--api-key"@ {
        CliOptions { api_key: Some(value), ..o }
    } else if name == "--whisper-model"@ {
        CliOptions { whisper_model: Some(value), ..o }
    } else if name == "--whisper-model-size"@ {
        match spec_model_size_token(spec_trimmed(value@)) {
            Some(s) => CliOptions { whisper_model_size: Some(s), ..o },
            None => o,
        }
    } else if name == "--whisper-auto-download"@ {
        match spec_bool_token(spec_trimmed(value@)) {
            Some(b) => CliOptions { whisper_auto_download: Some(b), ..o },
            None => o,
        }
    } else if name == "--whisper-hf-repo"@ {
        CliOptions { whisper_hf_repo: Some(value), ..o }
    } else if name == "--whisper-hf-filename"@ {
        CliOptions { whisper_hf_filename: Some(value), ..o }
    } else if name == "--whisper-cache-dir"@ {
        CliOptions { whisper_cache_dir: Some(value), ..o }
    } else if name == "--hf-token"@ {
        CliOptions { hf_token: Some(value), ..o }
    } else if name == "--whisper-model-alias"@ {
        CliOptions { api_model_alias: Some(value), ..o }
    } else if name == "--whisper-backend"@ {
        CliOptions { backend_kind: Some(BackendKind::WhisperRs), ..o }
    } else if name == "--whisper-parallelism"@ {
        match spec_parse_uint(spec_trimmed(value@)) {
            Some(p) => CliOptions { whisper_parallelism: Some(p as usize), ..o },
            None => o,
        }
    } else {
        o
    }
}

/// A spec-level image of the parsed options, with strings as character
/// sequences, used to state what `from_tokens` computes.
pub struct CliOptionsModel {
    pub help_requested: bool,
    pub host: Option<Seq<char>>,
    pub port: Option<u16>,
    pub api_key: Option<Seq<char>>,
    pub whisper_model: Option<Seq<char>>,
    pub whisper_model_size: Option<WhisperModelSize>,
    pub whisper_auto_download: Option<bool>,
    pub whisper_hf_repo: Option<Seq<char>>,
    pub whisper_hf_filename: Option<Seq<char>>,
    pub whisper_cache_dir: Option<Seq<char>>,
    pub hf_token: Option<Seq<char>>,
    pub api_model_alias: Option<Seq<char>>,
    pub backend_kind: Option<BackendKind>,
    pub whisper_parallelism: Option<usize>,
}

/// The image of an options value.
pub open spec fn view_options(o: CliOptions) -> CliOptionsModel {
    CliOptionsModel {
        help_requested: o.help_requested,
        host: opt_view(o.host),
        port: o.port,
        api_key: opt_view(o.api_key),
        whisper_model: opt_view(o.whisper_model),
        whisper_model_size: o.whisper_model_size,
        whisper_auto_download: o.whisper_auto_download,
        whisper_hf_repo: opt_view(o.whisper_hf_repo),
        whisper_hf_filename: opt_view(o.whisper_hf_filename),
        whisper_cache_dir: opt_view(o.whisper_cache_dir),
        hf_token: opt_view(o.hf_token),
        api_model_alias: opt_view(o.api_model_alias),
        backend_kind: o.backend_kind,
        whisper_parallelism: o.whisper_parallelism,
    }
}

/// `spec_apply_option` at the image level.
pub open spec fn model_apply_option(
    m: CliOptionsModel,
    name: Seq<char>,
    v: Seq<char>,
) -> CliOptionsModel {
    if name == "--host"@ {
        CliOptionsModel { host: Some(v), ..m }
    } else if name == "--port"@ {
        match spec_parse_uint(spec_trimmed(v)) {
            Some(p) => CliOptionsModel { port: Some(p as u16), ..m },
            None => m,
        }
    } else if name == "--api-key"@ {
        CliOptionsModel { api_key: Some(v), ..m }
    } else if name == "--whisper-model"@ {
        CliOptionsModel { whisper_model: Some(v), ..m }
    } else if name == "--whisper-model-size"@ {
        match spec_model_size_token(spec_trimmed(v)) {
            Some(z) => CliOptionsModel { whisper_model_size: Some(z), ..m },
            None => m,
        }
    } else if name == "--whisper-auto-download"@ {
        match spec_bool_token(spec_trimmed(v)) {
            Some(b) => CliOptionsModel { whisper_auto_download: Some(b), ..m },
            None => m,
        }
    } else if name == "--whisper-hf-repo"@ {
        CliOptionsModel { whisper_hf_repo: Some(v), ..m }
    } else if name == "--whisper-hf-filename"@ {
        CliOptionsModel { whisper_hf_filename: Some(v), ..m }
    } else if name == "--whisper-cache-dir"@ {
        CliOptionsModel { whisper_cache_dir: Some(v), ..m }
    } else if name == "--hf-token"@ {
        CliOptionsModel { hf_token: Some(v), ..m }
    } else if name == "--whisper-model-alias"@ {
        CliOptionsModel { api_model_alias: Some(v), ..m }
    } else if name == "--whisper-backend"@ {
        CliOptionsModel { backend_kind: Some(BackendKind::WhisperRs), ..m }
    } else if name == "--whisper-parallelism"@ {
        match spec_parse_uint(spec_trimmed(v)) {
            Some(p) => CliOptionsModel { whisper_parallelism: Some(p as usize), ..m },
            None => m,
        }
    } else {
        m
    }
}

/// Applying an option commutes with taking the image.
pub proof fn lemma_apply_option_view(o: CliOptions, name: Seq<char>, value: String)
    ensures
        view_options(spec_apply_option(o, name, value)) == model_apply_option(
            view_options(o),
            name,
            value@,
        ),
{
}

/// Why the token stream was rejected.
pub enum CliReject {
    /// The token at this position does not start with a dash.
    Positional(int),
    /// The token at this position is not a recognized option.
    Unknown(int),
    /// The named option has no usable (non-blank) value.
    MissingValue(Seq<char>),
    /// A recognized option's value fails its parser or bounds.
    BadValue,
}

/// The views of the tokens.
pub open spec fn token_views(tokens: Seq<String>) -> Seq<Seq<char>> {
    tokens.map_values(|t: String| t@)
}

/// The command-line parse, stated as a fold over the tokens from position
/// `i`: help tokens set the flag, a dashless token or an unrecognized
/// option rejects the whole list, and each recognized option consumes its
/// (inline or following) value, trims it, checks it, and applies it to the
/// options image — later occurrences overriding earlier ones.
pub open spec fn spec_parse_cli(m: CliOptionsModel, tokens: Seq<Seq<char>>, i: int) -> Result<
    CliOptionsModel,
    CliReject,
>
    decreases tokens.len() - i,
{
    if i < 0 || i >= tokens.len() {
        Ok(m)
    } else {
        let t = tokens[i];
        if t == "-h"@ || t == "--help"@ {
            spec_parse_cli(CliOptionsModel { help_requested: true, ..m }, tokens, i + 1)
        } else if !(t.len() >= "-"@.len() && t.subrange(0, "-"@.len() as int) == "-"@) {
            Err(CliReject::Positional(i))
        } else if !(t.len() >= "--"@.len() && t.subrange(0, "--"@.len() as int) == "--"@) {
            Err(CliReject::Unknown(i))
        } else {
            let e = crate::text::first_index_of(t, '=');
            let name = if e < t.len() {
                t.subrange(0, e)
            } else {
                t
            };
            if !spec_known_option(name) {
                Err(CliReject::Unknown(i))
            } else if e < t.len() {
                let v = spec_trimmed(t.subrange(e + 1, t.len() as int));
                if v.len() == 0 {
                    Err(CliReject::MissingValue(name))
                } else if !spec_option_value_ok(name, v) {
                    Err(CliReject::BadValue)
                } else {
                    spec_parse_cli(model_apply_option(m, name, v), tokens, i + 1)
                }
            } else {
                if i + 1 >= tokens.len() {
                    Err(CliReject::MissingValue(name))
                } else {
                    let v = spec_trimmed(tokens[i + 1]);
                    if v.len() == 0 {
                        Err(CliReject::MissingValue(name))
                    } else if !spec_option_value_ok(name, v) {
                        Err(CliReject::BadValue)
                    } else {
                        spec_parse_cli(model_apply_option(m, name, v), tokens, i + 2)
                    }
                }
            }
        }
    }
}

/// Tests whether a long option name is recognized.
fn is_known_option(name: &str) -> (r: bool)
    ensures
        r == spec_known_option(name@),
{
    str_eq(name, "--host") || str_eq(name, "--port") || str_eq(name, "--api-key") || str_eq(
        name,
        "--whisper-model",
    ) || str_eq(name, "--whisper-model-size") || str_eq(name, "--whisper-auto-download")
        || str_eq(name, "--whisper-hf-repo") || str_eq(name, "--whisper-hf-filename") || str_eq(
        name,
        "--whisper-cache-dir",
    ) || str_eq(name, "--hf-token") || str_eq(name, "--whisper-model-alias") || str_eq(
        name,
        "--whisper-backend",
    ) || str_eq(name, "--whisper-parallelism")
}

/// Applies one recognized option with its (already trimmed) value.
fn apply_option(options: &mut CliOptions, name: &str, value: String) -> (r: Result<(), AppError>)
    requires
        spec_known_option(name@),
    ensures
        match r {
            Ok(()) => spec_option_value_ok(name@, value@) && *final(options) == spec_apply_option(
                *old(options),
                name@,
                value,
            ),
            Err(e) => (e matches AppError::Internal(_)) && !spec_option_value_ok(name@, value@)
                && *final(options) == *old(options),
        },
{
    if str_eq(name, "--host") {
        options.host = Some(value);
        Ok(())
    } else if str_eq(name, "--port") {
        let p = parse_u16_option("PORT", value.as_str())?;
        options.port = Some(p);
        Ok(())
    } else if str_eq(name, "--api-key") {
        options.api_key = Some(value);
        Ok(())
    } else if str_eq(name, "--whisper-model") {
        options.whisper_model = Some(value);
        Ok(())
    } else if str_eq(name, "--whisper-model-size") {
        let s = parse_model_size("WHISPER_MODEL_SIZE", value.as_str())?;
        options.whisper_model_size = Some(s);
        Ok(())
    } else if str_eq(name, "--whisper-auto-download") {
        let b = parse_bool_option("WHISPER_AUTO_DOWNLOAD", value.as_str())?;
        options.whisper_auto_download = Some(b);
        Ok(())
    } else if str_eq(name, "--whisper-hf-repo") {
        options.whisper_hf_repo = Some(value);
        Ok(())
    } else if str_eq(name, "--whisper-hf-filename") {
        options.whisper_hf_filename = Some(value);
        Ok(())
    } else if str_eq(name, "--whisper-cache-dir") {
        options.whisper_cache_dir = Some(value);
        Ok(())
    } else if str_eq(name, "--hf-token") {
        options.hf_token = Some(value);
        Ok(())
    } else if str_eq(name, "--whisper-model-alias") {
        options.api_model_alias = Some(value);
        Ok(())
    } else if str_eq(name, "--whisper-backend") {
        let b = parse_backend_kind(value.as_str())?;
        options.backend_kind = Some(b);
        Ok(())
    } else {
        let v = parse_usize_bounded(
            "WHISPER_PARALLELISM",
            value.as_str(),
            1,
            MAX_WHISPER_PARALLELISM,
        )?;
        options.whisper_parallelism = Some(v);
        Ok(())
    }
}

impl CliOptions {
    /// Parses command-line tokens (everything after the program name).
    ///
    /// Options may be given as `--option value` or `--option=value`; later
    /// occurrences override earlier ones; `-h`/`--help` only sets the help
    /// flag. The result is exactly the fold `spec_parse_cli` of the tokens
    /// over the default options; a rejected token list yields the matching
    /// error.
    pub fn from_tokens(program: String, tokens: Vec<String>) -> (r: Result<Self, AppError>)
        ensures
            tokens@.len() == 0 ==> r == Ok::<CliOptions, AppError>(cli_defaults()),
            match spec_parse_cli(view_options(cli_defaults()), token_views(tokens@), 0) {
                Ok(m) => r matches Ok(o) && view_options(o) == m,
                Err(rej) => r matches Err(e) && (e matches AppError::Internal(msg) && (match rej {
                    CliReject::Positional(j) => msg@ == "unexpected positional argument "@
                        + tokens@[j]@ + "; run "@ + program@ + " --help"@,
                    CliReject::Unknown(j) => msg@ == "unknown argument "@ + tokens@[j]@ + "; run "@
                        + program@ + " --help"@,
                    CliReject::MissingValue(name) => msg@ == "missing value for "@ + name,
                    CliReject::BadValue => true,
                })),
            },
            match r {
                Ok(o) => (match o.port {
                    Some(p) => p >= 1,
                    None => true,
                }) && (match o.whisper_parallelism {
                    Some(v) => 1 <= v <= 8,
                    None => true,
                }),
                Err(e) => e matches AppError::Internal(_),
            },
    {
        let ghost toks = token_views(tokens@);
        let mut options = CliOptions::default();
        let mut i: usize = 0;
        while i < tokens.len()
            invariant
                0 <= i <= tokens.len(),
                toks == token_views(tokens@),
                toks.len() == tokens@.len(),
                forall|j: int| 0 <= j < toks.len() ==> toks[j] == (#[trigger] tokens@[j])@,
                tokens@.len() == 0 ==> options == cli_defaults(),
                spec_parse_cli(view_options(cli_defaults()), toks, 0) == spec_parse_cli(
                    view_options(options),
                    toks,
                    i as int,
                ),
                (match options.port {
                    Some(p) => p >= 1,
                    None => true,
                }),
                (match options.whisper_parallelism {
                    Some(v) => 1 <= v <= 8,
                    None => true,
                }),
            decreases tokens.len() - i,
        {
            let ghost o0 = options;
            let ghost m0 = view_options(options);
            let ghost i0 = i as int;
            proof {
                reveal_strlit("-");
                reveal_strlit("--");
            }
            let token = &tokens[i];
            i += 1;
            if str_eq(token.as_str(), "-h") || str_eq(token.as_str(), "--help") {
                options.help_requested = true;
                proof {
                    assert(view_options(options) == (CliOptionsModel {
                        help_requested: true,
                        ..m0
                    }));
                }
            } else if !starts_with(token.as_str(), "-") {
                let mut m = String::from_str("unexpected positional argument ");
                m.append(token.as_str());
                m.append("; run ");
                m.append(program.as_str());
                m.append(" --help");
                proof {
                    assert(spec_parse_cli(m0, toks, i0) == Err::<CliOptionsModel, CliReject>(
                        CliReject::Positional(i0),
                    ));
                }
                return Err(AppError::internal(m));
            } else {
                let split = split_long_option(token.as_str());
                match split {
                    None => {
                        let mut m = String::from_str("unknown argument ");
                        m.append(token.as_str());
                        m.append("; run ");
                        m.append(program.as_str());
                        m.append(" --help");
                        proof {
                            assert(spec_parse_cli(m0, toks, i0) == Err::<
                                CliOptionsModel,
                                CliReject,
                            >(CliReject::Unknown(i0)));
                        }
                        return Err(AppError::internal(m));
                    },
                    Some((name, inline)) => {
                        if !is_known_option(name) {
                            let mut m = String::from_str("unknown argument ");
                            m.append(token.as_str());
                            m.append("; run ");
                            m.append(program.as_str());
                            m.append(" --help");
                            proof {
                                assert(spec_parse_cli(m0, toks, i0) == Err::<
                                    CliOptionsModel,
                                    CliReject,
                                >(CliReject::Unknown(i0)));
                            }
                            return Err(AppError::internal(m));
                        }
                        let next: Option<&String> = if i < tokens.len() {
                            Some(&tokens[i])
                        } else {
                            None
                        };
                        let pair = match required_option_value(name, inline, next) {
                            Ok(p) => p,
                            Err(e) => {
                                proof {
                                    assert(spec_parse_cli(m0, toks, i0) == Err::<
                                        CliOptionsModel,
                                        CliReject,
                                    >(CliReject::MissingValue(name@)));
                                }
                                return Err(e);
                            },
                        };
                        if pair.1 {
                            i += 1;
                        }
                        let ghost value0 = pair.0;
                        match apply_option(&mut options, name, pair.0) {
                            Ok(()) => {
                                proof {
                                    lemma_apply_option_view(o0, name@, value0);
                                    assert(spec_parse_cli(m0, toks, i0) == spec_parse_cli(
                                        view_options(options),
                                        toks,
                                        i as int,
                                    ));
                                }
                            },
                            Err(e) => {
                                proof {
                                    assert(spec_parse_cli(m0, toks, i0) == Err::<
                                        CliOptionsModel,
                                        CliReject,
                                    >(CliReject::BadValue));
                                }
                                return Err(e);
                            },
                        }
                    },
                }
            }
        }
        Ok(options)
    }
}

} // verus!
