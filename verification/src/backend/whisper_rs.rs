//! The inference backend: a fixed pool of model handles assigned round-robin,
//! and the multi-pass decode orchestrator with its quality fallbacks.
//!
//! The recognition engine itself is an outside capability: callers supply a
//! loader when building the pool and a decode function when running a
//! request, and every decision this module makes about their results is
//! verified.

use vstd::prelude::*;

use crate::backend::{
    spec_joined, spec_score, TaskKind, TranscribeRequest, TranscriptResult, TranscriptSegment,
    join_segment_texts,
};
use crate::config::{AccelerationKind, AppConfig};
use crate::error::AppError;
use crate::formats::normalize_text;
use crate::text::{contains_char, opt_view, spec_normalized, spec_trimmed, trim, trimmed_or_none};

verus! {

/// What to do when loading with the requested acceleration mode fails.
#[derive(Debug, Clone, Copy, PartialEq, Eq, Structural)]
pub enum AccelFailurePolicy {
    /// The mode was pinned explicitly (or was plain CPU already): fail.
    Fatal,
    /// The mode was only a default: retry the whole pool on the CPU.
    RetryCpu,
}

/// The accelerator-fallback decision table: an explicitly requested mode
/// fails fatally; a defaulted accelerated mode falls back to CPU; plain CPU
/// has nothing to fall back to.
pub fn acceleration_failure_policy(kind: AccelerationKind, explicit: bool) -> (r:
    AccelFailurePolicy)
    ensures
        r == (if kind == AccelerationKind::Cpu || explicit {
            AccelFailurePolicy::Fatal
        } else {
            AccelFailurePolicy::RetryCpu
        }),
{
    if kind == AccelerationKind::Cpu || explicit {
        AccelFailurePolicy::Fatal
    } else {
        AccelFailurePolicy::RetryCpu
    }
}

/// The message reported when worker `worker_idx` fails to load with
/// `cause`: it names the model path, the 1-based worker, and the
/// acceleration mode in use.
pub open spec fn load_failure_message(
    model_path: Seq<char>,
    worker_idx: int,
    acceleration: AccelerationKind,
    cause: Seq<char>,
) -> Seq<char> {
    "failed to load model at "@ + model_path + " for worker "@ + crate::text::spec_u64_string(
        worker_idx + 1,
    ) + " using acceleration="@ + crate::config::spec_acceleration_name(acceleration) + ": "@
        + cause
}

/// The message reported when an explicitly pinned acceleration mode fails.
pub open spec fn explicit_failure_message(k: AccelerationKind, cause: Seq<char>) -> Seq<char> {
    "failed to initialize whisper with acceleration="@ + crate::config::spec_acceleration_name(k)
        + ": "@ + cause
}

/// The message reported when a defaulted acceleration mode fails and the
/// CPU retry fails as well: it chains both causes.
pub open spec fn chained_failure_message(
    k: AccelerationKind,
    accel_cause: Seq<char>,
    cpu_cause: Seq<char>,
) -> Seq<char> {
    "failed to initialize "@ + crate::config::spec_acceleration_name(k) + " acceleration ("@
        + accel_cause + "); cpu fallback also failed: "@ + cpu_cause
}

/// Loads one model context per worker through `load`, which receives the
/// worker index and whether to use the accelerator. If any worker's load
/// fails, the whole construction aborts — never a partial pool — with an
/// error that comes from that failing load call and names the worker
/// (1-based) and the acceleration mode.
pub fn build_contexts<T, F: Fn(usize, bool) -> Result<T, String>>(
    model_path: &str,
    whisper_parallelism: usize,
    acceleration: AccelerationKind,
    load: &F,
) -> (r: Result<Vec<T>, AppError>)
    requires
        forall|i: usize, g: bool| #[trigger] call_requires(*load, (i, g)),
    ensures
        match r {
            Ok(v) => v.len() == whisper_parallelism && (forall|i: int|
                0 <= i < v.len() ==> call_ensures(
                    *load,
                    (i as usize, acceleration != AccelerationKind::Cpu),
                    Ok(#[trigger] v[i]),
                )),
            Err(e) => (e matches AppError::Backend(msg) && (acceleration == AccelerationKind::Cpu
                ==> (exists|i: usize, m: String|
                i < whisper_parallelism && #[trigger] call_ensures(*load, (i, false), Err(m))
                    && msg@ == load_failure_message(model_path@, i as int, acceleration, m@)))
                && (acceleration != AccelerationKind::Cpu ==> (exists|i: usize, m: String|
                i < whisper_parallelism && #[trigger] call_ensures(*load, (i, true), Err(m))
                    && msg@ == load_failure_message(model_path@, i as int, acceleration, m@)))),
        },
{
    let use_gpu = acceleration != AccelerationKind::Cpu;
    let mut contexts: Vec<T> = Vec::new();
    let mut worker_idx: usize = 0;
    while worker_idx < whisper_parallelism
        invariant
            0 <= worker_idx <= whisper_parallelism,
            contexts.len() == worker_idx,
            use_gpu == (acceleration != AccelerationKind::Cpu),
            forall|i: usize, g: bool| #[trigger] call_requires(*load, (i, g)),
            forall|i: int|
                0 <= i < contexts.len() ==> call_ensures(
                    *load,
                    (i as usize, use_gpu),
                    Ok(#[trigger] contexts[i]),
                ),
        decreases whisper_parallelism - worker_idx,
    {
        match load(worker_idx, use_gpu) {
            Ok(context) => {
                contexts.push(context);
            },
            Err(err) => {
                let mut m = String::from_str("failed to load model at ");
                m.append(model_path);
                m.append(" for worker ");
                m.append(crate::text::u64_to_string((worker_idx as u64) + 1).as_str());
                m.append(" using acceleration=");
                m.append(acceleration.as_str());
                m.append(": ");
                m.append(err.as_str());
                proof {
                    assert(call_ensures(*load, (worker_idx, use_gpu), Err(err)));
                    assert(m@ == load_failure_message(
                        model_path@,
                        worker_idx as int,
                        acceleration,
                        err@,
                    ));
                }
                return Err(AppError::backend(m));
            },
        }
        worker_idx += 1;
    }
    Ok(contexts)
}

/// Local inference backend: a fixed, independently lockable set of loaded
/// model contexts and a monotonically incremented selection counter.
///
/// The context type is the caller's; the pool logic never looks inside one.
#[derive(Debug)]
pub struct WhisperRsBackend<T> {
    model_path: String,
    contexts: Vec<T>,
    next_context_idx: u64,
}

impl<T> WhisperRsBackend<T> {
    /// The fixed number of contexts in the pool.
    pub closed spec fn pool_size(&self) -> nat {
        self.contexts@.len()
    }

    /// The value of the selection counter.
    pub closed spec fn counter(&self) -> u64 {
        self.next_context_idx
    }

    /// The loaded contexts.
    pub closed spec fn spec_contexts(&self) -> Seq<T> {
        self.contexts@
    }

    /// The configured model path.
    pub closed spec fn spec_model_path(&self) -> Seq<char> {
        self.model_path@
    }

    /// Loads the configured model and prepares reusable contexts, applying
    /// the accelerator-fallback decision table: a defaulted accelerated mode
    /// that fails to load is retried on the CPU; an explicit one is fatal;
    /// when the CPU retry also fails, both causes are reported.
    pub fn new<F: Fn(usize, bool) -> Result<T, String>>(cfg: AppConfig, load: &F) -> (r: Result<
        Self,
        AppError,
    >)
        requires
            cfg.whisper_parallelism >= 1,
            forall|i: usize, g: bool| #[trigger] call_requires(*load, (i, g)),
        ensures
            match r {
                Ok(b) => ({
                    let gpu_pool = forall|i: int|
                        0 <= i < b.spec_contexts().len() ==> call_ensures(
                            *load,
                            (i as usize, true),
                            Ok(#[trigger] b.spec_contexts()[i]),
                        );
                    let cpu_pool = forall|i: int|
                        0 <= i < b.spec_contexts().len() ==> call_ensures(
                            *load,
                            (i as usize, false),
                            Ok(#[trigger] b.spec_contexts()[i]),
                        );
                    &&& b.pool_size() == cfg.whisper_parallelism
                    &&& b.counter() == 0
                    &&& b.spec_model_path() == cfg.whisper_model@
                    &&& (cfg.acceleration_kind == AccelerationKind::Cpu ==> cpu_pool)
                    &&& (cfg.acceleration_kind != AccelerationKind::Cpu
                        && cfg.acceleration_explicit ==> gpu_pool)
                    &&& (cfg.acceleration_kind != AccelerationKind::Cpu
                        && !cfg.acceleration_explicit ==> gpu_pool || cpu_pool)
                }),
                Err(e) => (e matches AppError::Backend(msg) && ({
                    if cfg.acceleration_kind == AccelerationKind::Cpu {
                        exists|i: usize, m: String|
                            i < cfg.whisper_parallelism && #[trigger] call_ensures(
                                *load,
                                (i, false),
                                Err(m),
                            ) && msg@ == load_failure_message(
                                cfg.whisper_model@,
                                i as int,
                                AccelerationKind::Cpu,
                                m@,
                            )
                    } else if cfg.acceleration_explicit {
                        exists|i: usize, m: String|
                            i < cfg.whisper_parallelism && #[trigger] call_ensures(
                                *load,
                                (i, true),
                                Err(m),
                            ) && msg@ == explicit_failure_message(
                                cfg.acceleration_kind,
                                load_failure_message(
                                    cfg.whisper_model@,
                                    i as int,
                                    cfg.acceleration_kind,
                                    m@,
                                ),
                            )
                    } else {
                        exists|i: usize, m: String, j: usize, m2: String|
                            i < cfg.whisper_parallelism && j < cfg.whisper_parallelism
                                && #[trigger] call_ensures(*load, (i, true), Err(m))
                                && #[trigger] call_ensures(*load, (j, false), Err(m2)) && msg@
                                == chained_failure_message(
                                cfg.acceleration_kind,
                                load_failure_message(
                                    cfg.whisper_model@,
                                    i as int,
                                    cfg.acceleration_kind,
                                    m@,
                                ),
                                load_failure_message(
                                    cfg.whisper_model@,
                                    j as int,
                                    AccelerationKind::Cpu,
                                    m2@,
                                ),
                            )
                    }
                })),
            },
    {
        let model_path = cfg.whisper_model.clone();
        let contexts: Vec<T> = if cfg.acceleration_kind == AccelerationKind::Cpu {
            build_contexts(
                model_path.as_str(),
                cfg.whisper_parallelism,
                AccelerationKind::Cpu,
                load,
            )?
        } else {
            match build_contexts(
                model_path.as_str(),
                cfg.whisper_parallelism,
                cfg.acceleration_kind,
                load,
            ) {
                Ok(contexts) => contexts,
                Err(err) => {
                    let policy = acceleration_failure_policy(
                        cfg.acceleration_kind,
                        cfg.acceleration_explicit,
                    );
                    match policy {
                        AccelFailurePolicy::Fatal => {
                            let mut m = String::from_str(
                                "failed to initialize whisper with acceleration=",
                            );
                            m.append(cfg.acceleration_kind.as_str());
                            m.append(": ");
                            m.append(err.to_string().as_str());
                            proof {
                                let (wi, wm) = choose|i: usize, wm: String|
                                    i < cfg.whisper_parallelism && #[trigger] call_ensures(
                                        *load,
                                        (i, true),
                                        Err(wm),
                                    ) && err.spec_message() == load_failure_message(
                                        cfg.whisper_model@,
                                        i as int,
                                        cfg.acceleration_kind,
                                        wm@,
                                    );
                                assert(m@ == explicit_failure_message(
                                    cfg.acceleration_kind,
                                    load_failure_message(
                                        cfg.whisper_model@,
                                        wi as int,
                                        cfg.acceleration_kind,
                                        wm@,
                                    ),
                                ));
                            }
                            return Err(AppError::backend(m));
                        },
                        AccelFailurePolicy::RetryCpu => {
                            match build_contexts(
                                model_path.as_str(),
                                cfg.whisper_parallelism,
                                AccelerationKind::Cpu,
                                load,
                            ) {
                                Ok(contexts) => contexts,
                                Err(cpu_err) => {
                                    let mut m = String::from_str("failed to initialize ");
                                    m.append(cfg.acceleration_kind.as_str());
                                    m.append(" acceleration (");
                                    m.append(err.to_string().as_str());
                                    m.append("); cpu fallback also failed: ");
                                    m.append(cpu_err.to_string().as_str());
                                    proof {
                                        let (wi, wm) = choose|i: usize, wm: String|
                                            i < cfg.whisper_parallelism && #[trigger] call_ensures(
                                                *load,
                                                (i, true),
                                                Err(wm),
                                            ) && err.spec_message() == load_failure_message(
                                                cfg.whisper_model@,
                                                i as int,
                                                cfg.acceleration_kind,
                                                wm@,
                                            );
                                        let (wj, wm2) = choose|j: usize, wm2: String|
                                            j < cfg.whisper_parallelism && #[trigger] call_ensures(
                                                *load,
                                                (j, false),
                                                Err(wm2),
                                            ) && cpu_err.spec_message() == load_failure_message(
                                                cfg.whisper_model@,
                                                j as int,
                                                AccelerationKind::Cpu,
                                                wm2@,
                                            );
                                        assert(m@ == chained_failure_message(
                                            cfg.acceleration_kind,
                                            load_failure_message(
                                                cfg.whisper_model@,
                                                wi as int,
                                                cfg.acceleration_kind,
                                                wm@,
                                            ),
                                            load_failure_message(
                                                cfg.whisper_model@,
                                                wj as int,
                                                AccelerationKind::Cpu,
                                                wm2@,
                                            ),
                                        ));
                                    }
                                    return Err(AppError::backend(m));
                                },
                            }
                        },
                    }
                },
            }
        };
        Ok(WhisperRsBackend { model_path, contexts, next_context_idx: 0 })
    }

    /// Returns the pool index to use for the next request: the counter
    /// value modulo the pool size, with the counter advancing (and wrapping)
    /// on every call. This is the only coordination the pool performs.
    pub fn acquire_next(&mut self) -> (idx: usize)
        requires
            old(self).pool_size() > 0,
        ensures
            idx == old(self).counter() as int % old(self).pool_size() as int,
            idx < final(self).pool_size(),
            final(self).counter() == (if old(self).counter() == u64::MAX {
                0u64
            } else {
                (old(self).counter() + 1) as u64
            }),
            final(self).spec_contexts() == old(self).spec_contexts(),
            final(self).spec_model_path() == old(self).spec_model_path(),
            final(self).pool_size() == old(self).pool_size(),
    {
        let idx = (self.next_context_idx % (self.contexts.len() as u64)) as usize;
        self.next_context_idx = self.next_context_idx.wrapping_add(1);
        idx
    }

    /// Borrows the context at a pool index.
    pub fn context(&self, idx: usize) -> (r: &T)
        requires
            idx < self.pool_size(),
        ensures
            *r == self.spec_contexts()[idx as int],
    {
        &self.contexts[idx]
    }
}

/// Round-robin law: with the counter at `c` and a pool of size `n`, the
/// index handed out is `c % n`, the next counter value is `c + 1`, and the
/// indices therefore advance cyclically through `0, 1, ..., n - 1` and wrap:
/// the index after `c + 1` calls is one past the index after `c` calls,
/// modulo the pool size.
pub proof fn lemma_round_robin(c: int, n: int)
    requires
        0 <= c,
        0 < n,
    ensures
        0 <= c % n < n,
        (c + 1) % n == (if c % n == n - 1 {
            0int
        } else {
            c % n + 1
        }),
        (c + n) % n == c % n,
{
    assert(0 <= c % n < n) by (nonlinear_arith)
        requires
            0 <= c && 0 < n,
    ;
    assert((c + 1) % n == (if c % n == n - 1 {
        0int
    } else {
        c % n + 1
    })) by (nonlinear_arith)
        requires
            0 <= c && 0 < n,
    ;
    assert((c + n) % n == c % n) by (nonlinear_arith)
        requires
            0 <= c && 0 < n,
    ;
}

/// A bracketed non-speech event marker: the trimmed text is wrapped in
/// parentheses and holds no interior space, like an audio-event tag.
pub open spec fn spec_parenthesized_event(t: Seq<char>) -> bool {
    let m = spec_trimmed(t);
    m.len() >= 1 && m[0] == '(' && m[m.len() - 1] == ')' && !m.contains(' ')
}

/// Tests whether a segment text is a bracketed non-speech event marker.
pub fn is_parenthesized_event(text: &str) -> (r: bool)
    ensures
        r == spec_parenthesized_event(text@),
{
    let t = trim(text);
    let n = t.unicode_len();
    if n == 0 {
        return false;
    }
    if t.get_char(0) != '(' {
        return false;
    }
    if t.get_char(n - 1) != ')' {
        return false;
    }
    !contains_char(t, ' ')
}

/// Whether a candidate consists only of non-speech event markers: it is
/// non-empty and every segment text is a bracketed event.
pub open spec fn spec_nonspeech_only(segs: Seq<TranscriptSegment>) -> bool {
    segs.len() > 0 && (forall|i: int|
        0 <= i < segs.len() ==> spec_parenthesized_event(#[trigger] segs[i].text@))
}

/// Tests whether every produced segment looks like a non-speech event.
pub fn looks_like_non_speech_only(segments: &Vec<TranscriptSegment>) -> (r: bool)
    ensures
        r == spec_nonspeech_only(segments@),
{
    if segments.len() == 0 {
        return false;
    }
    let mut i: usize = 0;
    while i < segments.len()
        invariant
            0 <= i <= segments.len(),
            forall|j: int|
                0 <= j < i ==> spec_parenthesized_event(#[trigger] segments@[j].text@),
        decreases segments.len() - i,
    {
        if !is_parenthesized_event(segments[i].text.as_str()) {
            return false;
        }
        i += 1;
    }
    true
}

/// The quality score of a candidate: the character length of its
/// whitespace-normalized joined transcript text.
pub fn transcript_score(segments: &Vec<TranscriptSegment>) -> (r: usize)
    ensures
        r == spec_score(segments@),
{
    let joined = join_segment_texts(segments);
    let normalized = normalize_text(joined.as_str());
    normalized.as_str().unicode_len()
}

/// The candidate kept after the aggressive retry: the new one only when its
/// score is strictly greater, ties keeping the earlier result.
pub open spec fn chosen_candidate(
    cur: Seq<TranscriptSegment>,
    cand: Seq<TranscriptSegment>,
) -> Seq<TranscriptSegment> {
    if spec_score(cand) > spec_score(cur) {
        cand
    } else {
        cur
    }
}

/// Quality-score comparison is strict-greater-only: two candidates with
/// equal scores keep the earlier one.
pub proof fn lemma_tie_keeps_earlier(cur: Seq<TranscriptSegment>, cand: Seq<TranscriptSegment>)
    requires
        spec_score(cand) == spec_score(cur),
    ensures
        chosen_candidate(cur, cand) == cur,
{
}

/// One normal-word segment among bracketed ones defeats non-speech-only
/// detection.
pub proof fn lemma_normal_segment_defeats_nonspeech(segs: Seq<TranscriptSegment>, i: int)
    requires
        0 <= i < segs.len(),
        !spec_parenthesized_event(segs[i].text@),
    ensures
        !spec_nonspeech_only(segs),
{
}

/// The settings of one decode pass, as handed to the recognition engine.
#[derive(Debug, Clone)]
pub struct DecodeOptions {
    /// Language to pin, already trimmed; `None` leaves the language unset.
    pub language: Option<String>,
    /// Whether to ask the engine to auto-detect the language.
    pub detect_language: bool,
    /// Initial prompt to bias decoding, already trimmed.
    pub prompt: Option<String>,
    /// Sampling temperature in thousandths, passed through from the request.
    pub temperature_milli: Option<u16>,
    /// Translate to English instead of transcribing.
    pub translate: bool,
    /// Disable no-speech classification by maximizing its threshold.
    pub max_no_speech_threshold: bool,
    /// Keep the engine's blank-output suppression enabled.
    pub suppress_blank: bool,
}

/// The request fields every pass passes through unchanged.
pub open spec fn base_options_match(o: DecodeOptions, req: TranscribeRequest) -> bool {
    &&& opt_view(o.prompt) == trimmed_or_none(opt_view(req.prompt))
    &&& o.temperature_milli == req.temperature_milli
    &&& o.translate == (req.task == TaskKind::Translate)
}

/// Options of the primary pass: pin the trimmed language hint when one was
/// given, auto-detect otherwise, with suppression left at its defaults.
pub open spec fn is_primary_options(o: DecodeOptions, req: TranscribeRequest) -> bool {
    &&& base_options_match(o, req)
    &&& opt_view(o.language) == trimmed_or_none(opt_view(req.language))
    &&& o.detect_language == (req.language is None)
    &&& o.max_no_speech_threshold == false
    &&& o.suppress_blank == true
}

/// Options of the empty-output fallback pass: language pinned to English,
/// everything else as in the primary pass.
pub open spec fn is_empty_fallback_options(o: DecodeOptions, req: TranscribeRequest) -> bool {
    &&& base_options_match(o, req)
    &&& opt_view(o.language) == Some("en"@)
    &&& o.detect_language == false
    &&& o.max_no_speech_threshold == false
    &&& o.suppress_blank == true
}

/// Options of the aggressive non-speech retry: the original language
/// policy with no-speech suppression effectively disabled.
pub open spec fn is_aggressive_options(o: DecodeOptions, req: TranscribeRequest) -> bool {
    &&& base_options_match(o, req)
    &&& opt_view(o.language) == trimmed_or_none(opt_view(req.language))
    &&& o.detect_language == (req.language is None)
    &&& o.max_no_speech_threshold == true
    &&& o.suppress_blank == false
}

/// Trims an optional string, dropping it when nothing remains.
fn trimmed_opt(o: &Option<String>) -> (r: Option<String>)
    ensures
        opt_view(r) == trimmed_or_none(opt_view(*o)),
{
    match o {
        Some(s) => {
            let t = trim(s.as_str());
            if t.unicode_len() > 0 {
                Some(String::from_str(t))
            } else {
                None
            }
        },
        None => None,
    }
}

/// Builds the options of the primary decode pass.
pub fn primary_options(req: &TranscribeRequest) -> (r: DecodeOptions)
    ensures
        is_primary_options(r, *req),
{
    DecodeOptions {
        language: trimmed_opt(&req.language),
        detect_language: req.language.is_none(),
        prompt: trimmed_opt(&req.prompt),
        temperature_milli: req.temperature_milli,
        translate: matches!(req.task, TaskKind::Translate),
        max_no_speech_threshold: false,
        suppress_blank: true,
    }
}

/// Builds the options of the empty-output fallback pass.
pub fn empty_fallback_options(req: &TranscribeRequest) -> (r: DecodeOptions)
    ensures
        is_empty_fallback_options(r, *req),
{
    DecodeOptions {
        language: Some(String::from_str("en")),
        detect_language: false,
        prompt: trimmed_opt(&req.prompt),
        temperature_milli: req.temperature_milli,
        translate: matches!(req.task, TaskKind::Translate),
        max_no_speech_threshold: false,
        suppress_blank: true,
    }
}

/// Builds the options of the aggressive non-speech retry pass.
pub fn aggressive_options(req: &TranscribeRequest) -> (r: DecodeOptions)
    ensures
        is_aggressive_options(r, *req),
{
    DecodeOptions {
        language: trimmed_opt(&req.language),
        detect_language: req.language.is_none(),
        prompt: trimmed_opt(&req.prompt),
        temperature_milli: req.temperature_milli,
        translate: matches!(req.task, TaskKind::Translate),
        max_no_speech_threshold: true,
        suppress_blank: false,
    }
}

/// Where a decode run stands.
#[derive(Debug, Clone, Copy, PartialEq, Eq, Structural)]
pub enum DecodePhase {
    /// Waiting for the primary pass's segments.
    Primary,
    /// Waiting for the fixed-language fallback after an empty primary.
    EmptyFallback,
    /// Waiting for the aggressive retry after non-speech-only output.
    AggressiveRetry,
    /// No further pass runs.
    Finished,
}

/// How far along a run is; each transition that asks for another pass
/// strictly increases this.
pub open spec fn phase_rank(p: DecodePhase) -> int {
    match p {
        DecodePhase::Primary => 0,
        DecodePhase::EmptyFallback => 1,
        DecodePhase::AggressiveRetry => 2,
        DecodePhase::Finished => 3,
    }
}

/// Which pass, if any, a transition asks to run next.
#[derive(Debug, Clone, Copy, PartialEq, Eq, Structural)]
pub enum NextPass {
    /// Re-run with the language pinned to English.
    RunEmptyFallback,
    /// Re-run with no-speech suppression disabled.
    RunAggressive,
    /// The run is complete.
    Finished,
}

/// The decode orchestrator's transition function: given the phase, whether
/// the caller supplied a language, the best candidate so far and the
/// segments the engine just produced, it yields the next phase, the new
/// best candidate, and which pass (if any) to run next.
///
/// - After the primary pass: zero segments without a language hint trigger
///   the empty fallback; non-speech-only output triggers the aggressive
///   retry; anything else finishes.
/// - After the empty fallback: a non-empty result replaces the (empty)
///   primary result unconditionally; the non-speech check then runs on the
///   adopted candidate.
/// - After the aggressive retry: the new candidate replaces the best only
///   when its quality score is strictly greater.
pub open spec fn spec_transition(
    phase: DecodePhase,
    lang_given: bool,
    best: Seq<TranscriptSegment>,
    segs: Seq<TranscriptSegment>,
) -> (DecodePhase, Seq<TranscriptSegment>, NextPass) {
    match phase {
        DecodePhase::Primary => {
            if segs.len() == 0 && !lang_given {
                (DecodePhase::EmptyFallback, segs, NextPass::RunEmptyFallback)
            } else if spec_nonspeech_only(segs) {
                (DecodePhase::AggressiveRetry, segs, NextPass::RunAggressive)
            } else {
                (DecodePhase::Finished, segs, NextPass::Finished)
            }
        },
        DecodePhase::EmptyFallback => {
            let adopted = if segs.len() > 0 {
                segs
            } else {
                best
            };
            if spec_nonspeech_only(adopted) {
                (DecodePhase::AggressiveRetry, adopted, NextPass::RunAggressive)
            } else {
                (DecodePhase::Finished, adopted, NextPass::Finished)
            }
        },
        DecodePhase::AggressiveRetry => {
            (DecodePhase::Finished, chosen_candidate(best, segs), NextPass::Finished)
        },
        DecodePhase::Finished => (phase, best, NextPass::Finished),
    }
}

/// One decode run: the deterministic multi-pass state machine. The caller
/// performs each requested pass with the engine and feeds the segments
/// back; engine failures abort the run instead of being fed in.
pub struct DecodeRun {
    req: TranscribeRequest,
    phase: DecodePhase,
    best: Vec<TranscriptSegment>,
}

impl DecodeRun {
    /// The request this run decodes.
    pub closed spec fn request(&self) -> TranscribeRequest {
        self.req
    }

    /// The phase the run is in.
    pub closed spec fn current_phase(&self) -> DecodePhase {
        self.phase
    }

    /// The best candidate adopted so far.
    pub closed spec fn best_segments(&self) -> Seq<TranscriptSegment> {
        self.best@
    }

    /// Starts a run: the first action is the primary pass.
    pub fn start(req: TranscribeRequest) -> (r: (DecodeRun, DecodeOptions))
        ensures
            r.0.current_phase() == DecodePhase::Primary,
            r.0.best_segments() == Seq::<TranscriptSegment>::empty(),
            r.0.request() == req,
            is_primary_options(r.1, req),
    {
        let opts = primary_options(&req);
        let run = DecodeRun { req, phase: DecodePhase::Primary, best: Vec::new() };
        (run, opts)
    }

    /// Feeds the segments of the pass just performed into the machine and
    /// returns the options of the next pass to run, or `None` when the run
    /// is finished. The transition follows `spec_transition` exactly.
    pub fn on_segments(&mut self, segments: Vec<TranscriptSegment>) -> (next: Option<
        DecodeOptions,
    >)
        requires
            old(self).current_phase() != DecodePhase::Finished,
        ensures
            ({
                let t = spec_transition(
                    old(self).current_phase(),
                    old(self).request().language is Some,
                    old(self).best_segments(),
                    segments@,
                );
                &&& final(self).current_phase() == t.0
                &&& final(self).best_segments() == t.1
                &&& final(self).request() == old(self).request()
                &&& (match next {
                    Some(o) => phase_rank(t.0) > phase_rank(old(self).current_phase()) && t.0
                        != DecodePhase::Finished && (t.2 == NextPass::RunEmptyFallback
                        ==> is_empty_fallback_options(o, old(self).request())) && (t.2
                        == NextPass::RunAggressive ==> is_aggressive_options(
                        o,
                        old(self).request(),
                    )) && t.2 != NextPass::Finished,
                    None => t.2 == NextPass::Finished && t.0 == DecodePhase::Finished,
                })
            }),
    {
        match self.phase {
            DecodePhase::Primary => {
                let lang_missing = self.req.language.is_none();
                let empty = segments.len() == 0;
                let nonspeech = looks_like_non_speech_only(&segments);
                self.best = segments;
                if empty && lang_missing {
                    self.phase = DecodePhase::EmptyFallback;
                    Some(empty_fallback_options(&self.req))
                } else if nonspeech {
                    self.phase = DecodePhase::AggressiveRetry;
                    Some(aggressive_options(&self.req))
                } else {
                    self.phase = DecodePhase::Finished;
                    None
                }
            },
            DecodePhase::EmptyFallback => {
                if segments.len() > 0 {
                    self.best = segments;
                }
                if looks_like_non_speech_only(&self.best) {
                    self.phase = DecodePhase::AggressiveRetry;
                    Some(aggressive_options(&self.req))
                } else {
                    self.phase = DecodePhase::Finished;
                    None
                }
            },
            DecodePhase::AggressiveRetry => {
                let new_score = transcript_score(&segments);
                let old_score = transcript_score(&self.best);
                if new_score > old_score {
                    self.best = segments;
                }
                self.phase = DecodePhase::Finished;
                None
            },
            DecodePhase::Finished => None,
        }
    }

    /// Finalizes a finished run: the text is the whitespace-collapsed join
    /// of the best candidate's segment texts in temporal order; the
    /// reported language echoes the caller's hint verbatim when one was
    /// given and is otherwise whatever the last executed pass detected.
    /// An empty final text is a result, not an error.
    pub fn finalize(self, detected_language: Option<String>) -> (r: TranscriptResult)
        requires
            self.current_phase() == DecodePhase::Finished,
        ensures
            r.segments@ == self.best_segments(),
            r.text@ == spec_normalized(spec_joined(self.best_segments())),
            r.language == (if self.request().language is Some {
                self.request().language
            } else {
                detected_language
            }),
    {
        let text = normalize_text(join_segment_texts(&self.best).as_str());
        let language = match self.req.language {
            Some(l) => Some(l),
            None => detected_language,
        };
        TranscriptResult { text, language, segments: self.best }
    }
}

/// Whether `o` is the options of one of the three passes for `req`.
pub open spec fn is_pass_options(o: DecodeOptions, req: TranscribeRequest) -> bool {
    is_primary_options(o, req) || is_empty_fallback_options(o, req) || is_aggressive_options(
        o,
        req,
    )
}

/// Runs a whole decode: the primary pass and, as the quality triggers
/// demand, up to two fallback passes, picking the best result. `decode`
/// performs one pass, returning the produced segments and the language the
/// engine detected; an engine failure at any pass aborts the run
/// immediately and is never masked by a fallback.
///
/// Whatever the engine returns: a successful result carries the normalized
/// join of its segments as text, echoes an explicitly requested language
/// verbatim, and its segments are exactly what some pass of this request
/// produced.
pub fn run_decode<F: Fn(DecodeOptions) -> Result<
    (Vec<TranscriptSegment>, Option<String>),
    AppError,
>>(req: TranscribeRequest, decode: &F) -> (r: Result<TranscriptResult, AppError>)
    requires
        forall|o: DecodeOptions| #[trigger] call_requires(*decode, (o,)),
    ensures
        match r {
            Ok(res) => ({
                &&& res.text@ == spec_normalized(spec_joined(res.segments@))
                &&& (req.language is Some ==> res.language == req.language)
                &&& (req.language is None ==> (exists|
                    o: DecodeOptions,
                    v: Vec<TranscriptSegment>,
                    d: Option<String>,
                |
                    is_pass_options(o, req) && #[trigger] call_ensures(*decode, (o,), Ok((v, d)))
                        && res.language == d))
                &&& (exists|o: DecodeOptions, v: Vec<TranscriptSegment>, d: Option<String>|
                    is_pass_options(o, req) && #[trigger] call_ensures(*decode, (o,), Ok((v, d)))
                        && v@ == res.segments@)
            }),
            Err(e) => exists|o: DecodeOptions|
                is_pass_options(o, req) && #[trigger] call_ensures(*decode, (o,), Err(e)),
        },
{
    let (mut run, opts0) = DecodeRun::start(req);
    let first = decode(opts0);
    let (segs0, det0) = match first {
        Ok(p) => p,
        Err(e) => {
            return Err(e);
        },
    };
    let ghost v0 = segs0;
    let mut detected: Option<String> = det0;
    let mut next = run.on_segments(segs0);
    loop
        invariant
            forall|o: DecodeOptions| #[trigger] call_requires(*decode, (o,)),
            run.request() == req,
            (match next {
                Some(o) => run.current_phase() != DecodePhase::Finished && is_pass_options(
                    o,
                    req,
                ),
                None => run.current_phase() == DecodePhase::Finished,
            }),
            exists|o: DecodeOptions, v: Vec<TranscriptSegment>, d: Option<String>|
                is_pass_options(o, req) && #[trigger] call_ensures(*decode, (o,), Ok((v, d)))
                    && v@ == run.best_segments(),
            exists|o: DecodeOptions, v: Vec<TranscriptSegment>, d: Option<String>|
                is_pass_options(o, req) && #[trigger] call_ensures(*decode, (o,), Ok((v, d)))
                    && detected == d,
        ensures
            run.request() == req,
            run.current_phase() == DecodePhase::Finished,
            exists|o: DecodeOptions, v: Vec<TranscriptSegment>, d: Option<String>|
                is_pass_options(o, req) && #[trigger] call_ensures(*decode, (o,), Ok((v, d)))
                    && v@ == run.best_segments(),
            exists|o: DecodeOptions, v: Vec<TranscriptSegment>, d: Option<String>|
                is_pass_options(o, req) && #[trigger] call_ensures(*decode, (o,), Ok((v, d)))
                    && detected == d,
        decreases 3 - phase_rank(run.current_phase()),
    {
        match next {
            None => {
                break ;
            },
            Some(opts) => {
                let out = decode(opts);
                let (segs, det) = match out {
                    Ok(p) => p,
                    Err(e) => {
                        return Err(e);
                    },
                };
                detected = det;
                next = run.on_segments(segs);
            },
        }
    }
    let res = run.finalize(detected);
    Ok(res)
}

/// Empty-input flow: a primary pass that yields no segments, on a request
/// without a language hint, asks for the English-pinned fallback pass; when
/// that pass also yields nothing, the run finishes with no segments, and
/// the finalized text of no segments is empty. No step of this flow is an
/// error: the machine only ever asks for another pass or finishes.
pub proof fn lemma_empty_input_flow(best0: Seq<TranscriptSegment>)
    ensures
        spec_transition(DecodePhase::Primary, false, best0, Seq::<TranscriptSegment>::empty()).0
            == DecodePhase::EmptyFallback,
        spec_transition(DecodePhase::Primary, false, best0, Seq::<TranscriptSegment>::empty()).1
            =~= Seq::<TranscriptSegment>::empty(),
        spec_transition(DecodePhase::Primary, false, best0, Seq::<TranscriptSegment>::empty()).2
            == NextPass::RunEmptyFallback,
        spec_transition(
            DecodePhase::EmptyFallback,
            false,
            Seq::<TranscriptSegment>::empty(),
            Seq::<TranscriptSegment>::empty(),
        ).0 == DecodePhase::Finished,
        spec_transition(
            DecodePhase::EmptyFallback,
            false,
            Seq::<TranscriptSegment>::empty(),
            Seq::<TranscriptSegment>::empty(),
        ).1 =~= Seq::<TranscriptSegment>::empty(),
        spec_normalized(spec_joined(Seq::<TranscriptSegment>::empty())) =~= Seq::<char>::empty(),
{
    assert(!spec_nonspeech_only(Seq::<TranscriptSegment>::empty()));
    assert(crate::backend::seg_texts(Seq::<TranscriptSegment>::empty()).len() == 0);
    assert(spec_joined(Seq::<TranscriptSegment>::empty()) =~= Seq::<char>::empty());
    assert(crate::text::words_from(Seq::<char>::empty(), 0) =~= Seq::<Seq<char>>::empty());
}

/// Explicit-language flow: when the caller pinned a language and the
/// primary pass produced output that is not non-speech-only, no fallback
/// pass runs and the primary result stands.
pub proof fn lemma_explicit_language_normal_output(
    best0: Seq<TranscriptSegment>,
    segs: Seq<TranscriptSegment>,
)
    requires
        !spec_nonspeech_only(segs),
    ensures
        spec_transition(DecodePhase::Primary, true, best0, segs).0 == DecodePhase::Finished,
        spec_transition(DecodePhase::Primary, true, best0, segs).1 == segs,
        spec_transition(DecodePhase::Primary, true, best0, segs).2 == NextPass::Finished,
{
}

} // verus!
