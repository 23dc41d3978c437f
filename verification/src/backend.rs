//! Core data model shared by the inference orchestration code.

use vstd::prelude::*;

use crate::text::{join_spaced, spec_normalized};

pub mod whisper_rs;

verus! {

/// Type of inference task requested by the client.
#[derive(Debug, Clone, Copy, PartialEq, Eq, Structural)]
pub enum TaskKind {
    /// Convert speech to text in the same language as the input audio.
    Transcribe,
    /// Convert speech to English text.
    Translate,
}

impl TaskKind {
    /// Returns the wire-format task value used in API responses.
    pub fn as_str(self) -> (r: &'static str)
        ensures
            self == TaskKind::Transcribe ==> r@ == "transcribe"@,
            self == TaskKind::Translate ==> r@ == "translate"@,
    {
        match self {
            TaskKind::Transcribe => "transcribe",
            TaskKind::Translate => "translate",
        }
    }
}

/// Input payload consumed by the decode orchestrator.
///
/// The raw audio buffer itself stays with the caller, which hands it to each
/// decode pass; the orchestration logic only reads the fields below.
#[derive(Debug, Clone)]
pub struct TranscribeRequest {
    /// Requested inference task.
    pub task: TaskKind,
    /// Optional language hint such as `"en"`.
    pub language: Option<String>,
    /// Optional initial prompt to bias decoding.
    pub prompt: Option<String>,
    /// Optional sampling temperature in thousandths, in range `[0, 1000]`.
    pub temperature_milli: Option<u16>,
}

/// Timestamped transcript chunk. Times are in centiseconds, the native
/// resolution of the recognition engine.
#[derive(Debug, Clone)]
pub struct TranscriptSegment {
    /// Segment start time in centiseconds.
    pub start_cs: u64,
    /// Segment end time in centiseconds.
    pub end_cs: u64,
    /// Text content for this segment.
    pub text: String,
}

/// Full inference result returned by the orchestrator.
#[derive(Debug, Clone)]
pub struct TranscriptResult {
    /// Concatenated normalized transcript text.
    pub text: String,
    /// Detected language if available.
    pub language: Option<String>,
    /// Segment-level timing and text details.
    pub segments: Vec<TranscriptSegment>,
}

/// The texts of the segments, in order.
pub open spec fn seg_texts(segs: Seq<TranscriptSegment>) -> Seq<Seq<char>> {
    segs.map_values(|s: TranscriptSegment| s.text@)
}

/// The segment texts joined with single spaces, in temporal order.
pub open spec fn spec_joined(segs: Seq<TranscriptSegment>) -> Seq<char> {
    join_spaced(seg_texts(segs))
}

/// The quality score of a candidate: the length of the whitespace-collapsed
/// join of its segment texts.
pub open spec fn spec_score(segs: Seq<TranscriptSegment>) -> nat {
    spec_normalized(spec_joined(segs)).len()
}

/// A segment as plain values: start, end, text.
pub open spec fn seg_view(s: TranscriptSegment) -> (u64, u64, Seq<char>) {
    (s.start_cs, s.end_cs, s.text@)
}

/// The segments as plain values, in order.
pub open spec fn seg_views(segs: Seq<TranscriptSegment>) -> Seq<(u64, u64, Seq<char>)> {
    segs.map_values(|s: TranscriptSegment| seg_view(s))
}

/// Raw decoder output cleaned for the data model: each text trimmed, and
/// segments left empty by trimming dropped, with the order kept.
pub open spec fn spec_sanitized(vs: Seq<(u64, u64, Seq<char>)>) -> Seq<(u64, u64, Seq<char>)>
    decreases vs.len(),
{
    if vs.len() == 0 {
        Seq::empty()
    } else {
        let rest = spec_sanitized(vs.drop_first());
        if crate::text::spec_trimmed(vs[0].2).len() == 0 {
            rest
        } else {
            seq![(vs[0].0, vs[0].1, crate::text::spec_trimmed(vs[0].2))] + rest
        }
    }
}

fn sanitize_from(raw: &Vec<TranscriptSegment>, i: usize) -> (r: Vec<TranscriptSegment>)
    requires
        i <= raw.len(),
    ensures
        seg_views(r@) == spec_sanitized(seg_views(raw@).skip(i as int)),
    decreases raw.len() - i,
{
    let ghost vs = seg_views(raw@);
    if i >= raw.len() {
        let out: Vec<TranscriptSegment> = Vec::new();
        proof {
            assert(vs.skip(i as int) =~= Seq::<(u64, u64, Seq<char>)>::empty());
            assert(seg_views(out@) =~= Seq::<(u64, u64, Seq<char>)>::empty());
        }
        return out;
    }
    let mut rest = sanitize_from(raw, i + 1);
    proof {
        assert(vs.skip(i as int)[0] == vs[i as int]);
        assert(vs.skip(i as int).drop_first() =~= vs.skip(i + 1));
    }
    let t = crate::text::trim(raw[i].text.as_str());
    if t.unicode_len() == 0 {
        rest
    } else {
        let ghost rest_views = seg_views(rest@);
        let head = TranscriptSegment {
            start_cs: raw[i].start_cs,
            end_cs: raw[i].end_cs,
            text: String::from_str(t),
        };
        let mut out: Vec<TranscriptSegment> = Vec::new();
        out.push(head);
        out.append(&mut rest);
        proof {
            assert(seg_views(out@) =~= seq![seg_view(head)] + rest_views);
        }
        out
    }
}

/// Cleans raw decoder segments for the data model: trims each text and
/// drops segments whose text is empty after trimming, keeping temporal
/// order. Every text in the result is non-empty and already trimmed.
pub fn sanitize_segments(raw: Vec<TranscriptSegment>) -> (r: Vec<TranscriptSegment>)
    ensures
        seg_views(r@) == spec_sanitized(seg_views(raw@)),
{
    proof {
        assert(seg_views(raw@).skip(0) =~= seg_views(raw@));
    }
    sanitize_from(&raw, 0)
}

/// Every sanitized segment's text is non-empty and unchanged by further
/// trimming: cleaning establishes the segment data model's text invariant.
pub proof fn lemma_sanitized_texts_clean(vs: Seq<(u64, u64, Seq<char>)>)
    ensures
        forall|i: int|
            0 <= i < spec_sanitized(vs).len() ==> (#[trigger] spec_sanitized(vs)[i]).2.len() > 0
                && crate::text::spec_trimmed(spec_sanitized(vs)[i].2) == spec_sanitized(vs)[i].2,
    decreases vs.len(),
{
    if vs.len() > 0 {
        lemma_sanitized_texts_clean(vs.drop_first());
        let rest = spec_sanitized(vs.drop_first());
        if crate::text::spec_trimmed(vs[0].2).len() > 0 {
            lemma_trimmed_idempotent(vs[0].2);
            assert(forall|i: int|
                1 <= i < spec_sanitized(vs).len() ==> spec_sanitized(vs)[i] == rest[i - 1]);
        }
    }
}

/// Trimming is idempotent: a trimmed text trims to itself.
pub proof fn lemma_trimmed_idempotent(s: Seq<char>)
    ensures
        crate::text::spec_trimmed(crate::text::spec_trimmed(s)) == crate::text::spec_trimmed(s),
{
    let t = crate::text::spec_trimmed(s);
    crate::text::lemma_next_non_space(s, 0);
    crate::text::lemma_end_non_space(s, s.len() as int);
    if t.len() > 0 {
        let a = crate::text::next_non_space(s, 0);
        let b = crate::text::end_non_space(s, s.len() as int);
        assert(!crate::text::is_space_char(t[0]));
        assert(!crate::text::is_space_char(t[t.len() - 1]));
        crate::text::lemma_next_non_space_is(t, 0, 0);
        crate::text::lemma_end_non_space_is(t, t.len() as int, t.len() as int);
        assert(crate::text::spec_trimmed(t) =~= t);
    } else {
        assert(t =~= Seq::<char>::empty());
        crate::text::lemma_next_non_space_is(t, 0, 0);
        crate::text::lemma_end_non_space_is(t, 0, 0);
        assert(crate::text::spec_trimmed(t) =~= t);
    }
}

/// Joins the segment texts with single spaces.
pub fn join_segment_texts(segs: &Vec<TranscriptSegment>) -> (r: String)
    ensures
        r@ == spec_joined(segs@),
{
    let ghost ws = seg_texts(segs@);
    let mut out = String::new();
    let mut k: usize = 0;
    while k < segs.len()
        invariant
            0 <= k <= segs.len(),
            ws == seg_texts(segs@),
            ws.len() == segs.len(),
            out@ == join_spaced(ws.take(k as int)),
        decreases segs.len() - k,
    {
        proof {
            crate::text::lemma_join_spaced_take(ws, k as int);
            reveal_strlit(" ");
        }
        if k > 0 {
            out.append(" ");
        }
        out.append(segs[k].text.as_str());
        k += 1;
    }
    proof {
        assert(ws.take(ws.len() as int) =~= ws);
    }
    out
}

} // verus!
