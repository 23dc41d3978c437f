//! Response formats and transcript text normalization.

use vstd::prelude::*;

use crate::backend::TranscriptSegment;
use crate::error::AppError;
use crate::text::{
    is_space, is_space_char, join_spaced, lemma_join_spaced_take, lemma_next_space_is,
    next_space, spec_normalized, spec_trimmed, spec_words, str_eq, trim, words_from,
};

verus! {

/// Output format accepted by `response_format` in audio endpoints.
#[derive(Debug, Clone, Copy, PartialEq, Eq, Structural)]
pub enum ResponseFormat {
    /// JSON object with a single `text` field.
    Json,
    /// Raw plain-text transcript body.
    Text,
    /// JSON object with transcript text plus segment timings.
    VerboseJson,
    /// SubRip subtitle format.
    Srt,
    /// WebVTT subtitle format.
    Vtt,
}

/// The format named by a (trimmed) `response_format` token, if any.
pub open spec fn spec_parse_format(t: Seq<char>) -> Option<ResponseFormat> {
    if t == "json"@ {
        Some(ResponseFormat::Json)
    } else if t == "text"@ {
        Some(ResponseFormat::Text)
    } else if t == "verbose_json"@ {
        Some(ResponseFormat::VerboseJson)
    } else if t == "srt"@ {
        Some(ResponseFormat::Srt)
    } else if t == "vtt"@ {
        Some(ResponseFormat::Vtt)
    } else {
        None
    }
}

impl ResponseFormat {
    /// Parses a `response_format` string used by the HTTP API: one of the
    /// five supported names, surrounding whitespace ignored.
    pub fn parse(raw: &str) -> (r: Result<Self, AppError>)
        ensures
            match r {
                Ok(f) => spec_parse_format(spec_trimmed(raw@)) == Some(f),
                Err(e) => spec_parse_format(spec_trimmed(raw@)) is None && (e matches
                    AppError::InvalidRequest { param, code, .. } && opt_is(
                    param,
                    "response_format"@,
                ) && opt_is(code, "invalid_response_format"@)),
            },
    {
        let t = trim(raw);
        if str_eq(t, "json") {
            Ok(ResponseFormat::Json)
        } else if str_eq(t, "text") {
            Ok(ResponseFormat::Text)
        } else if str_eq(t, "verbose_json") {
            Ok(ResponseFormat::VerboseJson)
        } else if str_eq(t, "srt") {
            Ok(ResponseFormat::Srt)
        } else if str_eq(t, "vtt") {
            Ok(ResponseFormat::Vtt)
        } else {
            let mut m = String::from_str("invalid response_format=");
            m.append(t);
            m.append("; expected one of json,text,verbose_json,srt,vtt");
            Err(
                AppError::invalid_request(
                    m,
                    Some(String::from_str("response_format")),
                    Some(String::from_str("invalid_response_format")),
                ),
            )
        }
    }

    /// The wire name of the format.
    pub fn as_str(self) -> (r: &'static str)
        ensures
            self == ResponseFormat::Json ==> r@ == "json"@,
            self == ResponseFormat::Text ==> r@ == "text"@,
            self == ResponseFormat::VerboseJson ==> r@ == "verbose_json"@,
            self == ResponseFormat::Srt ==> r@ == "srt"@,
            self == ResponseFormat::Vtt ==> r@ == "vtt"@,
    {
        match self {
            ResponseFormat::Json => "json",
            ResponseFormat::Text => "text",
            ResponseFormat::VerboseJson => "verbose_json",
            ResponseFormat::Srt => "srt",
            ResponseFormat::Vtt => "vtt",
        }
    }
}

/// Whether an optional string holds exactly `t`.
pub open spec fn opt_is(o: Option<String>, t: Seq<char>) -> bool {
    match o {
        Some(s) => s@ == t,
        None => false,
    }
}

/// Normalizes transcript text: collapses every whitespace run to one space
/// and removes leading and trailing whitespace.
pub fn normalize_text(raw: &str) -> (r: String)
    ensures
        r@ == spec_normalized(raw@),
{
    let ghost ws = spec_words(raw@);
    let n = raw.unicode_len();
    let mut out = String::new();
    let mut i: usize = 0;
    let ghost mut k: int = 0;
    let mut first: bool = true;
    proof {
        assert(words_from(raw@, 0).skip(0) =~= words_from(raw@, 0));
    }
    while i < n
        invariant
            0 <= i <= n,
            n == raw@.len(),
            0 <= k <= ws.len(),
            ws == spec_words(raw@),
            words_from(raw@, i as int) == ws.skip(k),
            out@ == join_spaced(ws.take(k)),
            first == (k == 0),
        decreases n - i,
    {
        let ghost i0 = i;
        while i < n && is_space(raw.get_char(i))
            invariant
                i0 <= i <= n,
                n == raw@.len(),
                words_from(raw@, i as int) == ws.skip(k),
            decreases n - i,
        {
            i += 1;
        }
        if i < n {
            let start = i;
            while i < n && !is_space(raw.get_char(i))
                invariant
                    start <= i <= n,
                    n == raw@.len(),
                    forall|j: int| start <= j < i ==> !is_space_char(raw@[j]),
                decreases n - i,
            {
                i += 1;
            }
            proof {
                lemma_next_space_is(raw@, start as int, i as int);
                let head = seq![raw@.subrange(start as int, i as int)];
                let rest = words_from(raw@, i as int);
                // The word just scanned is the head of the remaining words.
                assert(ws.skip(k) == head + rest);
                assert((head + rest)[0] == raw@.subrange(start as int, i as int));
                assert(ws.skip(k)[0] == ws[k]);
                assert(ws[k] == raw@.subrange(start as int, i as int));
                assert forall|j: int| 0 <= j < rest.len() implies ws.skip(k + 1)[j] == rest[j] by {
                    assert(ws.skip(k + 1)[j] == ws[k + 1 + j]);
                    assert(ws.skip(k)[j + 1] == ws[k + 1 + j]);
                    assert((head + rest)[j + 1] == rest[j]);
                }
                assert(ws.skip(k + 1).len() == rest.len());
                assert(ws.skip(k + 1) =~= rest);
                lemma_join_spaced_take(ws, k);
                reveal_strlit(" ");
            }
            let w = raw.substring_char(start, i);
            if first {
                out = String::from_str(w);
                first = false;
            } else {
                out.append(" ");
                out.append(w);
            }
            proof {
                k = k + 1;
            }
        }
    }
    proof {
        assert(words_from(raw@, n as int) =~= Seq::<Seq<char>>::empty());
        assert(ws.skip(k).len() == ws.len() - k);
        assert(k == ws.len());
        assert(ws.take(ws.len() as int) =~= ws);
    }
    out
}

/// The millisecond value of a centisecond time, clamped to what a 64-bit
/// integer can hold so the formatters are total.
pub open spec fn spec_millis(cs: int) -> int {
    if cs * 10 > u64::MAX {
        u64::MAX as int
    } else {
        cs * 10
    }
}

/// A subtitle timestamp split into hours, minutes, seconds, milliseconds,
/// from a time in centiseconds.
pub open spec fn spec_timestamp(cs: int, comma: bool) -> Seq<char> {
    let ms = spec_millis(cs);
    crate::text::spec_padded2(ms / 3_600_000) + seq![':'] + crate::text::spec_padded2(
        (ms % 3_600_000) / 60_000,
    ) + seq![':'] + crate::text::spec_padded2((ms % 60_000) / 1_000) + seq![
        if comma {
            ','
        } else {
            '.'
        },
    ] + crate::text::spec_padded3(ms % 1_000)
}

/// Renders a centisecond time as `HH:MM:SS,mmm` (SubRip) or `HH:MM:SS.mmm`
/// (WebVTT).
fn format_timestamp(cs: u64, comma: bool) -> (r: String)
    ensures
        r@ == spec_timestamp(cs as int, comma),
{
    let ms: u64 = if cs > u64::MAX / 10 {
        u64::MAX
    } else {
        cs * 10
    };
    let h = ms / 3_600_000;
    let m = (ms % 3_600_000) / 60_000;
    let s = (ms % 60_000) / 1_000;
    let frac = ms % 1_000;
    proof {
        reveal_strlit(":");
        reveal_strlit(",");
        reveal_strlit(".");
    }
    let mut out = crate::text::u64_to_string_pad2(h);
    out.append(":");
    out.append(crate::text::u64_to_string_pad2(m).as_str());
    out.append(":");
    out.append(crate::text::u64_to_string_pad2(s).as_str());
    out.append(if comma {
        ","
    } else {
        "."
    });
    out.append(crate::text::u64_to_string_pad3(frac).as_str());
    out
}

/// The body of one SubRip cue: index line, time range line, trimmed text,
/// without a trailing newline.
pub open spec fn srt_cue(idx: int, seg: TranscriptSegment) -> Seq<char> {
    crate::text::spec_u64_string(idx + 1) + seq!['\n'] + spec_timestamp(seg.start_cs as int, true)
        + " --> "@ + spec_timestamp(seg.end_cs as int, true) + seq!['\n'] + spec_trimmed(seg.text@)
}

/// The body of one WebVTT cue: time range line and trimmed text, without a
/// trailing newline.
pub open spec fn vtt_cue(seg: TranscriptSegment) -> Seq<char> {
    spec_timestamp(seg.start_cs as int, false) + " --> "@ + spec_timestamp(seg.end_cs as int, false)
        + seq!['\n'] + spec_trimmed(seg.text@)
}

/// All SubRip cues for segments from `i` on whose trimmed text is non-empty,
/// each followed by a newline, with blank lines between consecutive cues.
pub open spec fn srt_cues_from(segs: Seq<TranscriptSegment>, i: int) -> Seq<char>
    decreases segs.len() - i,
{
    if i < 0 || i >= segs.len() {
        Seq::empty()
    } else if spec_trimmed(segs[i].text@).len() == 0 {
        srt_cues_from(segs, i + 1)
    } else {
        let rest = srt_cues_from(segs, i + 1);
        srt_cue(i, segs[i]) + (if rest.len() == 0 {
            seq!['\n']
        } else {
            seq!['\n', '\n'] + rest
        })
    }
}

/// The complete SubRip document for the segments.
pub open spec fn spec_srt(segs: Seq<TranscriptSegment>) -> Seq<char> {
    if srt_cues_from(segs, 0).len() == 0 {
        seq!['\n']
    } else {
        srt_cues_from(segs, 0)
    }
}

/// All WebVTT cues for segments from `i` on, analogous to `srt_cues_from`.
pub open spec fn vtt_cues_from(segs: Seq<TranscriptSegment>, i: int) -> Seq<char>
    decreases segs.len() - i,
{
    if i < 0 || i >= segs.len() {
        Seq::empty()
    } else if spec_trimmed(segs[i].text@).len() == 0 {
        vtt_cues_from(segs, i + 1)
    } else {
        let rest = vtt_cues_from(segs, i + 1);
        vtt_cue(segs[i]) + (if rest.len() == 0 {
            seq!['\n']
        } else {
            seq!['\n', '\n'] + rest
        })
    }
}

/// The complete WebVTT document for the segments.
pub open spec fn spec_vtt(segs: Seq<TranscriptSegment>) -> Seq<char> {
    if vtt_cues_from(segs, 0).len() == 0 {
        "WEBVTT\n"@
    } else {
        "WEBVTT\n\n"@ + vtt_cues_from(segs, 0)
    }
}

fn srt_cues(segs: &Vec<TranscriptSegment>, i: usize) -> (r: String)
    requires
        i <= segs.len(),
    ensures
        r@ == srt_cues_from(segs@, i as int),
    decreases segs.len() - i,
{
    if i >= segs.len() {
        proof {
            reveal_strlit("");
            assert(srt_cues_from(segs@, i as int) =~= Seq::<char>::empty());
        }
        return String::new();
    }
    let trimmed = trim(segs[i].text.as_str());
    if trimmed.unicode_len() == 0 {
        return srt_cues(segs, i + 1);
    }
    let rest = srt_cues(segs, i + 1);
    proof {
        reveal_strlit("\n");
        reveal_strlit("\n\n");
        reveal_strlit(" --> ");
    }
    let idx_u64: u64 = (i as u64) + 1;
    let mut out = crate::text::u64_to_string(idx_u64);
    proof {
        assert(idx_u64 as int == i + 1);
    }
    out.append("\n");
    out.append(format_timestamp(segs[i].start_cs, true).as_str());
    out.append(" --> ");
    out.append(format_timestamp(segs[i].end_cs, true).as_str());
    out.append("\n");
    out.append(trimmed);
    if rest.as_str().unicode_len() == 0 {
        out.append("\n");
        proof {
            assert(out@ =~= srt_cues_from(segs@, i as int));
        }
    } else {
        out.append("\n\n");
        out.append(rest.as_str());
        proof {
            assert(out@ =~= srt_cues_from(segs@, i as int));
        }
    }
    out
}

/// Converts transcript segments to SubRip subtitle text: one numbered cue
/// per segment with non-empty text, ending in a single newline.
pub fn segments_to_srt(segments: &Vec<TranscriptSegment>) -> (r: String)
    ensures
        r@ == spec_srt(segments@),
{
    let body = srt_cues(segments, 0);
    if body.as_str().unicode_len() == 0 {
        proof {
            reveal_strlit("\n");
        }
        String::from_str("\n")
    } else {
        body
    }
}

fn vtt_cues(segs: &Vec<TranscriptSegment>, i: usize) -> (r: String)
    requires
        i <= segs.len(),
    ensures
        r@ == vtt_cues_from(segs@, i as int),
    decreases segs.len() - i,
{
    if i >= segs.len() {
        proof {
            assert(vtt_cues_from(segs@, i as int) =~= Seq::<char>::empty());
        }
        return String::new();
    }
    let trimmed = trim(segs[i].text.as_str());
    if trimmed.unicode_len() == 0 {
        return vtt_cues(segs, i + 1);
    }
    let rest = vtt_cues(segs, i + 1);
    proof {
        reveal_strlit("\n");
        reveal_strlit("\n\n");
        reveal_strlit(" --> ");
    }
    let mut out = format_timestamp(segs[i].start_cs, false);
    out.append(" --> ");
    out.append(format_timestamp(segs[i].end_cs, false).as_str());
    out.append("\n");
    out.append(trimmed);
    if rest.as_str().unicode_len() == 0 {
        out.append("\n");
        proof {
            assert(out@ =~= vtt_cues_from(segs@, i as int));
        }
    } else {
        out.append("\n\n");
        out.append(rest.as_str());
        proof {
            assert(out@ =~= vtt_cues_from(segs@, i as int));
        }
    }
    out
}

/// Converts transcript segments to WebVTT subtitle text: the `WEBVTT`
/// header followed by one cue per segment with non-empty text.
pub fn segments_to_vtt(segments: &Vec<TranscriptSegment>) -> (r: String)
    ensures
        r@ == spec_vtt(segments@),
{
    let body = vtt_cues(segments, 0);
    proof {
        reveal_strlit("WEBVTT\n");
        reveal_strlit("WEBVTT\n\n");
    }
    if body.as_str().unicode_len() == 0 {
        String::from_str("WEBVTT\n")
    } else {
        let mut out = String::from_str("WEBVTT\n\n");
        out.append(body.as_str());
        out
    }
}

} // verus!
