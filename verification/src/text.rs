//! Character-level string primitives and their specifications.
//!
//! Transcript normalization, trimming, and the path/URL helpers elsewhere in
//! the crate are all stated over the spec functions defined here.

use vstd::prelude::*;

verus! {

/// The whitespace characters this crate trims and collapses: the Unicode
/// white-space set, as Rust's own trimming and splitting use it.
pub open spec fn is_space_char(c: char) -> bool {
    ||| c == ' '
    ||| c == '\t'
    ||| c == '\n'
    ||| c == '\r'
    ||| c == '\x0b'
    ||| c == '\x0c'
    ||| c == '\u{85}'
    ||| c == '\u{a0}'
    ||| c == '\u{1680}'
    ||| ('\u{2000}' <= c && c <= '\u{200a}')
    ||| c == '\u{2028}'
    ||| c == '\u{2029}'
    ||| c == '\u{202f}'
    ||| c == '\u{205f}'
    ||| c == '\u{3000}'
}

/// Executable whitespace test.
pub fn is_space(c: char) -> (r: bool)
    ensures
        r == is_space_char(c),
{
    c == ' ' || c == '\t' || c == '\n' || c == '\r' || c == '\x0b' || c == '\x0c'
        || c == '\u{85}' || c == '\u{a0}' || c == '\u{1680}' || ('\u{2000}' <= c && c
        <= '\u{200a}') || c == '\u{2028}' || c == '\u{2029}' || c == '\u{202f}' || c
        == '\u{205f}' || c == '\u{3000}'
}

/// Index of the first non-whitespace character at or after `i`, or `s.len()`.
pub open spec fn next_non_space(s: Seq<char>, i: int) -> int
    decreases s.len() - i,
{
    if i < 0 || i >= s.len() {
        s.len() as int
    } else if !is_space_char(s[i]) {
        i
    } else {
        next_non_space(s, i + 1)
    }
}

/// Index of the first whitespace character at or after `i`, or `s.len()`.
pub open spec fn next_space(s: Seq<char>, i: int) -> int
    decreases s.len() - i,
{
    if i < 0 || i >= s.len() {
        s.len() as int
    } else if is_space_char(s[i]) {
        i
    } else {
        next_space(s, i + 1)
    }
}

pub proof fn lemma_next_non_space(s: Seq<char>, i: int)
    requires
        0 <= i <= s.len(),
    ensures
        i <= next_non_space(s, i) <= s.len(),
        forall|j: int| i <= j < next_non_space(s, i) ==> is_space_char(s[j]),
        next_non_space(s, i) < s.len() ==> !is_space_char(s[next_non_space(s, i)]),
    decreases s.len() - i,
{
    if i < s.len() && is_space_char(s[i]) {
        lemma_next_non_space(s, i + 1);
    }
}

pub proof fn lemma_next_space(s: Seq<char>, i: int)
    requires
        0 <= i <= s.len(),
    ensures
        i <= next_space(s, i) <= s.len(),
        forall|j: int| i <= j < next_space(s, i) ==> !is_space_char(s[j]),
        next_space(s, i) < s.len() ==> is_space_char(s[next_space(s, i)]),
    decreases s.len() - i,
{
    if i < s.len() && !is_space_char(s[i]) {
        lemma_next_space(s, i + 1);
    }
}

/// `next_space` is the only index with its characterization.
pub proof fn lemma_next_space_is(s: Seq<char>, i: int, b: int)
    requires
        0 <= i <= b <= s.len(),
        forall|j: int| i <= j < b ==> !is_space_char(s[j]),
        b < s.len() ==> is_space_char(s[b]),
    ensures
        next_space(s, i) == b,
    decreases b - i,
{
    if i < b {
        lemma_next_space_is(s, i + 1, b);
    }
}

/// `next_non_space` is the only index with its characterization.
pub proof fn lemma_next_non_space_is(s: Seq<char>, i: int, b: int)
    requires
        0 <= i <= b <= s.len(),
        forall|j: int| i <= j < b ==> is_space_char(s[j]),
        b < s.len() ==> !is_space_char(s[b]),
    ensures
        next_non_space(s, i) == b,
    decreases b - i,
{
    if i < b {
        lemma_next_non_space_is(s, i + 1, b);
    }
}

/// The whitespace-separated words of `s` from position `i` on, in order.
pub open spec fn words_from(s: Seq<char>, i: int) -> Seq<Seq<char>>
    decreases s.len() - i,
    when i <= s.len()
    via words_from_decreases
{
    if i < 0 || i >= s.len() {
        Seq::empty()
    } else if is_space_char(s[i]) {
        words_from(s, i + 1)
    } else {
        seq![s.subrange(i, next_space(s, i))] + words_from(s, next_space(s, i))
    }
}

#[via_fn]
proof fn words_from_decreases(s: Seq<char>, i: int) {
    if 0 <= i < s.len() && !is_space_char(s[i]) {
        lemma_next_space(s, i);
    }
}

/// The words of the whole string.
pub open spec fn spec_words(s: Seq<char>) -> Seq<Seq<char>> {
    words_from(s, 0)
}

/// Words joined by single spaces.
pub open spec fn join_spaced(ws: Seq<Seq<char>>) -> Seq<char>
    decreases ws.len(),
{
    if ws.len() == 0 {
        Seq::empty()
    } else if ws.len() == 1 {
        ws[0]
    } else {
        ws[0] + seq![' '] + join_spaced(ws.drop_first())
    }
}

/// `s` with every whitespace run collapsed to a single space and
/// leading/trailing whitespace removed.
pub open spec fn spec_normalized(s: Seq<char>) -> Seq<char> {
    join_spaced(spec_words(s))
}

/// Extending a joined prefix by one more word appends a separator (except
/// before the first word) and the word itself.
pub proof fn lemma_join_spaced_take(ws: Seq<Seq<char>>, k: int)
    requires
        0 <= k < ws.len(),
    ensures
        k == 0 ==> join_spaced(ws.take(1)) =~= ws[0],
        k >= 1 ==> join_spaced(ws.take(k + 1)) =~= join_spaced(ws.take(k)) + seq![' '] + ws[k],
    decreases k,
{
    if k == 0 {
        assert(ws.take(1).len() == 1);
        assert(ws.take(1)[0] == ws[0]);
    } else {
        let wsd = ws.drop_first();
        lemma_join_spaced_take(wsd, k - 1);
        assert(ws.take(k + 1).drop_first() =~= wsd.take(k));
        assert(ws.take(k).drop_first() =~= wsd.take(k - 1));
        assert(ws.take(k + 1)[0] == ws[0]);
        assert(ws.take(k)[0] == ws[0]);
        if k == 1 {
            assert(join_spaced(ws.take(2)) == ws.take(2)[0] + seq![' '] + join_spaced(
                ws.take(2).drop_first(),
            ));
            assert(join_spaced(wsd.take(1)) =~= wsd[0]);
            assert(join_spaced(ws.take(1)) =~= ws[0]);
            assert(join_spaced(ws.take(2)) =~= join_spaced(ws.take(1)) + seq![' '] + ws[1]);
        } else {
            assert(join_spaced(ws.take(k + 1)) == ws[0] + seq![' '] + join_spaced(wsd.take(k)));
            assert(join_spaced(wsd.take(k)) =~= join_spaced(wsd.take(k - 1)) + seq![' ']
                + wsd[k - 1]);
            assert(join_spaced(ws.take(k)) == ws[0] + seq![' '] + join_spaced(wsd.take(k - 1)));
            assert(wsd[k - 1] == ws[k]);
            assert(join_spaced(ws.take(k + 1)) =~= join_spaced(ws.take(k)) + seq![' '] + ws[k]);
        }
    }
}

/// A proper word: non-empty and free of whitespace.
pub open spec fn word_clean(w: Seq<char>) -> bool {
    w.len() > 0 && (forall|j: int| 0 <= j < w.len() ==> !is_space_char(w[j]))
}

/// Every extracted word is a proper word.
pub proof fn lemma_words_clean(s: Seq<char>, i: int)
    requires
        0 <= i <= s.len(),
    ensures
        forall|k: int|
            0 <= k < words_from(s, i).len() ==> word_clean(#[trigger] words_from(s, i)[k]),
    decreases s.len() - i,
{
    if i < s.len() {
        if is_space_char(s[i]) {
            lemma_words_clean(s, i + 1);
            assert(words_from(s, i) == words_from(s, i + 1));
        } else {
            let b = next_space(s, i);
            lemma_next_space(s, i);
            lemma_words_clean(s, b);
            let head = s.subrange(i, b);
            let rest = words_from(s, b);
            assert(b > i);
            assert(word_clean(head));
            assert(words_from(s, i) == seq![head] + rest);
            assert(words_from(s, i)[0] == head);
            assert forall|k: int|
                1 <= k < words_from(s, i).len() implies word_clean(
                #[trigger] words_from(s, i)[k],
            ) by {
                assert(words_from(s, i)[k] == rest[k - 1]);
            }
        }
    } else {
        assert(words_from(s, i) =~= Seq::<Seq<char>>::empty());
    }
}

/// Words are found relative to position, so a shared suffix yields the
/// same words: reading `a + b` from `a.len() + d` on finds exactly the
/// words of `b` from `d` on.
pub proof fn lemma_words_from_shift(a: Seq<char>, b: Seq<char>, d: int)
    requires
        0 <= d <= b.len(),
    ensures
        words_from(a + b, a.len() + d) == words_from(b, d),
    decreases b.len() - d,
{
    let j = a + b;
    assert(forall|t: int| 0 <= t < b.len() ==> j[a.len() + t] == b[t]);
    if d < b.len() {
        if is_space_char(b[d]) {
            assert(j[a.len() + d] == b[d]);
            lemma_words_from_shift(a, b, d + 1);
        } else {
            let nb = next_space(b, d);
            lemma_next_space(b, d);
            assert(forall|t: int|
                a.len() + d <= t < a.len() + nb ==> !is_space_char(#[trigger] j[t]));
            lemma_next_space_is(j, a.len() + d, a.len() + nb);
            lemma_words_from_shift(a, b, nb);
            assert(j.subrange(a.len() + d, a.len() + nb) =~= b.subrange(d, nb));
            assert(words_from(j, a.len() + d) == seq![j.subrange(a.len() + d, a.len() + nb)]
                + words_from(j, a.len() + nb));
            assert(words_from(b, d) == seq![b.subrange(d, nb)] + words_from(b, nb));
            assert(words_from(j, a.len() + d) =~= words_from(b, d));
        }
    } else {
        assert(words_from(j, a.len() + d) =~= Seq::<Seq<char>>::empty());
        assert(words_from(b, d) =~= Seq::<Seq<char>>::empty());
    }
}

/// Splitting a spaced join of proper words recovers exactly those words.
pub proof fn lemma_words_of_join(ws: Seq<Seq<char>>)
    requires
        forall|k: int| 0 <= k < ws.len() ==> word_clean(#[trigger] ws[k]),
    ensures
        spec_words(join_spaced(ws)) == ws,
    decreases ws.len(),
{
    if ws.len() == 0 {
        assert(spec_words(join_spaced(ws)) =~= ws);
    } else if ws.len() == 1 {
        let w = ws[0];
        assert(word_clean(w));
        lemma_next_space_is(w, 0, w.len() as int);
        assert(words_from(w, 0) == seq![w.subrange(0, w.len() as int)] + words_from(
            w,
            w.len() as int,
        ));
        assert(w.subrange(0, w.len() as int) =~= w);
        assert(words_from(w, w.len() as int) =~= Seq::<Seq<char>>::empty());
        assert(spec_words(join_spaced(ws)) =~= ws);
    } else {
        let w = ws[0];
        let rest = ws.drop_first();
        let jr = join_spaced(rest);
        let j = w + seq![' '] + jr;
        assert(join_spaced(ws) == j);
        assert(forall|k: int| 0 <= k < rest.len() ==> word_clean(#[trigger] rest[k]));
        lemma_words_of_join(rest);
        assert(word_clean(w));
        assert(forall|t: int| 0 <= t < w.len() ==> j[t] == w[t]);
        assert(j[w.len() as int] == ' ');
        lemma_next_space_is(j, 0, w.len() as int);
        assert(words_from(j, 0) == seq![j.subrange(0, w.len() as int)] + words_from(
            j,
            w.len() as int,
        ));
        assert(j.subrange(0, w.len() as int) =~= w);
        assert(words_from(j, w.len() as int) == words_from(j, w.len() as int + 1));
        assert(j =~= (w + seq![' ']) + jr);
        lemma_words_from_shift(w + seq![' '], jr, 0);
        assert(words_from(j, w.len() as int + 1) == words_from(jr, 0));
        assert(spec_words(join_spaced(ws)) =~= ws);
    }
}

/// Normalization is idempotent: normalizing already-normalized text
/// changes nothing.
pub proof fn lemma_normalized_idempotent(s: Seq<char>)
    ensures
        spec_normalized(spec_normalized(s)) == spec_normalized(s),
{
    lemma_words_clean(s, 0);
    lemma_words_of_join(spec_words(s));
}

/// Splits `s` into its whitespace-separated words.
pub fn split_words(s: &str) -> (r: Vec<String>)
    ensures
        r@.len() == spec_words(s@).len(),
        forall|i: int| 0 <= i < r@.len() ==> (#[trigger] r@[i])@ == spec_words(s@)[i],
{
    let ghost ws = spec_words(s@);
    let n = s.unicode_len();
    let mut out: Vec<String> = Vec::new();
    let mut i: usize = 0;
    proof {
        assert(words_from(s@, 0).skip(0) =~= words_from(s@, 0));
    }
    while i < n
        invariant
            0 <= i <= n,
            n == s@.len(),
            out@.len() <= ws.len(),
            ws == spec_words(s@),
            words_from(s@, i as int) == ws.skip(out@.len() as int),
            forall|j: int| 0 <= j < out@.len() ==> (#[trigger] out@[j])@ == ws[j],
        decreases n - i,
    {
        let ghost i0 = i;
        while i < n && is_space(s.get_char(i))
            invariant
                i0 <= i <= n,
                n == s@.len(),
                words_from(s@, i as int) == ws.skip(out@.len() as int),
            decreases n - i,
        {
            i += 1;
        }
        if i < n {
            let start = i;
            while i < n && !is_space(s.get_char(i))
                invariant
                    start <= i <= n,
                    n == s@.len(),
                    forall|j: int| start <= j < i ==> !is_space_char(s@[j]),
                decreases n - i,
            {
                i += 1;
            }
            proof {
                lemma_next_space_is(s@, start as int, i as int);
                let k = out@.len() as int;
                let head = seq![s@.subrange(start as int, i as int)];
                let rest = words_from(s@, i as int);
                assert(ws.skip(k) == head + rest);
                assert((head + rest)[0] == s@.subrange(start as int, i as int));
                assert(ws.skip(k)[0] == ws[k]);
                assert forall|j: int| 0 <= j < rest.len() implies ws.skip(k + 1)[j] == rest[j] by {
                    assert(ws.skip(k + 1)[j] == ws[k + 1 + j]);
                    assert(ws.skip(k)[j + 1] == ws[k + 1 + j]);
                    assert((head + rest)[j + 1] == rest[j]);
                }
                assert(ws.skip(k + 1).len() == rest.len());
                assert(ws.skip(k + 1) =~= rest);
            }
            let w = s.substring_char(start, i);
            out.push(String::from_str(w));
        }
    }
    proof {
        assert(words_from(s@, n as int) =~= Seq::<Seq<char>>::empty());
        assert(ws.skip(out@.len() as int).len() == ws.len() - out@.len());
    }
    out
}

/// End of the non-whitespace content of `s` below `i`: the smallest bound
/// such that everything from it up to `i` is whitespace.
pub open spec fn end_non_space(s: Seq<char>, i: int) -> int
    decreases i,
{
    if i <= 0 || i > s.len() {
        0
    } else if !is_space_char(s[i - 1]) {
        i
    } else {
        end_non_space(s, i - 1)
    }
}

pub proof fn lemma_end_non_space(s: Seq<char>, i: int)
    requires
        0 <= i <= s.len(),
    ensures
        0 <= end_non_space(s, i) <= i,
        forall|j: int| end_non_space(s, i) <= j < i ==> is_space_char(s[j]),
        end_non_space(s, i) > 0 ==> !is_space_char(s[end_non_space(s, i) - 1]),
    decreases i,
{
    if i > 0 && is_space_char(s[i - 1]) {
        lemma_end_non_space(s, i - 1);
    }
}

/// `s` without leading and trailing whitespace.
pub open spec fn spec_trimmed(s: Seq<char>) -> Seq<char> {
    let a = next_non_space(s, 0);
    let b = end_non_space(s, s.len() as int);
    if a >= b {
        Seq::empty()
    } else {
        s.subrange(a, b)
    }
}

/// Trims leading and trailing whitespace, returning a slice of `s`.
pub fn trim<'a>(s: &'a str) -> (r: &'a str)
    ensures
        r@ == spec_trimmed(s@),
{
    let n = s.unicode_len();
    let mut a: usize = 0;
    while a < n && is_space(s.get_char(a))
        invariant
            0 <= a <= n,
            n == s@.len(),
            forall|j: int| 0 <= j < a ==> is_space_char(s@[j]),
        decreases n - a,
    {
        a += 1;
    }
    proof {
        lemma_next_non_space_is(s@, 0, a as int);
    }
    let mut b: usize = n;
    while b > a && is_space(s.get_char(b - 1))
        invariant
            a <= b <= n,
            n == s@.len(),
            forall|j: int| b <= j < n ==> is_space_char(s@[j]),
        decreases b,
    {
        b -= 1;
    }
    if a >= b {
        proof {
            assert(forall|j: int| 0 <= j < s@.len() ==> is_space_char(s@[j]));
            lemma_next_non_space_is(s@, 0, s@.len() as int);
            lemma_end_non_space_is(s@, s@.len() as int, 0);
            assert(spec_trimmed(s@) =~= Seq::<char>::empty());
            reveal_strlit("");
        }
        ""
    } else {
        proof {
            // b is exactly end_non_space(s, len): everything in b..n is
            // whitespace and s[b-1] is not.
            assert(!is_space_char(s@[b - 1]));
            lemma_end_non_space_is(s@, s@.len() as int, b as int);
        }
        s.substring_char(a, b)
    }
}

/// `end_non_space` is the only bound with its characterization.
pub proof fn lemma_end_non_space_is(s: Seq<char>, i: int, b: int)
    requires
        0 <= b <= i <= s.len(),
        forall|j: int| b <= j < i ==> is_space_char(s[j]),
        b > 0 ==> !is_space_char(s[b - 1]),
    ensures
        end_non_space(s, i) == b,
    decreases i - b,
{
    if b < i {
        lemma_end_non_space_is(s, i - 1, b);
    }
}

/// The view of an optional string.
pub open spec fn opt_view(o: Option<String>) -> Option<Seq<char>> {
    match o {
        Some(s) => Some(s@),
        None => None,
    }
}

/// Trims an optional string and drops it entirely when nothing remains.
pub open spec fn trimmed_or_none(o: Option<Seq<char>>) -> Option<Seq<char>> {
    match o {
        Some(s) => if spec_trimmed(s).len() > 0 {
            Some(spec_trimmed(s))
        } else {
            None
        },
        None => None,
    }
}

/// Index of the first character at or after `i` that differs from `c`, or
/// `s.len()`.
pub open spec fn next_not_char(s: Seq<char>, i: int, c: char) -> int
    decreases s.len() - i,
{
    if i < 0 || i >= s.len() {
        s.len() as int
    } else if s[i] != c {
        i
    } else {
        next_not_char(s, i + 1, c)
    }
}

/// `next_not_char` is the only index with its characterization.
pub proof fn lemma_next_not_char_is(s: Seq<char>, i: int, b: int, c: char)
    requires
        0 <= i <= b <= s.len(),
        forall|j: int| i <= j < b ==> s[j] == c,
        b < s.len() ==> s[b] != c,
    ensures
        next_not_char(s, i, c) == b,
    decreases b - i,
{
    if i < b {
        lemma_next_not_char_is(s, i + 1, b, c);
    }
}

/// End of the content of `s` below `i` once trailing `c` characters are
/// dropped.
pub open spec fn end_not_char(s: Seq<char>, i: int, c: char) -> int
    decreases i,
{
    if i <= 0 || i > s.len() {
        0
    } else if s[i - 1] != c {
        i
    } else {
        end_not_char(s, i - 1, c)
    }
}

/// `end_not_char` is the only bound with its characterization.
pub proof fn lemma_end_not_char_is(s: Seq<char>, i: int, b: int, c: char)
    requires
        0 <= b <= i <= s.len(),
        forall|j: int| b <= j < i ==> s[j] == c,
        b > 0 ==> s[b - 1] != c,
    ensures
        end_not_char(s, i, c) == b,
    decreases i - b,
{
    if b < i {
        lemma_end_not_char_is(s, i - 1, b, c);
    }
}

/// `s` without leading and trailing occurrences of `c`.
pub open spec fn spec_trim_char(s: Seq<char>, c: char) -> Seq<char> {
    let a = next_not_char(s, 0, c);
    let b = end_not_char(s, s.len() as int, c);
    if a >= b {
        Seq::empty()
    } else {
        s.subrange(a, b)
    }
}

/// Trims leading and trailing occurrences of `c`, returning a slice of `s`.
pub fn trim_char<'a>(s: &'a str, c: char) -> (r: &'a str)
    ensures
        r@ == spec_trim_char(s@, c),
{
    let n = s.unicode_len();
    let mut a: usize = 0;
    while a < n && s.get_char(a) == c
        invariant
            0 <= a <= n,
            n == s@.len(),
            forall|j: int| 0 <= j < a ==> s@[j] == c,
        decreases n - a,
    {
        a += 1;
    }
    proof {
        lemma_next_not_char_is(s@, 0, a as int, c);
    }
    let mut b: usize = n;
    while b > a && s.get_char(b - 1) == c
        invariant
            a <= b <= n,
            n == s@.len(),
            forall|j: int| b <= j < n ==> s@[j] == c,
        decreases b,
    {
        b -= 1;
    }
    if a >= b {
        proof {
            assert(forall|j: int| 0 <= j < s@.len() ==> s@[j] == c);
            lemma_next_not_char_is(s@, 0, s@.len() as int, c);
            lemma_end_not_char_is(s@, s@.len() as int, 0, c);
            assert(spec_trim_char(s@, c) =~= Seq::<char>::empty());
            reveal_strlit("");
        }
        ""
    } else {
        proof {
            lemma_end_not_char_is(s@, s@.len() as int, b as int, c);
        }
        s.substring_char(a, b)
    }
}

/// Character-for-character string equality.
pub fn str_eq(a: &str, b: &str) -> (r: bool)
    ensures
        r == (a@ == b@),
{
    let na = a.unicode_len();
    let nb = b.unicode_len();
    if na != nb {
        proof {
            assert(a@ != b@) by {
                assert(a@.len() != b@.len());
            }
        }
        return false;
    }
    let mut i: usize = 0;
    while i < na
        invariant
            0 <= i <= na,
            na == a@.len(),
            na == b@.len(),
            forall|j: int| 0 <= j < i ==> a@[j] == b@[j],
        decreases na - i,
    {
        if a.get_char(i) != b.get_char(i) {
            return false;
        }
        i += 1;
    }
    proof {
        assert(a@ =~= b@);
    }
    true
}

/// ASCII-lowercased code point of `c`.
pub open spec fn lower_code(c: char) -> int {
    if 'A' <= c && c <= 'Z' {
        (c as u32) + 32
    } else {
        c as u32 as int
    }
}

/// Equality up to ASCII case.
pub open spec fn eq_ignore_case(a: Seq<char>, b: Seq<char>) -> bool {
    a.len() == b.len() && (forall|i: int| 0 <= i < a.len() ==> lower_code(a[i]) == lower_code(b[i]))
}

/// Compares two strings ignoring ASCII case.
pub fn str_eq_ignore_case(a: &str, b: &str) -> (r: bool)
    ensures
        r == eq_ignore_case(a@, b@),
{
    let na = a.unicode_len();
    let nb = b.unicode_len();
    if na != nb {
        return false;
    }
    let mut i: usize = 0;
    while i < na
        invariant
            0 <= i <= na,
            na == a@.len(),
            na == b@.len(),
            forall|j: int| 0 <= j < i ==> lower_code(a@[j]) == lower_code(b@[j]),
        decreases na - i,
    {
        let ca = a.get_char(i);
        let cb = b.get_char(i);
        let ua = if 'A' <= ca && ca <= 'Z' {
            (ca as u32) + 32
        } else {
            ca as u32
        };
        let ub = if 'A' <= cb && cb <= 'Z' {
            (cb as u32) + 32
        } else {
            cb as u32
        };
        if ua != ub {
            return false;
        }
        i += 1;
    }
    true
}

/// Position after the last occurrence of `c`, or `-1` when absent.
pub open spec fn last_index_of(s: Seq<char>, c: char) -> int
    decreases s.len(),
{
    if s.len() == 0 {
        -1
    } else if s.last() == c {
        s.len() - 1
    } else {
        last_index_of(s.drop_last(), c)
    }
}

pub proof fn lemma_last_index_of(s: Seq<char>, c: char)
    ensures
        -1 <= last_index_of(s, c) < s.len(),
        last_index_of(s, c) >= 0 ==> s[last_index_of(s, c)] == c,
        forall|j: int| last_index_of(s, c) < j < s.len() ==> s[j] != c,
    decreases s.len(),
{
    if s.len() > 0 && s.last() != c {
        lemma_last_index_of(s.drop_last(), c);
        assert(forall|j: int| 0 <= j < s.len() - 1 ==> s.drop_last()[j] == s[j]);
    }
}

/// Finds the last occurrence of `c` in `s`.
pub fn rfind_char(s: &str, c: char) -> (r: Option<usize>)
    ensures
        match r {
            Some(i) => i == last_index_of(s@, c) && i < s@.len(),
            None => last_index_of(s@, c) == -1,
        },
{
    proof {
        lemma_last_index_of(s@, c);
    }
    let n = s.unicode_len();
    let mut i: usize = n;
    while i > 0
        invariant
            0 <= i <= n,
            n == s@.len(),
            forall|j: int| i <= j < n ==> s@[j] != c,
        decreases i,
    {
        i -= 1;
        if s.get_char(i) == c {
            proof {
                lemma_last_index_last(s@, c, i as int);
            }
            return Some(i);
        }
    }
    None
}

/// A position holding `c` with nothing equal after it is the last index.
pub proof fn lemma_last_index_last(s: Seq<char>, c: char, i: int)
    requires
        0 <= i < s.len(),
        s[i] == c,
        forall|j: int| i < j < s.len() ==> s[j] != c,
    ensures
        last_index_of(s, c) == i,
    decreases s.len(),
{
    if s.last() != c {
        lemma_last_index_last(s.drop_last(), c, i);
    }
}

/// Position of the first occurrence of `c`, or `s.len()` when absent.
pub open spec fn first_index_of(s: Seq<char>, c: char) -> int
    decreases s.len(),
{
    if s.len() == 0 {
        0
    } else if s[0] == c {
        0
    } else {
        1 + first_index_of(s.drop_first(), c)
    }
}

pub proof fn lemma_first_index_of(s: Seq<char>, c: char)
    ensures
        0 <= first_index_of(s, c) <= s.len(),
        first_index_of(s, c) < s.len() ==> s[first_index_of(s, c)] == c,
        forall|j: int| 0 <= j < first_index_of(s, c) ==> s[j] != c,
    decreases s.len(),
{
    if s.len() > 0 && s[0] != c {
        lemma_first_index_of(s.drop_first(), c);
        assert(forall|j: int| 1 <= j < first_index_of(s, c) ==> s[j] == s.drop_first()[j - 1]);
    }
}

proof fn lemma_first_index_first(s: Seq<char>, c: char, i: int)
    requires
        0 <= i < s.len(),
        s[i] == c,
        forall|j: int| 0 <= j < i ==> s[j] != c,
    ensures
        first_index_of(s, c) == i,
    decreases s.len(),
{
    if s.len() > 0 && s[0] != c {
        lemma_first_index_first(s.drop_first(), c, i - 1);
    }
}

/// Finds the first occurrence of `c` in `s`.
pub fn find_char(s: &str, c: char) -> (r: Option<usize>)
    ensures
        match r {
            Some(i) => i == first_index_of(s@, c) && i < s@.len(),
            None => first_index_of(s@, c) == s@.len(),
        },
{
    proof {
        lemma_first_index_of(s@, c);
    }
    let n = s.unicode_len();
    let mut i: usize = 0;
    while i < n
        invariant
            0 <= i <= n,
            n == s@.len(),
            forall|j: int| 0 <= j < i ==> s@[j] != c,
        decreases n - i,
    {
        if s.get_char(i) == c {
            proof {
                lemma_first_index_first(s@, c, i as int);
            }
            return Some(i);
        }
        i += 1;
    }
    None
}

/// Whether `c` occurs in `s`.
pub fn contains_char(s: &str, c: char) -> (r: bool)
    ensures
        r == s@.contains(c),
{
    proof {
        lemma_first_index_of(s@, c);
    }
    let found = find_char(s, c);
    match found {
        Some(i) => {
            proof {
                assert(s@[i as int] == c);
            }
            true
        },
        None => {
            proof {
                assert(forall|j: int| 0 <= j < s@.len() ==> s@[j] != c);
            }
            false
        },
    }
}

/// Whether `p` is a prefix of `s`.
pub fn starts_with(s: &str, p: &str) -> (r: bool)
    ensures
        r == (s@.len() >= p@.len() && s@.subrange(0, p@.len() as int) == p@),
{
    let ns = s.unicode_len();
    let np = p.unicode_len();
    if ns < np {
        return false;
    }
    let mut i: usize = 0;
    while i < np
        invariant
            0 <= i <= np,
            np == p@.len(),
            ns == s@.len(),
            np <= ns,
            forall|j: int| 0 <= j < i ==> s@[j] == p@[j],
        decreases np - i,
    {
        if s.get_char(i) != p.get_char(i) {
            proof {
                assert(s@.subrange(0, p@.len() as int)[i as int] != p@[i as int]);
            }
            return false;
        }
        i += 1;
    }
    proof {
        assert(s@.subrange(0, p@.len() as int) =~= p@);
    }
    true
}

/// The decimal digit character for `d`.
pub open spec fn digit_char(d: int) -> char {
    if d == 0 {
        '0'
    } else if d == 1 {
        '1'
    } else if d == 2 {
        '2'
    } else if d == 3 {
        '3'
    } else if d == 4 {
        '4'
    } else if d == 5 {
        '5'
    } else if d == 6 {
        '6'
    } else if d == 7 {
        '7'
    } else if d == 8 {
        '8'
    } else {
        '9'
    }
}

/// The decimal representation of `n`, without leading zeros.
pub open spec fn spec_u64_string(n: int) -> Seq<char>
    decreases n,
{
    if n < 10 {
        seq![digit_char(n)]
    } else {
        spec_u64_string(n / 10) + seq![digit_char(n % 10)]
    }
}

/// The digit `d` as a one-character string slice.
pub fn digit_str(d: u64) -> (r: &'static str)
    requires
        d < 10,
    ensures
        r@ =~= seq![digit_char(d as int)],
{
    proof {
        reveal_strlit("0");
        reveal_strlit("1");
        reveal_strlit("2");
        reveal_strlit("3");
        reveal_strlit("4");
        reveal_strlit("5");
        reveal_strlit("6");
        reveal_strlit("7");
        reveal_strlit("8");
        reveal_strlit("9");
    }
    if d == 0 {
        "0"
    } else if d == 1 {
        "1"
    } else if d == 2 {
        "2"
    } else if d == 3 {
        "3"
    } else if d == 4 {
        "4"
    } else if d == 5 {
        "5"
    } else if d == 6 {
        "6"
    } else if d == 7 {
        "7"
    } else if d == 8 {
        "8"
    } else {
        "9"
    }
}

/// Renders `n` in decimal.
pub fn u64_to_string(n: u64) -> (r: String)
    ensures
        r@ == spec_u64_string(n as int),
    decreases n,
{
    if n < 10 {
        String::from_str(digit_str(n))
    } else {
        let high = u64_to_string(n / 10);
        high.concat(digit_str(n % 10))
    }
}

/// The decimal representation of `n`, zero-padded to at least two digits.
pub open spec fn spec_padded2(n: int) -> Seq<char> {
    if n < 10 {
        seq!['0'] + spec_u64_string(n)
    } else {
        spec_u64_string(n)
    }
}

/// The decimal representation of `n`, zero-padded to at least three digits.
pub open spec fn spec_padded3(n: int) -> Seq<char> {
    if n < 10 {
        seq!['0', '0'] + spec_u64_string(n)
    } else if n < 100 {
        seq!['0'] + spec_u64_string(n)
    } else {
        spec_u64_string(n)
    }
}

/// Renders `n` zero-padded to at least two digits.
pub fn u64_to_string_pad2(n: u64) -> (r: String)
    ensures
        r@ == spec_padded2(n as int),
{
    if n < 10 {
        proof {
            reveal_strlit("0");
        }
        let s = String::from_str("0");
        let r = s.concat(digit_str(n));
        proof {
            assert(r@ =~= spec_padded2(n as int));
        }
        r
    } else {
        u64_to_string(n)
    }
}

/// Renders `n` zero-padded to at least three digits.
pub fn u64_to_string_pad3(n: u64) -> (r: String)
    ensures
        r@ == spec_padded3(n as int),
{
    if n < 10 {
        proof {
            reveal_strlit("00");
        }
        let s = String::from_str("00");
        let r = s.concat(digit_str(n));
        proof {
            assert(r@ =~= spec_padded3(n as int));
        }
        r
    } else if n < 100 {
        proof {
            reveal_strlit("0");
        }
        let s = String::from_str("0");
        let r = s.concat(u64_to_string(n).as_str());
        proof {
            assert(r@ =~= spec_padded3(n as int));
        }
        r
    } else {
        u64_to_string(n)
    }
}

} // verus!
