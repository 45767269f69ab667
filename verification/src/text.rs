//! Character-level helpers over strings: whitespace, words, newline-separated
//! segments, and UTF-8 decoding.
use vstd::prelude::*;
use vstd::string::*;
use vstd::utf8::{decode_utf8, valid_utf8};

verus! {

/// The characters of `s`, in order.
pub fn chars_of(s: &str) -> (v: Vec<char>)
    ensures
        v@ == s@,
{
    broadcast use vstd::string::group_string_axioms;

    let mut v: Vec<char> = Vec::new();
    for c in it: s.chars()
        invariant
            v@ == it.seq().take(it.index() as int),
    {
        v.push(c);
    }
    v
}

/// Unicode `White_Space`, the set of characters that `char::is_whitespace` accepts.
pub open spec fn is_ws(c: char) -> bool {
    ||| '\t' <= c && c <= '\r'
    ||| c == ' '
    ||| c == '\u{85}'
    ||| c == '\u{a0}'
    ||| c == '\u{1680}'
    ||| '\u{2000}' <= c && c <= '\u{200a}'
    ||| c == '\u{2028}'
    ||| c == '\u{2029}'
    ||| c == '\u{202f}'
    ||| c == '\u{205f}'
    ||| c == '\u{3000}'
}

/// Whether `c` is whitespace, as `char::is_whitespace` says.
pub fn is_whitespace(c: char) -> (b: bool)
    ensures
        b == is_ws(c),
{
    ('\t' <= c && c <= '\r') || c == ' ' || c == '\u{85}' || c == '\u{a0}' || c == '\u{1680}'
        || ('\u{2000}' <= c && c <= '\u{200a}') || c == '\u{2028}' || c == '\u{2029}' || c
        == '\u{202f}' || c == '\u{205f}' || c == '\u{3000}'
}

/// The number of characters at the front of `s` before the first one that
/// `stop` accepts (all of `s` where there is none).
pub open spec fn run_len(s: Seq<char>, stop: spec_fn(char) -> bool) -> nat
    decreases s.len(),
{
    if s.len() == 0 || stop(s[0]) {
        0
    } else {
        1 + run_len(s.drop_first(), stop)
    }
}

pub proof fn lemma_run_len_bound(s: Seq<char>, stop: spec_fn(char) -> bool)
    ensures
        run_len(s, stop) <= s.len(),
        s.len() > 0 && !stop(s[0]) ==> run_len(s, stop) >= 1,
    decreases s.len(),
{
    if s.len() > 0 && !stop(s[0]) {
        lemma_run_len_bound(s.drop_first(), stop);
    }
}

/// `run_len` is the position of the first stop character.
proof fn lemma_run_len_is(s: Seq<char>, stop: spec_fn(char) -> bool, k: int)
    requires
        0 <= k <= s.len(),
        forall|m: int| 0 <= m < k ==> !stop(#[trigger] s[m]),
        k == s.len() || stop(s[k]),
    ensures
        run_len(s, stop) == k,
    decreases k,
{
    if k > 0 {
        let t = s.drop_first();
        assert forall|m: int| 0 <= m < k - 1 implies !stop(#[trigger] t[m]) by {
            assert(t[m] == s[m + 1]);
        }
        lemma_run_len_is(t, stop, k - 1);
    }
}

pub open spec fn ws_stop() -> spec_fn(char) -> bool {
    |c: char| is_ws(c)
}

pub open spec fn newline_stop() -> spec_fn(char) -> bool {
    |c: char| c == '\n'
}

/// The whitespace-separated words of `s`, in order, as `str::split_whitespace`
/// yields them: the maximal runs of characters that are not whitespace.
pub open spec fn words(s: Seq<char>) -> Seq<Seq<char>>
    decreases s.len(),
{
    if s.len() == 0 {
        seq![]
    } else if is_ws(s[0]) {
        words(s.drop_first())
    } else {
        let n = run_len(s, ws_stop());
        proof {
            lemma_run_len_bound(s, ws_stop());
        }
        seq![s.take(n as int)] + words(s.skip(n as int))
    }
}

/// Each word is a nonempty run of characters that are not whitespace.
pub proof fn lemma_words_are_words(s: Seq<char>)
    ensures
        forall|k: int|
            0 <= k < words(s).len() ==> (#[trigger] words(s)[k]).len() > 0 && forall|i: int|
                0 <= i < words(s)[k].len() ==> !is_ws(#[trigger] words(s)[k][i]),
    decreases s.len(),
{
    if s.len() == 0 {
    } else if is_ws(s[0]) {
        lemma_words_are_words(s.drop_first());
        assert(words(s) == words(s.drop_first()));
    } else {
        let n = run_len(s, ws_stop());
        lemma_run_len_bound(s, ws_stop());
        lemma_run_len_prefix(s, ws_stop());
        lemma_words_are_words(s.skip(n as int));
        let w = seq![s.take(n as int)] + words(s.skip(n as int));
        assert(words(s) == w);
        assert forall|k: int| 0 <= k < w.len() implies (#[trigger] w[k]).len() > 0 && forall|i: int|
            0 <= i < w[k].len() ==> !is_ws(#[trigger] w[k][i]) by {
            if k == 0 {
                assert(w[0] == s.take(n as int));
                assert forall|i: int| 0 <= i < w[0].len() implies !is_ws(#[trigger] w[0][i]) by {
                    assert(w[0][i] == s[i]);
                    assert(!(ws_stop())(s[i]));
                }
            } else {
                assert(w[k] == words(s.skip(n as int))[k - 1]);
            }
        }
    }
}

/// No character before `run_len` is a stop character.
pub proof fn lemma_run_len_prefix(s: Seq<char>, stop: spec_fn(char) -> bool)
    ensures
        forall|i: int| 0 <= i < run_len(s, stop) ==> !stop(#[trigger] s[i]),
    decreases s.len(),
{
    if s.len() > 0 && !stop(s[0]) {
        lemma_run_len_prefix(s.drop_first(), stop);
        lemma_run_len_bound(s.drop_first(), stop);
        assert forall|i: int| 0 <= i < run_len(s, stop) implies !stop(#[trigger] s[i]) by {
            if i > 0 {
                assert(s[i] == s.drop_first()[i - 1]);
            }
        }
    }
}

/// The pieces of `s` between newline characters, in order; a newline at the
/// very end opens no further piece, and an empty `s` has none. These are the
/// lines that `str::lines` yields, but for the `'\r'` that it drops before a
/// `'\n'`; as `'\r'` is whitespace, each piece has the same `words` as its line.
pub open spec fn newline_pieces(s: Seq<char>) -> Seq<Seq<char>>
    decreases s.len(),
{
    if s.len() == 0 {
        seq![]
    } else {
        let n = run_len(s, newline_stop());
        proof {
            lemma_run_len_bound(s, newline_stop());
        }
        if n < s.len() {
            seq![s.take(n as int)] + newline_pieces(s.skip(n + 1int))
        } else {
            seq![s]
        }
    }
}

/// A line without newline characters, a newline, and the rest of a text:
/// the line is the first piece, and the pieces of the rest follow it.
pub proof fn lemma_pieces_of_line_then_rest(line: Seq<char>, rest: Seq<char>)
    requires
        forall|i: int| 0 <= i < line.len() ==> line[i] != '\n',
    ensures
        newline_pieces(line.push('\n') + rest) == seq![line] + newline_pieces(rest),
{
    let s = line.push('\n') + rest;
    assert forall|m: int| 0 <= m < line.len() implies !(newline_stop())(#[trigger] s[m]) by {
        assert(s[m] == line[m]);
    }
    assert(s[line.len() as int] == '\n');
    lemma_run_len_is(s, newline_stop(), line.len() as int);
    lemma_run_len_bound(s, newline_stop());
    assert(s.take(line.len() as int) =~= line);
    assert(s.skip(line.len() + 1int) =~= rest);
}

/// Where the word that starts at `i` (a character that is no whitespace) ends
/// in `v[..hi]`.
fn word_end(v: &Vec<char>, i: usize, hi: usize) -> (j: usize)
    requires
        i <= hi <= v@.len(),
    ensures
        i <= j <= hi,
        run_len(v@.subrange(i as int, hi as int), ws_stop()) == j - i,
{
    let mut j = i;
    while j < hi && !is_whitespace(v[j])
        invariant
            i <= j <= hi <= v@.len(),
            forall|m: int| i <= m < j ==> !is_ws(#[trigger] v@[m]),
        decreases hi - j,
    {
        j = j + 1;
    }
    let ghost s = v@.subrange(i as int, hi as int);
    assert forall|m: int| 0 <= m < j - i implies !(ws_stop())(#[trigger] s[m]) by {
        assert(s[m] == v@[i + m]);
    }
    assert(j - i == s.len() || (ws_stop())(s[j - i]));
    proof {
        lemma_run_len_is(s, ws_stop(), j - i);
    }
    j
}

/// Where the piece that starts at `i` ends in `v`: at the next newline, or at
/// the end.
pub fn piece_end_at(v: &Vec<char>, i: usize) -> (j: usize)
    requires
        i <= v@.len(),
    ensures
        i <= j <= v@.len(),
        run_len(v@.subrange(i as int, v@.len() as int), newline_stop()) == j - i,
{
    let len = v.len();
    let mut j = i;
    while j < len && v[j] != '\n'
        invariant
            i <= j <= len == v@.len(),
            forall|m: int| i <= m < j ==> #[trigger] v@[m] != '\n',
        decreases len - j,
    {
        j = j + 1;
    }
    let ghost s = v@.subrange(i as int, len as int);
    assert forall|m: int| 0 <= m < j - i implies !(newline_stop())(#[trigger] s[m]) by {
        assert(s[m] == v@[i + m]);
    }
    assert(j - i == s.len() || (newline_stop())(s[j - i]));
    proof {
        lemma_run_len_is(s, newline_stop(), j - i);
    }
    j
}

/// The words of `spans`, read as half-open ranges into `v`.
pub open spec fn span_words(v: Seq<char>, spans: Seq<(usize, usize)>) -> Seq<Seq<char>> {
    spans.map_values(|p: (usize, usize)| v.subrange(p.0 as int, p.1 as int))
}

/// The ranges of the words of `v[lo..hi]`, in order.
pub fn word_spans(v: &Vec<char>, lo: usize, hi: usize) -> (spans: Vec<(usize, usize)>)
    requires
        lo <= hi <= v@.len(),
    ensures
        span_words(v@, spans@) == words(v@.subrange(lo as int, hi as int)),
        forall|k: int|
            0 <= k < spans@.len() ==> lo <= (#[trigger] spans@[k]).0 <= spans@[k].1 <= hi,
{
    let mut spans: Vec<(usize, usize)> = Vec::new();
    let mut i = lo;
    while i < hi
        invariant
            lo <= i <= hi <= v@.len(),
            words(v@.subrange(lo as int, hi as int)) == span_words(v@, spans@) + words(
                v@.subrange(i as int, hi as int),
            ),
            forall|k: int|
                0 <= k < spans@.len() ==> lo <= (#[trigger] spans@[k]).0 <= spans@[k].1 <= hi,
        decreases hi - i,
    {
        let ghost s = v@.subrange(i as int, hi as int);
        assert(s[0] == v@[i as int]);
        if is_whitespace(v[i]) {
            assert(s.drop_first() =~= v@.subrange(i + 1, hi as int));
            i = i + 1;
        } else {
            let j = word_end(v, i, hi);
            proof {
                lemma_run_len_bound(s, ws_stop());
            }
            assert(s.take(j - i) =~= v@.subrange(i as int, j as int));
            assert(s.skip(j - i) =~= v@.subrange(j as int, hi as int));
            let ghost before = spans@;
            spans.push((i, j));
            assert(span_words(v@, spans@) =~= span_words(v@, before) + seq![
                v@.subrange(i as int, j as int),
            ]);
            assert(words(s) == seq![v@.subrange(i as int, j as int)] + words(
                v@.subrange(j as int, hi as int),
            ));
            i = j;
        }
    }
    assert(v@.subrange(i as int, hi as int).len() == 0);
    assert(span_words(v@, spans@) + Seq::<Seq<char>>::empty() =~= span_words(v@, spans@));
    spans
}

/// Calls `String::from_utf8`, which its documentation describes as giving the
/// string that the bytes encode when they are valid UTF-8, and an error
/// otherwise; stated here with vstd's model of UTF-8. The error value itself
/// is dropped.
#[verifier::external_body]
pub(crate) fn string_from_utf8(bytes: Vec<u8>) -> (r: Option<String>)
    ensures
        r is Some <==> valid_utf8(bytes@),
        r matches Some(s) ==> s@ == decode_utf8(bytes@),
{
    String::from_utf8(bytes).ok()
}

} // verus!
