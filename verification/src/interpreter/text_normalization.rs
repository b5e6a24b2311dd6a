//! Deterministic text normalization: NFC, then trimming, then collapsing whitespace runs.
use vstd::prelude::*;
use vstd::utf8::{decode_utf8, valid_utf8};

use crate::interpreter::unicode::{general_category, general_category_of, nfc, nfc_text, utf8_text};
use crate::text::{joined, text_equals};

verus! {

/// Normalization failed: the bytes are not UTF-8.
#[derive(Debug, Clone, Copy, PartialEq, Eq, Structural)]
pub enum NormalizationError {
    InvalidUtf8,
}

/// The separator categories: space (Zs), line (Zl) and paragraph (Zp) separators.
pub open spec fn is_separator_category(category: Seq<char>) -> bool {
    category == "Zs"@ || category == "Zl"@ || category == "Zp"@
}

/// Whitespace for normalization: the five ASCII control separators
/// (tab, line feed, carriage return, vertical tab, form feed) and every
/// character of Unicode categories Zs, Zl and Zp.
pub open spec fn is_normalization_ws(c: char) -> bool {
    c == '\t' || c == '\n' || c == '\r' || c == '\x0b' || c == '\x0c' || is_separator_category(
        general_category_of(c),
    )
}

/// The text without its leading whitespace.
pub open spec fn trim_start_ws(s: Seq<char>) -> Seq<char>
    decreases s.len(),
{
    if s.len() > 0 && is_normalization_ws(s[0]) {
        trim_start_ws(s.drop_first())
    } else {
        s
    }
}

/// The text without its trailing whitespace.
pub open spec fn trim_end_ws(s: Seq<char>) -> Seq<char>
    decreases s.len(),
{
    if s.len() > 0 && is_normalization_ws(s.last()) {
        trim_end_ws(s.drop_last())
    } else {
        s
    }
}

/// The text without leading and trailing whitespace.
pub open spec fn trim_ws(s: Seq<char>) -> Seq<char> {
    trim_end_ws(trim_start_ws(s))
}

/// Reading `s` from the left: the text produced so far, and whether a space is owed
/// before the next non-whitespace character. Whitespace before the first kept
/// character is dropped; a run of whitespace after it owes one space.
pub open spec fn collapse_run(s: Seq<char>) -> (Seq<char>, bool)
    decreases s.len(),
{
    if s.len() == 0 {
        (Seq::empty(), false)
    } else {
        let prev = collapse_run(s.drop_last());
        let c = s.last();
        if is_normalization_ws(c) {
            (prev.0, prev.1 || prev.0.len() > 0)
        } else if prev.1 {
            (prev.0.push(' ').push(c), false)
        } else {
            (prev.0.push(c), false)
        }
    }
}

/// The text with every inner run of whitespace replaced by one space and
/// whitespace at either end removed.
pub open spec fn collapse_ws(s: Seq<char>) -> Seq<char> {
    collapse_run(s).0
}

/// The normalized form of a text: NFC, trimmed, inner whitespace collapsed.
pub open spec fn normalized(s: Seq<char>) -> Seq<char> {
    collapse_ws(trim_ws(nfc(s)))
}

/// The shape of normalized text: it neither starts nor ends with whitespace, and every
/// whitespace character in it is a single space between two non-whitespace characters.
pub open spec fn whitespace_collapsed(u: Seq<char>) -> bool {
    forall|i: int|
        0 <= i < u.len() && is_normalization_ws(#[trigger] u[i]) ==> u[i] == ' ' && 0 < i < u.len() - 1
            && !is_normalization_ws(u[i - 1]) && !is_normalization_ws(u[i + 1])
}

proof fn lemma_collapse_run_shape(s: Seq<char>)
    ensures
        whitespace_collapsed(collapse_run(s).0),
        collapse_run(s).0.len() > 0 ==> !is_normalization_ws(collapse_run(s).0.last()),
        collapse_run(s).1 ==> collapse_run(s).0.len() > 0,
    decreases s.len(),
{
    if s.len() > 0 {
        lemma_collapse_run_shape(s.drop_last());
        let prev = collapse_run(s.drop_last());
        let c = s.last();
        if !is_normalization_ws(c) {
            let res = collapse_run(s).0;
            if prev.1 {
                assert(res == prev.0.push(' ').push(c));
                assert forall|i: int| 0 <= i < res.len() && is_normalization_ws(#[trigger] res[i]) implies res[i] == ' '
                    && 0 < i < res.len() - 1 && !is_normalization_ws(res[i - 1]) && !is_normalization_ws(res[i + 1]) by {
                    if i < prev.0.len() {
                        assert(res[i] == prev.0[i]);
                        assert(i != prev.0.len() - 1);
                        assert(res[i - 1] == prev.0[i - 1]);
                        assert(res[i + 1] == prev.0[i + 1]);
                    }
                }
            } else {
                assert(res == prev.0.push(c));
                assert forall|i: int| 0 <= i < res.len() && is_normalization_ws(#[trigger] res[i]) implies res[i] == ' '
                    && 0 < i < res.len() - 1 && !is_normalization_ws(res[i - 1]) && !is_normalization_ws(res[i + 1]) by {
                    if i < prev.0.len() {
                        assert(res[i] == prev.0[i]);
                        assert(i != prev.0.len() - 1);
                        assert(res[i - 1] == prev.0[i - 1]);
                        assert(res[i + 1] == prev.0[i + 1]);
                    }
                }
            }
        }
    }
}

/// Normalized text neither starts nor ends with whitespace, and each whitespace character
/// in it is a single space between two non-whitespace characters.
pub proof fn normalized_text_has_collapsed_whitespace(s: Seq<char>)
    ensures
        whitespace_collapsed(normalized(s)),
{
    lemma_collapse_run_shape(trim_ws(nfc(s)));
}

proof fn lemma_collapse_run_of_collapsed(u: Seq<char>, k: int)
    requires
        whitespace_collapsed(u),
        0 <= k <= u.len(),
    ensures
        collapse_run(u.take(k)) == (if k > 0 && is_normalization_ws(u[k - 1]) {
            (u.take(k - 1), true)
        } else {
            (u.take(k), false)
        }),
    decreases k,
{
    if k > 0 {
        lemma_collapse_run_of_collapsed(u, k - 1);
        assert(u.take(k).drop_last() == u.take(k - 1));
        assert(u.take(k).last() == u[k - 1]);
        let c = u[k - 1];
        if is_normalization_ws(c) {
            assert(!is_normalization_ws(u[k - 2]));
            assert(u.take(k - 1).len() > 0);
        } else if k > 1 && is_normalization_ws(u[k - 2]) {
            assert(u[k - 2] == ' ');
            assert(u.take(k) =~= u.take(k - 2).push(' ').push(c));
        } else {
            assert(u.take(k) =~= u.take(k - 1).push(c));
        }
    } else {
        assert(u.take(0) =~= Seq::<char>::empty());
    }
}

/// Text whose whitespace is already collapsed is left as it is by trimming and collapsing.
proof fn lemma_collapsed_is_fixed(u: Seq<char>)
    requires
        whitespace_collapsed(u),
    ensures
        trim_ws(u) == u,
        collapse_ws(u) == u,
{
    if u.len() > 0 {
        assert(!is_normalization_ws(u[0]));
        assert(!is_normalization_ws(u.last()));
        assert(trim_start_ws(u) == u);
        lemma_collapse_run_of_collapsed(u, u.len() as int);
        assert(u.take(u.len() as int) == u);
    } else {
        assert(collapse_run(u) == (Seq::<char>::empty(), false));
    }
}

/// Trimming and collapsing normalized text again changes nothing.
pub proof fn whitespace_stage_of_normalized_text_is_idempotent(s: Seq<char>)
    ensures
        collapse_ws(trim_ws(normalized(s))) == normalized(s),
{
    normalized_text_has_collapsed_whitespace(s);
    lemma_collapsed_is_fixed(normalized(s));
}

/// The pieces of `s` between its whitespace characters, as splitting at every whitespace
/// character gives them: one piece more than there are whitespace characters, empty ones included.
pub open spec fn split_ws(s: Seq<char>) -> Seq<Seq<char>>
    decreases s.len(),
{
    if s.len() == 0 {
        seq![Seq::empty()]
    } else {
        let pieces = split_ws(s.drop_last());
        if is_normalization_ws(s.last()) {
            pieces.push(Seq::empty())
        } else {
            pieces.drop_last().push(pieces.last().push(s.last()))
        }
    }
}

/// The words of `s`: the non-empty pieces between its whitespace characters, in order.
pub open spec fn words_ws(s: Seq<char>) -> Seq<Seq<char>> {
    split_ws(s).filter(|w: Seq<char>| w.len() > 0)
}

proof fn lemma_split_ws_nonempty(s: Seq<char>)
    ensures
        split_ws(s).len() > 0,
    decreases s.len(),
{
    if s.len() > 0 {
        lemma_split_ws_nonempty(s.drop_last());
    }
}

proof fn lemma_joined_push(parts: Seq<Seq<char>>, w: Seq<char>, sep: Seq<char>)
    requires
        parts.len() > 0,
    ensures
        joined(parts.push(w), sep) == joined(parts, sep) + sep + w,
{
    assert(parts.push(w).drop_last() =~= parts);
}

proof fn lemma_joined_extend_last(parts: Seq<Seq<char>>, c: char, sep: Seq<char>)
    requires
        parts.len() > 0,
    ensures
        joined(parts.drop_last().push(parts.last().push(c)), sep) == joined(parts, sep).push(c),
{
    let longer = parts.drop_last().push(parts.last().push(c));
    if parts.len() == 1 {
        assert(longer.len() == 1);
    } else {
        assert(longer.drop_last() =~= parts.drop_last());
        assert(joined(longer, sep) =~= joined(parts, sep).push(c));
    }
}

proof fn lemma_joined_words_nonempty(parts: Seq<Seq<char>>, sep: Seq<char>)
    requires
        parts.len() > 0,
        parts.last().len() > 0,
    ensures
        joined(parts, sep).len() > 0,
{
}

/// Reading `s` from the left, the collapse has produced the words read so far joined by
/// single spaces, and owes a space exactly when the text ends in whitespace after a word.
proof fn lemma_collapse_run_words(s: Seq<char>)
    ensures
        collapse_run(s).0 == joined(words_ws(s), " "@),
        collapse_run(s).1 == (split_ws(s).last().len() == 0 && words_ws(s).len() > 0),
        split_ws(s).len() > 0,
        split_ws(s).last().len() > 0 ==> words_ws(s).len() > 0 && words_ws(s).last() == split_ws(s).last(),
    decreases s.len(),
{
    reveal(Seq::filter);
    lemma_split_ws_nonempty(s);
    if s.len() == 0 {
        let p = split_ws(s);
        assert(p == seq![Seq::<char>::empty()]);
        assert(p.drop_last() =~= Seq::<Seq<char>>::empty());
        assert(p.drop_last().filter(|w: Seq<char>| w.len() > 0) =~= Seq::<Seq<char>>::empty());
        assert(words_ws(s) == p.drop_last().filter(|w: Seq<char>| w.len() > 0));
    } else {
        let t = s.drop_last();
        let c = s.last();
        lemma_collapse_run_words(t);
        let p = split_ws(t);
        let f = words_ws(t);
        let prev = collapse_run(t);
        if f.len() > 0 {
            lemma_joined_words_nonempty(f, " "@);
        }
        if is_normalization_ws(c) {
            assert(split_ws(s) == p.push(Seq::<char>::empty()));
            assert(p.push(Seq::<char>::empty()).drop_last() =~= p);
            assert(words_ws(s) == f);
        } else {
            let np = p.drop_last().push(p.last().push(c));
            assert(split_ws(s) == np);
            assert(np.drop_last() =~= p.drop_last());
            assert(words_ws(s) == p.drop_last().filter(|w: Seq<char>| w.len() > 0).push(p.last().push(c)));
            if p.last().len() > 0 {
                assert(f == p.drop_last().filter(|w: Seq<char>| w.len() > 0).push(p.last()));
                assert(f.drop_last() =~= p.drop_last().filter(|w: Seq<char>| w.len() > 0));
                lemma_joined_extend_last(f, c, " "@);
            } else {
                assert(f == p.drop_last().filter(|w: Seq<char>| w.len() > 0));
                assert(p.last().push(c) =~= seq![c]);
                if f.len() > 0 {
                    lemma_joined_push(f, seq![c], " "@);
                    reveal_strlit(" ");
                    assert(joined(f, " "@) + " "@ + seq![c] =~= prev.0.push(' ').push(c));
                } else {
                    assert(f.push(seq![c]) =~= seq![seq![c]]);
                    assert(prev.0 =~= Seq::<char>::empty());
                    assert(prev.0.push(c) =~= seq![c]);
                }
            }
        }
    }
}

/// Collapsing whitespace joins the words of the text with single spaces: the text split at
/// every whitespace character, with the empty pieces left out.
pub proof fn collapse_joins_words(s: Seq<char>)
    ensures
        collapse_ws(s) == joined(words_ws(s), " "@),
{
    lemma_collapse_run_words(s);
}

/// Returns true when `c` is removed during trimming or collapsed with its neighbours.
pub fn is_normalization_whitespace(c: char) -> (r: bool)
    ensures
        r == is_normalization_ws(c),
{
    if c == '\t' || c == '\n' || c == '\r' || c == '\x0b' || c == '\x0c' {
        return true;
    }
    let category = general_category(c);
    text_equals(category, "Zs") || text_equals(category, "Zl") || text_equals(category, "Zp")
}

/// Validates UTF-8 bytes and normalizes the text they encode.
pub fn try_normalize_text_bytes(bytes: &[u8]) -> (r: Result<String, NormalizationError>)
    ensures
        r is Ok <==> valid_utf8(bytes@),
        r matches Ok(text) ==> text@ == normalized(decode_utf8(bytes@)),
        r matches Err(e) ==> e == NormalizationError::InvalidUtf8,
{
    match utf8_text(bytes) {
        Some(text) => Ok(normalize_text(text)),
        None => Err(NormalizationError::InvalidUtf8),
    }
}

/// Applies NFC, then trimming, then inner whitespace collapse.
pub fn normalize_text(input: &str) -> (r: String)
    ensures
        r@ == normalized(input@),
{
    let composed = nfc_text(input);
    normalize_composed(composed.as_str())
}

/// The whitespace stage of normalization, on text already in Normalization Form C:
/// trims whitespace at both ends, then collapses each inner run of whitespace to one space.
pub fn normalize_composed(composed: &str) -> (r: String)
    ensures
        r@ == collapse_ws(trim_ws(composed@)),
{
    let trimmed = trim_normalization_whitespace(composed);
    collapse_internal_whitespace(trimmed)
}

fn trim_normalization_whitespace(input: &str) -> (r: &str)
    ensures
        r@ == trim_ws(input@),
{
    let ghost s = input@;
    let len = input.unicode_len();
    let mut start: usize = 0;
    assert(s.subrange(0, len as int) == s);
    while start < len
        invariant
            s == input@,
            len == s.len(),
            start <= len,
            trim_start_ws(s) == trim_start_ws(s.subrange(start as int, len as int)),
        ensures
            start <= len,
            trim_start_ws(s) == s.subrange(start as int, len as int),
        decreases len - start,
    {
        if !is_normalization_whitespace(input.get_char(start)) {
            break;
        }
        assert(s.subrange(start as int, len as int).drop_first() == s.subrange(start + 1, len as int));
        start = start + 1;
    }
    let mut end: usize = len;
    while end > start
        invariant
            s == input@,
            len == s.len(),
            start <= end <= len,
            trim_end_ws(s.subrange(start as int, len as int)) == trim_end_ws(s.subrange(start as int, end as int)),
        ensures
            start <= end <= len,
            trim_end_ws(s.subrange(start as int, len as int)) == s.subrange(start as int, end as int),
        decreases end - start,
    {
        if !is_normalization_whitespace(input.get_char(end - 1)) {
            break;
        }
        assert(s.subrange(start as int, end as int).drop_last() == s.subrange(start as int, end - 1));
        end = end - 1;
    }
    input.substring_char(start, end)
}

fn collapse_internal_whitespace(input: &str) -> (r: String)
    ensures
        r@ == collapse_ws(input@),
{
    let ghost s = input@;
    let len = input.unicode_len();
    let mut result = String::new();
    let mut pending = false;
    let mut i: usize = 0;
    while i < len
        invariant
            s == input@,
            len == s.len(),
            i <= len,
            (result@, pending) == collapse_run(s.subrange(0, i as int)),
        decreases len - i,
    {
        let c = input.get_char(i);
        assert(s.subrange(0, i + 1).drop_last() == s.subrange(0, i as int));
        assert(s.subrange(0, i + 1).last() == c);
        if is_normalization_whitespace(c) {
            if !result.as_str().is_empty() {
                pending = true;
            }
        } else {
            let ghost before = result@;
            let ghost owed = pending;
            if pending {
                result.append(" ");
                proof {
                    reveal_strlit(" ");
                }
                assert(" "@ =~= seq![' ']);
                assert(result@ =~= before.push(' '));
                pending = false;
            }
            let ghost mid = result@;
            let piece = input.substring_char(i, i + 1);
            assert(piece@ == seq![c]);
            result.append(piece);
            assert(result@ =~= mid.push(c));
            assert(owed ==> result@ == before.push(' ').push(c));
            assert(!owed ==> result@ == before.push(c));
        }
        i = i + 1;
    }
    assert(s.subrange(0, len as int) == s);
    result
}

} // verus!
