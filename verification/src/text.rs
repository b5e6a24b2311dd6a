//! Text helpers shared by the domain model: conversions into owned text,
//! equality, lexicographic order and decimal rendering of counters.
use vstd::prelude::*;

verus! {

/// A value that can be turned into owned text (string slices, strings and identifiers).
pub trait IntoText {
    /// The characters the value stands for.
    spec fn text_view(&self) -> Seq<char>;

    fn into_text(self) -> (r: String)
        ensures
            r@ == self.text_view(),
    ;
}

impl<'a> IntoText for &'a str {
    open spec fn text_view(&self) -> Seq<char> {
        (*self)@
    }

    fn into_text(self) -> (r: String) {
        self.to_owned()
    }
}

impl IntoText for String {
    open spec fn text_view(&self) -> Seq<char> {
        self@
    }

    fn into_text(self) -> (r: String) {
        self
    }
}

/// View of an optional owned string.
pub open spec fn opt_text(o: Option<String>) -> Option<Seq<char>> {
    match o {
        Some(s) => Some(s@),
        None => None,
    }
}

/// Character-wise equality of two string slices.
pub fn text_equals(a: &str, b: &str) -> (r: bool)
    ensures
        r == (a@ == b@),
{
    a.to_owned() == b.to_owned()
}

/// Copies an optional string.
pub fn copy_opt_text(o: &Option<String>) -> (r: Option<String>)
    ensures
        opt_text(r) == opt_text(*o),
{
    match o {
        Some(s) => Some(s.clone()),
        None => None,
    }
}

/// Strict lexicographic order on character sequences, comparing code points.
pub open spec fn text_less(a: Seq<char>, b: Seq<char>) -> bool
    decreases a.len(),
{
    if b.len() == 0 {
        false
    } else if a.len() == 0 {
        true
    } else if a[0] != b[0] {
        (a[0] as u32) < (b[0] as u32)
    } else {
        text_less(a.drop_first(), b.drop_first())
    }
}

/// Outcome of comparing two texts.
#[derive(Debug, Clone, Copy, PartialEq, Eq, Structural)]
pub enum TextOrder {
    Less,
    Equal,
    Greater,
}

/// Lexicographic comparison of two string slices by code point.
pub fn compare_text(a: &str, b: &str) -> (r: TextOrder)
    ensures
        r == TextOrder::Equal <==> a@ == b@,
        r == TextOrder::Less <==> text_less(a@, b@),
        r == TextOrder::Greater <==> text_less(b@, a@),
{
    let la = a.unicode_len();
    let lb = b.unicode_len();
    let mut i: usize = 0;
    while i < la && i < lb
        invariant
            la == a@.len(),
            lb == b@.len(),
            i <= la,
            i <= lb,
            a@.subrange(0, i as int) == b@.subrange(0, i as int),
        decreases la - i,
    {
        let ca = a.get_char(i);
        let cb = b.get_char(i);
        if ca != cb {
            proof {
                lemma_text_less_at(a@, b@, i as int);
                lemma_text_less_at(b@, a@, i as int);
            }
            if ca < cb {
                return TextOrder::Less;
            } else {
                return TextOrder::Greater;
            }
        }
        assert(a@.subrange(0, i + 1) == a@.subrange(0, i as int).push(ca));
        assert(b@.subrange(0, i + 1) == b@.subrange(0, i as int).push(cb));
        i = i + 1;
    }
    proof {
        lemma_text_less_prefix(a@, b@, i as int);
        lemma_text_less_prefix(b@, a@, i as int);
    }
    if la == lb {
        assert(a@ == a@.subrange(0, i as int));
        assert(b@ == b@.subrange(0, i as int));
        TextOrder::Equal
    } else if la < lb {
        TextOrder::Less
    } else {
        TextOrder::Greater
    }
}

/// Texts that agree before `i` and differ at `i` are ordered by the characters at `i`.
proof fn lemma_text_less_at(a: Seq<char>, b: Seq<char>, i: int)
    requires
        0 <= i < a.len(),
        i < b.len(),
        a.subrange(0, i) == b.subrange(0, i),
        a[i] != b[i],
    ensures
        text_less(a, b) == ((a[i] as u32) < (b[i] as u32)),
    decreases i,
{
    if i > 0 {
        assert(a[0] == a.subrange(0, i)[0]);
        assert(b[0] == b.subrange(0, i)[0]);
        assert(a.drop_first().subrange(0, i - 1) == a.subrange(0, i).drop_first());
        assert(b.drop_first().subrange(0, i - 1) == b.subrange(0, i).drop_first());
        lemma_text_less_at(a.drop_first(), b.drop_first(), i - 1);
    }
}

/// When the shorter text is a prefix of the other, the shorter one is smaller.
proof fn lemma_text_less_prefix(a: Seq<char>, b: Seq<char>, i: int)
    requires
        0 <= i,
        i == a.len() || i == b.len(),
        i <= a.len(),
        i <= b.len(),
        a.subrange(0, i) == b.subrange(0, i),
    ensures
        text_less(a, b) == (a.len() < b.len()),
    decreases i,
{
    if i > 0 {
        assert(a[0] == a.subrange(0, i)[0]);
        assert(b[0] == b.subrange(0, i)[0]);
        assert(a.drop_first().subrange(0, i - 1) == a.subrange(0, i).drop_first());
        assert(b.drop_first().subrange(0, i - 1) == b.subrange(0, i).drop_first());
        lemma_text_less_prefix(a.drop_first(), b.drop_first(), i - 1);
    }
}

/// The decimal digit `d` as a character.
pub open spec fn digit_char(d: nat) -> char {
    "0123456789"@[d as int]
}

/// Decimal rendering of a natural number, without leading zeros.
pub open spec fn decimal(n: nat) -> Seq<char>
    decreases n,
{
    if n < 10 {
        seq![digit_char(n)]
    } else {
        decimal(n / 10).push(digit_char(n % 10))
    }
}

/// Renders `n` in decimal.
pub fn decimal_text(n: u64) -> (r: String)
    ensures
        r@ == decimal(n as nat),
    decreases n,
{
    proof {
        reveal_strlit("0123456789");
    }
    let d: usize = (n % 10) as usize;
    let digit = "0123456789".substring_char(d, d + 1);
    assert(digit@ == seq![digit_char(d as nat)]);
    if n < 10 {
        digit.to_owned()
    } else {
        let mut head = decimal_text(n / 10);
        head.append(digit);
        head
    }
}

} // verus!

verus! {

/// Views of a sequence of owned strings.
pub open spec fn texts_view(s: Seq<String>) -> Seq<Seq<char>> {
    s.map_values(|t: String| t@)
}

/// Appending a string appends its view.
pub proof fn lemma_texts_view_push(s: Seq<String>, t: String)
    ensures
        texts_view(s.push(t)) == texts_view(s).push(t@),
{
    assert(texts_view(s.push(t)) =~= texts_view(s).push(t@));
}

} // verus!

verus! {

/// The parts joined with `sep` between consecutive parts.
pub open spec fn joined(parts: Seq<Seq<char>>, sep: Seq<char>) -> Seq<char>
    decreases parts.len(),
{
    if parts.len() == 0 {
        Seq::empty()
    } else if parts.len() == 1 {
        parts[0]
    } else {
        joined(parts.drop_last(), sep) + sep + parts.last()
    }
}

/// Joins the parts with `sep` between consecutive parts.
pub fn join_texts(parts: &Vec<String>, sep: &str) -> (r: String)
    ensures
        r@ == joined(texts_view(parts@), sep@),
{
    let mut out = String::new();
    let mut i: usize = 0;
    while i < parts.len()
        invariant
            i <= parts@.len(),
            out@ == joined(texts_view(parts@.subrange(0, i as int)), sep@),
        decreases parts@.len() - i,
    {
        if i > 0 {
            out.append(sep);
        }
        out.append(parts[i].as_str());
        proof {
            let before = texts_view(parts@.subrange(0, i as int));
            let after = texts_view(parts@.subrange(0, i + 1));
            assert(after.drop_last() == before);
            assert(after.last() == parts@[i as int]@);
            if i == 0 {
                assert(after.len() == 1);
            }
        }
        i = i + 1;
    }
    assert(parts@.subrange(0, i as int) == parts@);
    out
}

} // verus!
