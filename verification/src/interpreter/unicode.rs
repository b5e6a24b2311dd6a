//! Calls into the Unicode crates and std's UTF-8 decoder that text normalization rests on.
use unicode_general_category::get_general_category;
use unicode_normalization::UnicodeNormalization;
use vstd::prelude::*;
use vstd::utf8::{decode_utf8, valid_utf8};

verus! {

/// Canonical composition (Unicode Normalization Form C) of a character sequence.
pub uninterp spec fn nfc(s: Seq<char>) -> Seq<char>;

/// The text in Normalization Form C.
///
/// Trusted: calls `UnicodeNormalization::nfc` of the `unicode-normalization` crate on the
/// characters of `input` and collects them; the claim is only that the result is a function
/// of the input's characters, named [`nfc`].
#[verifier::external_body]
pub(crate) fn nfc_text(input: &str) -> (r: String)
    ensures
        r@ == nfc(input@),
{
    input.chars().nfc().collect::<String>()
}

/// The two-letter abbreviation of a character's Unicode general category,
/// such as `Lu` for an uppercase letter or `Zs` for a space separator.
pub uninterp spec fn general_category_of(c: char) -> Seq<char>;

/// The abbreviation of the general category of `c`.
///
/// Trusted: calls `get_general_category` of the `unicode-general-category` crate, a table lookup
/// on `c` alone, and converts the category it returns to its abbreviation with the crate's own
/// `GeneralCategory::abbreviation`, which gives each category a distinct two-letter name. The
/// claim is only that the result is a function of `c`, named [`general_category_of`]; which
/// categories count as whitespace is decided by the caller.
#[verifier::external_body]
pub(crate) fn general_category(c: char) -> (r: &'static str)
    ensures
        r@ == general_category_of(c),
{
    get_general_category(c).abbreviation()
}

/// The text that `bytes` encode, when they are well-formed UTF-8.
///
/// Trusted: calls `std::str::from_utf8`, which succeeds exactly on well-formed UTF-8
/// (no overlong forms, no surrogates, nothing above U+10FFFF) and then yields the encoded characters.
#[verifier::external_body]
pub(crate) fn utf8_text(bytes: &[u8]) -> (r: Option<&str>)
    ensures
        r is Some <==> valid_utf8(bytes@),
        r matches Some(text) ==> text@ == decode_utf8(bytes@),
{
    match std::str::from_utf8(bytes) {
        Ok(text) => Some(text),
        Err(_) => None,
    }
}

} // verus!
