//! String operations of the standard library that the crate relies on, each
//! with the contract the rest of the crate is proved against.

use vstd::prelude::*;
use vstd::utf8::{decode_utf8, valid_utf8};

verus! {

/// The lowercase form of a text as `str::to_lowercase` computes it, following
/// the Unicode tables that the standard library carries.
pub uninterp spec fn lowercase(text: Seq<char>) -> Seq<char>;

/// `text` without every trailing repetition of `suffix`.
pub open spec fn without_trailing(text: Seq<char>, suffix: Seq<char>) -> Seq<char>
    decreases text.len(),
{
    if 0 < suffix.len() <= text.len() && text.subrange(text.len() - suffix.len(), text.len() as int)
        == suffix {
        without_trailing(text.subrange(0, text.len() - suffix.len()), suffix)
    } else {
        text
    }
}

/// `str`'s `==`. Trusted: two string slices compare equal exactly when they
/// hold the same sequence of characters.
#[verifier::external_body]
pub(crate) fn str_eq(a: &str, b: &str) -> (same: bool)
    ensures
        same == (a@ == b@),
{
    a == b
}

/// `str::to_lowercase`. Trusted: the result depends on the characters of
/// `text` alone; which characters it holds is left to the standard library.
#[verifier::external_body]
pub(crate) fn to_lowercase(text: &str) -> (lowered: String)
    ensures
        lowered@ == lowercase(text@),
{
    text.to_lowercase()
}

/// `str::trim_end_matches` with a string pattern. Trusted: the result is
/// `text` with all suffixes that match `suffix` repeatedly removed, as the
/// standard library documents it.
#[verifier::external_body]
pub(crate) fn trim_end_matches<'a>(text: &'a str, suffix: &str) -> (trimmed: &'a str)
    requires
        suffix@.len() > 0,
    ensures
        trimmed@ == without_trailing(text@, suffix@),
{
    text.trim_end_matches(suffix)
}

/// `core::str::from_utf8`. Trusted: the bytes are accepted exactly when they
/// are well-formed UTF-8, and the slice returned then holds the characters
/// they encode.
#[verifier::external_body]
pub(crate) fn from_utf8(bytes: &[u8]) -> (text: Option<&str>)
    ensures
        text is Some <==> valid_utf8(bytes@),
        text matches Some(t) ==> t@ == decode_utf8(bytes@),
{
    core::str::from_utf8(bytes).ok()
}

/// The concatenation of two texts.
pub(crate) fn concat(head: &str, tail: &str) -> (joined: String)
    ensures
        joined@ == head@ + tail@,
{
    let mut joined = String::from_str(head);
    joined.append(tail);
    joined
}

} // verus!
