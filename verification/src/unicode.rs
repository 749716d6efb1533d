//! The character classes and case mappings of the Unicode tables that the
//! standard library carries. Nothing here is proved: each function hands the
//! question to the standard library and names the answer.

use vstd::prelude::*;

verus! {

/// Whether `char::is_alphanumeric` holds of a character.
pub uninterp spec fn is_alphanumeric(c: char) -> bool;

/// What `str::to_lowercase` returns for a text.
pub uninterp spec fn lowercase(s: Seq<char>) -> Seq<char>;

/// What `str::to_uppercase` returns for a text.
pub uninterp spec fn uppercase(s: Seq<char>) -> Seq<char>;

/// Calls `char::is_alphanumeric`. The contract only names the answer: which
/// characters count as letters or digits is left to the Unicode tables.
#[verifier::external_body]
pub(crate) fn char_is_alphanumeric(c: char) -> (b: bool)
    ensures
        b == is_alphanumeric(c),
{
    c.is_alphanumeric()
}

/// Calls `str::to_lowercase`. The contract only names the result, which
/// depends on nothing but the characters of `s`.
#[verifier::external_body]
pub(crate) fn to_lowercase(s: &str) -> (lower: String)
    ensures
        lower@ == lowercase(s@),
{
    s.to_lowercase()
}

/// Calls `str::to_uppercase`. The contract only names the result, which
/// depends on nothing but the characters of `s`.
#[verifier::external_body]
pub(crate) fn to_uppercase(s: &str) -> (upper: String)
    ensures
        upper@ == uppercase(s@),
{
    s.to_uppercase()
}

} // verus!
