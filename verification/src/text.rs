//! Text operations that the name heuristics rest on.

use vstd::prelude::*;

verus! {

/// The lower-cased form of a text, as the standard library computes it
/// (Unicode lower-casing, which may change the number of characters).
pub uninterp spec fn lowercase_of(s: Seq<char>) -> Seq<char>;

/// The upper-cased form of a text, as the standard library computes it.
pub uninterp spec fn uppercase_of(s: Seq<char>) -> Seq<char>;

/// A text without its leading and trailing white space, as the standard
/// library trims it.
pub uninterp spec fn trimmed_of(s: Seq<char>) -> Seq<char>;

/// `needle` stands in `hay` at position `at`.
pub open spec fn occurs_at(hay: Seq<char>, needle: Seq<char>, at: int) -> bool {
    0 <= at && at + needle.len() <= hay.len() && hay.subrange(at, at + needle.len()) == needle
}

/// `needle` stands somewhere in `hay` as a contiguous run of characters.
pub open spec fn has_substring(hay: Seq<char>, needle: Seq<char>) -> bool {
    exists|at: int| occurs_at(hay, needle, at)
}

/// Calls `str::to_lowercase`. Trusted: the result is the lower-cased form
/// of the argument, which depends on the argument alone.
#[verifier::external_body]
pub(crate) fn lowercase(s: &str) -> (lower: String)
    ensures
        lower@ == lowercase_of(s@),
{
    s.to_lowercase()
}

/// Calls `str::to_uppercase`. Trusted: the result is the upper-cased form
/// of the argument, which depends on the argument alone.
#[verifier::external_body]
pub(crate) fn uppercase(s: &str) -> (upper: String)
    ensures
        upper@ == uppercase_of(s@),
{
    s.to_uppercase()
}

/// Calls `str::trim`. Trusted: the result is the argument without its
/// leading and trailing white space, which depends on the argument alone.
#[verifier::external_body]
pub(crate) fn trimmed(s: &str) -> (inner: &str)
    ensures
        inner@ == trimmed_of(s@),
{
    s.trim()
}

/// Calls `str::contains` with a string pattern. Trusted: the result tells
/// whether the pattern matches a contiguous part of the text.
#[verifier::external_body]
pub(crate) fn contains(hay: &str, needle: &str) -> (found: bool)
    ensures
        found == has_substring(hay@, needle@),
{
    hay.contains(needle)
}

/// Calls `str::eq`. Trusted: two texts are equal exactly when they hold
/// the same characters in the same order.
#[verifier::external_body]
pub(crate) fn same_text(a: &str, b: &str) -> (same: bool)
    ensures
        same == (a@ == b@),
{
    a == b
}

} // verus!
