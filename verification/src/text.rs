//! Text primitives the scoring rules are phrased in.

use vstd::prelude::*;
use vstd::string::StringExecFns;

verus! {

/// `needle` stands in `hay` at character offset `at`.
pub open spec fn occurs_at(needle: Seq<char>, hay: Seq<char>, at: int) -> bool {
    &&& 0 <= at
    &&& at + needle.len() <= hay.len()
    &&& hay.subrange(at, at + needle.len()) == needle
}

/// `needle` stands somewhere in `hay` as a contiguous run of characters.
pub open spec fn occurs_in(needle: Seq<char>, hay: Seq<char>) -> bool {
    exists|at: int| occurs_at(needle, hay, at)
}

/// The Unicode lower-casing of a text, as `str::to_lowercase` computes it.
/// Nothing is stated about it beyond its being a function of the text.
pub uninterp spec fn lowercase(text: Seq<char>) -> Seq<char>;

/// `str::starts_with` with a string pattern: true exactly when `prefix` is a
/// literal, case-sensitive prefix of `text`.
#[verifier::external_body]
pub(crate) fn starts_with(text: &str, prefix: &str) -> (r: bool)
    ensures
        r == prefix@.is_prefix_of(text@),
{
    text.starts_with(prefix)
}

/// `str::contains` with a string pattern: true exactly when `needle` matches
/// a sub-slice of `text`.
#[verifier::external_body]
pub(crate) fn contains(text: &str, needle: &str) -> (r: bool)
    ensures
        r == occurs_in(needle@, text@),
{
    text.contains(needle)
}

/// `str::to_lowercase`: the result is the lower-casing of `text`, which this
/// crate only names.
#[verifier::external_body]
pub(crate) fn to_lowercase(text: &str) -> (r: String)
    ensures
        r@ == lowercase(text@),
{
    text.to_lowercase()
}

/// `lead` followed by `rest`.
pub fn joined(lead: &str, rest: &str) -> (text: String)
    ensures
        text@ == lead@ + rest@,
{
    let mut text = String::from_str(lead);
    text.append(rest);
    text
}

} // verus!
