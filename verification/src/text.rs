//! String primitives of the standard library that the token grammar is built on.

use vstd::prelude::*;

verus! {

/// Whether two string slices hold the same characters: `str`'s `==`.
///
/// Trusted: `==` on `str` is true exactly when both hold the same text.
#[verifier::external_body]
pub(crate) fn str_eq(a: &str, b: &str) -> (same: bool)
    ensures
        same == (a@ == b@),
{
    a == b
}

/// Whether `s` begins with `prefix`: `str::starts_with`.
///
/// Trusted: with a string slice as the pattern, `starts_with` is true exactly
/// when the pattern is a prefix of `s`.
#[verifier::external_body]
pub(crate) fn starts_with(s: &str, prefix: &str) -> (found: bool)
    ensures
        found == prefix@.is_prefix_of(s@),
{
    s.starts_with(prefix)
}

/// What follows `prefix` in `s`: `str::strip_prefix`.
///
/// Trusted: `strip_prefix` gives `Some` exactly when `s` begins with `prefix`,
/// and then the rest of `s` after the prefix.
#[verifier::external_body]
pub(crate) fn strip_prefix<'a>(s: &'a str, prefix: &str) -> (rest: Option<&'a str>)
    ensures
        rest is Some <==> prefix@.is_prefix_of(s@),
        rest matches Some(tail) ==> tail@ == s@.skip(prefix@.len() as int),
{
    s.strip_prefix(prefix)
}

} // verus!
