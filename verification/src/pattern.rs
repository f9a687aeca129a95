//! The regular-expression engine, as far as the relay uses it: to look for
//! a literal text in another.

use vstd::prelude::*;
use crate::text::occurs_in;

verus! {

/// Whether `pattern`, read as a regular expression with the engine's
/// default settings, matches somewhere in `haystack`.
pub uninterp spec fn regex_is_match(pattern: Seq<char>, haystack: Seq<char>) -> bool;

/// Calls `regex::escape`. Not proved: that the pattern it returns matches
/// exactly the text that was escaped, which is to say that it matches
/// somewhere in a haystack if and only if that text stands in the haystack,
/// character for character. The crate documents the returned string as safe
/// to use as a literal in a regular expression.
#[verifier::external_body]
pub(crate) fn escape(text: &str) -> (pattern: String)
    ensures
        forall|haystack: Seq<char>| #[trigger]
            regex_is_match(pattern@, haystack) == occurs_in(haystack, text@),
{
    regex::escape(text)
}

/// Calls `regex::Regex::new` on `pattern` and `Regex::is_match` on the
/// compiled expression. Not proved: that the answer, where there is one, is
/// whether the pattern matches somewhere in the haystack. There is no answer
/// where the engine rejects the pattern, which it also does for a valid
/// pattern whose compiled form would exceed its size limit.
#[verifier::external_body]
pub(crate) fn search(pattern: &str, haystack: &str) -> (found: Option<bool>)
    ensures
        found matches Some(hit) ==> hit == regex_is_match(pattern@, haystack@),
{
    match regex::Regex::new(pattern) {
        Ok(compiled) => Some(compiled.is_match(haystack)),
        Err(_) => None,
    }
}

} // verus!
