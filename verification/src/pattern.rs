//! Regular expressions, as the `regex` crate matches them. Nothing in this
//! file is proved: it states what is taken on trust of that crate.

use vstd::prelude::*;

verus! {

/// The error with which `regex` turns down a pattern.
#[verifier::external_type_specification]
#[verifier::external_body]
pub struct ExRegexError(regex::Error);

/// Whether `regex::Regex::new` accepts `pattern`: it is well formed and the
/// program compiled from it stays within the default size limit.
pub uninterp spec fn pattern_compiles(pattern: Seq<char>) -> bool;

/// What capture group `group` of `pattern` holds in the first match of
/// `pattern` in `haystack`: the text that `regex::Match::as_str` gives for
/// the group that `regex::Captures::get` picks from what
/// `regex::Regex::captures` finds. It is `None` where there is no match, no
/// such group, or the group took no part in the match. Group 0 is the whole
/// match.
pub uninterp spec fn first_capture(pattern: Seq<char>, haystack: Seq<char>, group: int) -> Option<
    Seq<char>,
>;

/// Compiles `pattern` with `regex::Regex::new`, searches `haystack` with
/// `regex::Regex::captures`, and reads the group with `regex::Captures::get`
/// and `regex::Match::as_str`. An error comes back exactly when the pattern
/// does not compile; otherwise the result is the text of the group in the
/// first match, which depends on the pattern, the haystack and the number of
/// the group alone.
#[verifier::external_body]
pub(crate) fn capture(pattern: &str, haystack: &str, group: usize) -> (r: Result<
    Option<String>,
    regex::Error,
>)
    ensures
        r is Ok <==> pattern_compiles(pattern@),
        r matches Ok(found) ==> found.deep_view() == first_capture(
            pattern@,
            haystack@,
            group as int,
        ),
{
    let re = regex::Regex::new(pattern)?;
    match re.captures(haystack) {
        Some(groups) => Ok(groups.get(group).map(|m| m.as_str().to_string())),
        None => Ok(None),
    }
}

} // verus!
