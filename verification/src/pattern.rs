//! Matching a text against a regular expression, which the `regex-automata`
//! crate does.

use regex_automata::meta::Regex;
use vstd::prelude::*;

verus! {

/// What `regex_automata::meta::Regex::new` makes of a pattern: nothing if it
/// compiles, and otherwise the text of the error that it reports.
pub uninterp spec fn regex_build_error(pattern: Seq<char>) -> Option<Seq<char>>;

/// Whether the regular expression compiled from `pattern` matches somewhere
/// in `haystack`, as `regex_automata::meta::Regex::is_match` reports it.
pub uninterp spec fn regex_is_match(pattern: Seq<char>, haystack: Seq<char>) -> bool;

/// What a search for `pattern` in `haystack` comes to: whether it matches,
/// or the error text of a pattern that does not compile.
pub open spec fn regex_search(pattern: Seq<char>, haystack: Seq<char>) -> Result<bool, Seq<char>> {
    match regex_build_error(pattern) {
        None => Ok(regex_is_match(pattern, haystack)),
        Some(text) => Err(text),
    }
}

/// The view of a search's result.
pub open spec fn search_view(found: Result<bool, String>) -> Result<bool, Seq<char>> {
    match found {
        Ok(b) => Ok(b),
        Err(text) => Err(text@),
    }
}

/// Compiles `pattern` with `Regex::new` of `regex-automata` and asks
/// `Regex::is_match` whether it matches in `haystack`. Both depend on their
/// arguments alone; the contract gives their results the names above and
/// claims nothing else of them. A pattern that does not compile yields the
/// error's text.
#[verifier::external_body]
pub(crate) fn search(pattern: &str, haystack: &str) -> (found: Result<bool, String>)
    ensures
        match found {
            Ok(matched) => regex_build_error(pattern@) is None && matched == regex_is_match(
                pattern@,
                haystack@,
            ),
            Err(text) => regex_build_error(pattern@) == Some(text@),
        },
{
    match Regex::new(pattern) {
        Ok(regex) => Ok(regex.is_match(haystack)),
        Err(err) => Err(err.to_string()),
    }
}

} // verus!
