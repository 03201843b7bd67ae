//! Regular-expression searches, made by the `regex` crate.

use regex::Regex;
use vstd::prelude::*;

verus! {

/// The texts of the successive non-overlapping matches of the regular
/// expression `pattern` in `text`, in the order in which the `regex` crate
/// finds them; `None` where the crate refuses the pattern.
pub uninterp spec fn regex_matches(pattern: Seq<char>, text: Seq<char>) -> Option<Seq<Seq<char>>>;

/// Whether the regular expression `pattern` has a match somewhere in `text`:
/// it has one exactly where the list of its matches is not empty. `None`
/// where the `regex` crate refuses the pattern.
pub open spec fn regex_has_match(pattern: Seq<char>, text: Seq<char>) -> Option<bool> {
    match regex_matches(pattern, text) {
        Some(found) => Some(found.len() > 0),
        None => None,
    }
}

/// The characters of each string of a list, in order.
pub open spec fn texts_of(strings: Seq<String>) -> Seq<Seq<char>> {
    strings.map_values(|s: String| s@)
}

/// The characters of each string of an optional list.
pub open spec fn opt_texts_of(strings: Option<Vec<String>>) -> Option<Seq<Seq<char>>> {
    match strings {
        Some(list) => Some(texts_of(list@)),
        None => None,
    }
}

/// `Regex::new`, then `Regex::is_match` on the compiled expression: whether
/// the pattern matches anywhere in the text. A pattern that does not compile
/// gives `None`. The crate finds a match anywhere exactly where its search for
/// the successive matches finds at least one, so the answer is stated over
/// the list of matches, which is known by its name only.
#[verifier::external_body]
pub(crate) fn regex_is_match(pattern: &str, text: &str) -> (r: Option<bool>)
    ensures
        r == regex_has_match(pattern@, text@),
{
    match Regex::new(pattern) {
        Ok(re) => Some(re.is_match(text)),
        Err(_) => None,
    }
}

/// `Regex::new`, then `Regex::find_iter` on the compiled expression, each
/// match handed out as the text it covers (`Match::as_str`). A pattern that
/// does not compile gives `None`. The list depends on pattern and text alone
/// and is known by its name only.
#[verifier::external_body]
pub(crate) fn regex_find_all(pattern: &str, text: &str) -> (r: Option<Vec<String>>)
    ensures
        opt_texts_of(r) == regex_matches(pattern@, text@),
{
    match Regex::new(pattern) {
        Ok(re) => Some(re.find_iter(text).map(|m| m.as_str().to_string()).collect()),
        Err(_) => None,
    }
}

} // verus!
