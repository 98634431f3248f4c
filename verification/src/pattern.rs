//! Searching text for a regular expression, done by the `regex` crate.

use vstd::prelude::*;

verus! {

/// What the first match of the regular expression `pattern` in `text`
/// captures: one entry for each group of the pattern, in the order of their
/// opening brackets, after an entry for the whole match. An entry is the text
/// that its group matched, or `None` where the group took no part in the
/// match. The result is `None` where `text` holds no match, and where
/// `pattern` is no regular expression that `regex` accepts.
pub uninterp spec fn captured(pattern: Seq<char>, text: Seq<char>) -> Option<
    Seq<Option<Seq<char>>>,
>;

/// Compiles `pattern` with `regex::Regex::new`, searches `text` with
/// `Regex::captures` and copies out the text of each group. The expression
/// is compiled anew for every search. Trusted: the result is a function of
/// the two texts alone, named [`captured`].
#[verifier::external_body]
pub(crate) fn captures(pattern: &str, text: &str) -> (found: Option<Vec<Option<String>>>)
    ensures
        found.deep_view() == captured(pattern@, text@),
{
    let expression = regex::Regex::new(pattern).ok()?;
    expression.captures(text).map(
        |groups| groups.iter().map(|group| group.map(|found| found.as_str().to_string())).collect(),
    )
}

} // verus!
