//! Regular expressions, matched by the `regex` crate.
use vstd::prelude::*;

verus! {

/// What `regex::Regex::is_match` answers for the expression `pattern` on
/// `text`: `None` where `regex::Regex::new` refuses the expression.
pub uninterp spec fn regex_match(pattern: Seq<char>, text: Seq<char>) -> Option<bool>;

/// Compiles `pattern` with `regex::Regex::new` and asks `Regex::is_match`
/// whether the expression matches somewhere in `text`. Nothing is proved of the
/// answer: it is given the name [`regex_match`].
#[verifier::external_body]
pub(crate) fn regex_is_match(pattern: &str, text: &str) -> (r: Option<bool>)
    ensures
        r == regex_match(pattern@, text@),
{
    match regex::Regex::new(pattern) {
        Ok(expression) => Some(expression.is_match(text)),
        Err(_) => None,
    }
}

} // verus!

verus! {

/// The characters of each group of a match, in order; `None` for a group that
/// took no part in the match.
pub open spec fn group_texts(groups: Seq<Option<String>>) -> Seq<Option<Seq<char>>> {
    Seq::new(
        groups.len(),
        |i: int|
            match groups[i] {
                Some(s) => Some(s@),
                None => None,
            },
    )
}

/// The groups of the leftmost match that `regex::Regex::captures` finds for the
/// expression `pattern` in `text`, the whole match first: `None` where
/// `regex::Regex::new` refuses the expression, and where nothing matches.
pub uninterp spec fn regex_groups(pattern: Seq<char>, text: Seq<char>) -> Option<
    Seq<Option<Seq<char>>>,
>;

/// Compiles `pattern` with `regex::Regex::new`, asks `Regex::captures` for the
/// leftmost match in `text`, and copies the text of each of its groups. Nothing
/// is proved of the answer: it is given the name [`regex_groups`].
#[verifier::external_body]
pub(crate) fn regex_captures(pattern: &str, text: &str) -> (r: Option<Vec<Option<String>>>)
    ensures
        match r {
            Some(groups) => regex_groups(pattern@, text@) == Some(group_texts(groups@)),
            None => regex_groups(pattern@, text@) is None,
        },
{
    match regex::Regex::new(pattern) {
        Ok(expression) => match expression.captures(text) {
            Some(found) => Some(found.iter().map(|g| g.map(|m| m.as_str().to_string())).collect()),
            None => None,
        },
        Err(_) => None,
    }
}

} // verus!
