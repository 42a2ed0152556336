//! Regular expressions, by way of the `regex` crate.
//!
//! The functions here are the only place where the library calls the regex
//! engine. Verus takes their contracts on trust.

use vstd::prelude::*;

verus! {

/// Holds of the characters that have a meaning of their own in a pattern.
pub open spec fn is_meta_character(c: char) -> bool {
    c == '\\' || c == '.' || c == '+' || c == '*' || c == '?' || c == '(' || c == ')' || c == '|'
        || c == '[' || c == ']' || c == '{' || c == '}' || c == '^' || c == '$' || c == '#' || c
        == '&' || c == '-' || c == '~'
}

/// `text` with a backslash put before each meta character.
pub open spec fn escaped(text: Seq<char>) -> Seq<char>
    decreases text.len(),
{
    if text.len() == 0 {
        Seq::empty()
    } else if is_meta_character(text.last()) {
        escaped(text.drop_last()).push('\\').push(text.last())
    } else {
        escaped(text.drop_last()).push(text.last())
    }
}

/// What the first match of the pattern in the haystack captures. The outer
/// `None` stands for a pattern that cannot be compiled, the inner one for a
/// haystack without a match. Of a match, the sequence holds one entry for
/// each group of the pattern, the whole match first; a group that took no
/// part in the match has no text.
pub uninterp spec fn regex_captures(pattern: Seq<char>, haystack: Seq<char>) -> Option<
    Option<Seq<Option<Seq<char>>>>,
>;

/// What all matches of the pattern in the haystack capture, from left to
/// right and without overlap. `None` stands for a pattern that cannot be
/// compiled. Each match is given as by `regex_captures`.
pub uninterp spec fn regex_captures_all(pattern: Seq<char>, haystack: Seq<char>) -> Option<
    Seq<Seq<Option<Seq<char>>>>,
>;

/// The characters of each group that has a text.
pub open spec fn group_texts(groups: Seq<Option<String>>) -> Seq<Option<Seq<char>>> {
    Seq::new(
        groups.len(),
        |i: int|
            match groups[i] {
                Some(text) => Some(text@),
                None => None,
            },
    )
}

/// The groups of each match.
pub open spec fn match_texts(matches: Seq<Vec<Option<String>>>) -> Seq<Seq<Option<Seq<char>>>> {
    Seq::new(matches.len(), |i: int| group_texts(matches[i]@))
}

/// Calls `regex::escape`: the result is `text` with a backslash before each
/// of the characters that the regex syntax lists as meta characters.
#[verifier::external_body]
pub(crate) fn escape(text: &str) -> (quoted: String)
    ensures
        quoted@ == escaped(text@),
{
    regex::escape(text)
}

/// Calls `regex::Regex::new` on `pattern` and `regex::Regex::captures` on
/// `haystack`. The contract only gives the result its name: it is the same
/// for the same pattern and haystack.
#[verifier::external_body]
pub(crate) fn captures(pattern: &str, haystack: &str) -> (found: Option<
    Option<Vec<Option<String>>>,
>)
    ensures
        match found {
            None => regex_captures(pattern@, haystack@).is_none(),
            Some(None) => regex_captures(pattern@, haystack@) == Some(
                None::<Seq<Option<Seq<char>>>>,
            ),
            Some(Some(groups)) => regex_captures(pattern@, haystack@) == Some(
                Some(group_texts(groups@)),
            ),
        },
{
    match regex::Regex::new(pattern) {
        Ok(re) => Some(
            re.captures(haystack).map(
                |c| c.iter().map(|g| g.map(|m| m.as_str().to_string())).collect(),
            ),
        ),
        Err(_) => None,
    }
}

/// Calls `regex::Regex::new` on `pattern` and `regex::Regex::captures_iter`
/// on `haystack`. The contract only gives the result its name: it is the
/// same for the same pattern and haystack.
#[verifier::external_body]
pub(crate) fn captures_all(pattern: &str, haystack: &str) -> (found: Option<
    Vec<Vec<Option<String>>>,
>)
    ensures
        match found {
            None => regex_captures_all(pattern@, haystack@).is_none(),
            Some(matches) => regex_captures_all(pattern@, haystack@) == Some(
                match_texts(matches@),
            ),
        },
{
    match regex::Regex::new(pattern) {
        Ok(re) => Some(
            re.captures_iter(haystack).map(
                |c| c.iter().map(|g| g.map(|m| m.as_str().to_string())).collect(),
            ).collect(),
        ),
        Err(_) => None,
    }
}

} // verus!
