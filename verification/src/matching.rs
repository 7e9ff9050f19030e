//! Regular-expression search, the one place where the pattern engine is called.

use regex::Regex;
use vstd::prelude::*;

verus! {

/// What a search for `pattern` in `text` captures: `None` where the pattern
/// matches nowhere in the text (or is no regular expression at all), else the
/// capture groups of the leftmost match, the whole match first; a group that
/// took no part in the match is `None`.
pub uninterp spec fn regex_captures(pattern: Seq<char>, text: Seq<char>) -> Option<
    Seq<Option<Seq<char>>>,
>;

/// The texts of a list of capture groups.
pub open spec fn groups_view(groups: Seq<Option<String>>) -> Seq<Option<Seq<char>>> {
    Seq::new(groups.len(), |i: int| crate::model::text_of(groups[i]))
}

/// The text of group `index`, where that group exists, took part in the match
/// and is not empty.
pub open spec fn group_text(groups: Seq<Option<Seq<char>>>, index: int) -> Option<Seq<char>> {
    if 0 <= index < groups.len() && groups[index] is Some && groups[index].unwrap().len() > 0 {
        groups[index]
    } else {
        None
    }
}

/// Calls `regex::Regex::new` on `pattern` and `Regex::captures` on `text`.
/// Nothing is proved of the search itself: the contract only gives its
/// outcome the name `regex_captures`, and trusts that the groups come back in
/// their order, each with the text it matched, and that the same pattern and
/// text always give the same outcome.
#[verifier::external_body]
pub(crate) fn find_groups(pattern: &str, text: &str) -> (r: Option<Vec<Option<String>>>)
    ensures
        r.is_some() == regex_captures(pattern@, text@).is_some(),
        r.is_some() ==> groups_view(r.unwrap()@) == regex_captures(pattern@, text@).unwrap(),
{
    let compiled = match Regex::new(pattern) {
        Ok(compiled) => compiled,
        Err(_) => return None,
    };
    compiled.captures(text).map(|c| c.iter().map(|m| m.map(|m| m.as_str().to_owned())).collect())
}

/// The text of group `index` as an owned string, where `group_text` has one.
pub fn group(groups: &Vec<Option<String>>, index: usize) -> (r: Option<String>)
    ensures
        crate::model::text_of(r) == group_text(groups_view(groups@), index as int),
{
    if index < groups.len() {
        match &groups[index] {
            Some(s) => {
                if s.as_str().is_empty() {
                    None
                } else {
                    Some(s.clone())
                }
            },
            None => None,
        }
    } else {
        None
    }
}

} // verus!
