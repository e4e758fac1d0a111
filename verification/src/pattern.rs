//! Matching a text against a regular expression.

use vstd::prelude::*;
use vstd::string::*;

verus! {

/// What `regex::Regex::captures` finds when the pattern is compiled with
/// `regex::Regex::new` and searched for in the text: the groups of the leftmost match,
/// group 0 being the whole match and a group that took no part being absent. Nothing
/// where the text has no match or the pattern does not compile.
pub uninterp spec fn regex_captures(pattern: Seq<char>, text: Seq<char>) -> Option<
    Seq<Option<Seq<char>>>,
>;

pub open spec fn group_views(groups: Seq<Option<String>>) -> Seq<Option<Seq<char>>> {
    Seq::new(
        groups.len(),
        |i: int|
            match groups[i] {
                Some(s) => Some(s@),
                None => None,
            },
    )
}

/// The text of a group, empty for a group that is absent or does not exist.
pub open spec fn group_text(groups: Seq<Option<Seq<char>>>, i: int) -> Seq<char> {
    if 0 <= i < groups.len() && groups[i] is Some {
        groups[i]->0
    } else {
        Seq::empty()
    }
}

/// Compiles the pattern with `regex::Regex::new` and searches the text with
/// `regex::Regex::captures`. A match always has its group 0.
#[verifier::external_body]
pub(crate) fn captures(pattern: &str, text: &str) -> (r: Option<Vec<Option<String>>>)
    ensures
        match r {
            Some(groups) => regex_captures(pattern@, text@) == Some(group_views(groups@))
                && groups@.len() >= 1 && groups@[0] is Some,
            None => regex_captures(pattern@, text@) is None,
        },
{
    let re = regex::Regex::new(pattern).ok()?;
    let caps = re.captures(text)?;
    Some(caps.iter().map(|m| m.map(|g| g.as_str().to_string())).collect())
}

/// Whether the pattern matches somewhere in the text.
pub fn is_match(pattern: &str, text: &str) -> (r: bool)
    ensures
        r == (regex_captures(pattern@, text@) is Some),
{
    captures(pattern, text).is_some()
}

/// A copy of the text of a group, empty for a group that is absent or does not exist.
pub fn group(groups: &Vec<Option<String>>, i: usize) -> (r: String)
    ensures
        r@ == group_text(group_views(groups@), i as int),
{
    if i < groups.len() {
        match &groups[i] {
            Some(s) => s.clone(),
            None => String::new(),
        }
    } else {
        String::new()
    }
}

} // verus!
