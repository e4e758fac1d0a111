//! Telling from a pasted text which judge a problem belongs to, and under which id.
//!
//! A text may be an address of a problem page, a source and an id with a colon
//! between them, or a bare id. Addresses are tried first, then the form with a colon,
//! then the shapes of the ids of each judge; what fits nothing is taken for a LeetCode slug.

use vstd::prelude::*;
use vstd::string::*;
use crate::pattern::{captures, group, group_text, group_views, is_match, regex_captures};
use crate::text::{
    all_digits,
    find_char,
    from_chars_range,
    index_of,
    is_digit,
    join,
    lowercased,
    str_eq,
    to_chars,
    trimmed,
    uppercased,
};

verus! {

pub const ATCODER_URL: &'static str = "(?i)atcoder\\.jp/contests/([^/]+)/tasks/([^/?#]+)";

pub const LEETCODE_URL: &'static str =
    "(?i)leetcode\\.(?:com|cn)/(?:contest/[^/]+/)?problems/([^/?#]+)";

pub const CODEFORCES_URL: &'static str =
    "(?i)\\b(?:https?://)?(?:www\\.)?codeforces\\.com/(?:contest/(\\d+)/problem/([A-Z0-9]+)|problemset/problem/(\\d+)/([A-Z0-9]+))";

pub const LUOGU_URL: &'static str = "(?i)luogu\\.com\\.cn/problem/([A-Z0-9_]+)";

pub const ATCODER_ID: &'static str = "(?i)^(abc|arc|agc|ahc)\\d+_[a-z]\\d*$";

pub const CODEFORCES_ID: &'static str = "(?i)^(?:CF)?\\d+[A-Z]\\d*$";

pub const LUOGU_ID: &'static str =
    "(?i)^([PBTU]\\d+|CF\\d+[A-Z]|AT_(?:abc|arc|agc|ahc)\\d+_[a-z]\\d*|UVA\\d+)$";

pub const SPOJ_ID: &'static str = "(?i)^SP\\d+$";

/// Whether the text begins with the two given characters.
pub open spec fn begins_with2(s: Seq<char>, a: char, b: char) -> bool {
    s.len() >= 2 && s[0] == a && s[1] == b
}

/// Whether the text begins with `AT_`.
pub open spec fn begins_with_at_underscore(s: Seq<char>) -> bool {
    s.len() >= 3 && s[0] == 'A' && s[1] == 'T' && s[2] == '_'
}

/// Whether `://` stands somewhere in the text.
pub open spec fn has_scheme_mark(s: Seq<char>) -> bool {
    exists|i: int|
        0 <= i && i + 2 < s.len() && #[trigger] s[i] == ':' && s[i + 1] == '/' && s[i + 2] == '/'
}

/// How often a character stands in a text.
pub open spec fn count_char(s: Seq<char>, c: char) -> nat
    decreases s.len(),
{
    if s.len() == 0 {
        0
    } else {
        count_char(s.drop_last(), c) + if s.last() == c {
            1nat
        } else {
            0nat
        }
    }
}

/// The judge that a source name stands for, in the form with a colon.
pub open spec fn prefixed_source(name: Seq<char>) -> Option<Seq<char>> {
    if name == "atcoder"@ || name == "leetcode"@ || name == "codeforces"@ || name == "luogu"@
        || name == "uva"@ || name == "spoj"@ {
        Some(name)
    } else {
        None
    }
}

/// The text of the first of two groups that took part in the match, empty if neither did.
pub open spec fn either_group(groups: Seq<Option<Seq<char>>>, a: int, b: int) -> Seq<char> {
    if 0 <= a < groups.len() && groups[a] is Some {
        groups[a]->0
    } else {
        group_text(groups, b)
    }
}

/// Where a problem of Luogu belongs, by its id in capitals: Luogu mirrors problems
/// of Codeforces, AtCoder and SPOJ under ids of its own. `spoj_shaped` says whether
/// the id has the shape of an id of SPOJ.
pub open spec fn luogu_target(id: Seq<char>, spoj_shaped: bool) -> (Seq<char>, Seq<char>) {
    if begins_with2(id, 'C', 'F') {
        ("codeforces"@, id.skip(2))
    } else if begins_with_at_underscore(id) {
        ("atcoder"@, lowercased(id.skip(3)))
    } else if begins_with2(id, 'A', 'T') {
        ("atcoder"@, lowercased(id))
    } else if begins_with2(id, 'S', 'P') && spoj_shaped {
        ("spoj"@, id)
    } else {
        ("luogu"@, id)
    }
}

/// Where a bare id belongs, by its shape.
pub open spec fn bare_id_target(pid: Seq<char>) -> (Seq<char>, Seq<char>) {
    if all_digits(pid) {
        ("leetcode"@, pid)
    } else if regex_captures(ATCODER_ID@, pid) is Some {
        ("atcoder"@, lowercased(pid))
    } else if begins_with2(uppercased(pid), 'C', 'F') && regex_captures(CODEFORCES_ID@, pid)
        is Some {
        ("codeforces"@, uppercased(if pid.len() >= 2 {
            pid.skip(2)
        } else {
            Seq::empty()
        }))
    } else if regex_captures(CODEFORCES_ID@, pid) is Some {
        ("codeforces"@, uppercased(pid))
    } else if regex_captures(SPOJ_ID@, pid) is Some {
        ("spoj"@, uppercased(pid))
    } else if regex_captures(LUOGU_ID@, pid) is Some {
        ("luogu"@, uppercased(pid))
    } else {
        ("leetcode"@, pid)
    }
}

/// Where a text that is no address of a known judge belongs.
pub open spec fn plain_target(pid: Seq<char>) -> (Seq<char>, Seq<char>) {
    if has_scheme_mark(pid) {
        ("unknown"@, pid)
    } else if count_char(pid, ':') == 1 && prefixed_source(
        lowercased(pid.take(index_of(pid, ':'))),
    ) is Some {
        (lowercased(pid.take(index_of(pid, ':'))), pid.skip(index_of(pid, ':') + 1))
    } else {
        bare_id_target(pid)
    }
}

/// The judge and the id that a text stands for.
pub open spec fn detected(input: Seq<char>) -> (Seq<char>, Seq<char>) {
    let pid = trimmed(input);
    if pid.len() == 0 {
        ("unknown"@, Seq::empty())
    } else if regex_captures(ATCODER_URL@, pid) is Some {
        ("atcoder"@, lowercased(group_text(regex_captures(ATCODER_URL@, pid)->0, 2)))
    } else if regex_captures(LEETCODE_URL@, pid) is Some {
        ("leetcode"@, group_text(regex_captures(LEETCODE_URL@, pid)->0, 1))
    } else if regex_captures(CODEFORCES_URL@, pid) is Some {
        let g = regex_captures(CODEFORCES_URL@, pid)->0;
        ("codeforces"@, uppercased(either_group(g, 1, 3) + either_group(g, 2, 4)))
    } else if regex_captures(LUOGU_URL@, pid) is Some {
        let id = uppercased(group_text(regex_captures(LUOGU_URL@, pid)->0, 1));
        luogu_target(id, regex_captures(SPOJ_ID@, id) is Some)
    } else {
        plain_target(pid)
    }
}

fn pick_group(groups: &Vec<Option<String>>, a: usize, b: usize) -> (r: String)
    ensures
        r@ == either_group(group_views(groups@), a as int, b as int),
{
    if a < groups.len() {
        if let Some(s) = &groups[a] {
            return s.clone();
        }
    }
    group(groups, b)
}

/// Places a problem of Luogu by its id in capitals. `spoj_shaped` says whether the id
/// has the shape of an id of SPOJ.
pub fn place_luogu_id(id: &str, spoj_shaped: bool) -> (r: (&'static str, String))
    ensures
        r.0@ == luogu_target(id@, spoj_shaped).0,
        r.1@ == luogu_target(id@, spoj_shaped).1,
{
    let v = to_chars(id);
    if v.len() >= 2 && v[0] == 'C' && v[1] == 'F' {
        ("codeforces", from_chars_range(&v, 2, v.len()))
    } else if v.len() >= 3 && v[0] == 'A' && v[1] == 'T' && v[2] == '_' {
        let rest = from_chars_range(&v, 3, v.len());
        ("atcoder", rest.as_str().to_lowercase())
    } else if v.len() >= 2 && v[0] == 'A' && v[1] == 'T' {
        ("atcoder", id.to_lowercase())
    } else if v.len() >= 2 && v[0] == 'S' && v[1] == 'P' && spoj_shaped {
        ("spoj", id.to_owned())
    } else {
        ("luogu", id.to_owned())
    }
}

fn holds_scheme_mark(v: &Vec<char>) -> (r: bool)
    ensures
        r == has_scheme_mark(v@),
{
    if v.len() < 3 {
        return false;
    }
    let mut i: usize = 0;
    while i < v.len() - 2
        invariant
            v.len() >= 3,
            i <= v.len() - 2,
            forall|k: int|
                0 <= k < i ==> !(#[trigger] v@[k] == ':' && v@[k + 1] == '/' && v@[k + 2] == '/'),
        decreases v.len() - i,
    {
        if v[i] == ':' && v[i + 1] == '/' && v[i + 2] == '/' {
            return true;
        }
        i += 1;
    }
    false
}

fn count_colons(v: &Vec<char>) -> (r: usize)
    ensures
        r == count_char(v@, ':'),
{
    let mut n: usize = 0;
    let mut i: usize = 0;
    while i < v.len()
        invariant
            i <= v.len(),
            n <= i,
            n == count_char(v@.take(i as int), ':'),
        decreases v.len() - i,
    {
        assert(v@.take(i + 1).drop_last() =~= v@.take(i as int));
        if v[i] == ':' {
            n += 1;
        }
        i += 1;
    }
    assert(v@.take(v.len() as int) =~= v@);
    n
}

fn known_prefix(name: &str) -> (r: Option<&'static str>)
    ensures
        match r {
            Some(s) => prefixed_source(name@) == Some(s@),
            None => prefixed_source(name@) is None,
        },
{
    if str_eq(name, "atcoder") {
        Some("atcoder")
    } else if str_eq(name, "leetcode") {
        Some("leetcode")
    } else if str_eq(name, "codeforces") {
        Some("codeforces")
    } else if str_eq(name, "luogu") {
        Some("luogu")
    } else if str_eq(name, "uva") {
        Some("uva")
    } else if str_eq(name, "spoj") {
        Some("spoj")
    } else {
        None
    }
}

fn only_digits(v: &Vec<char>) -> (r: bool)
    ensures
        r == all_digits(v@),
{
    let mut i: usize = 0;
    while i < v.len()
        invariant
            i <= v.len(),
            forall|k: int| 0 <= k < i ==> is_digit(#[trigger] v@[k]),
        decreases v.len() - i,
    {
        if !(v[i] >= '0' && v[i] <= '9') {
            return false;
        }
        i += 1;
    }
    true
}

/// Places a bare id by its shape.
pub fn place_bare_id(pid: &str) -> (r: (&'static str, String))
    ensures
        r.0@ == bare_id_target(pid@).0,
        r.1@ == bare_id_target(pid@).1,
{
    let v = to_chars(pid);
    if only_digits(&v) {
        return ("leetcode", pid.to_owned());
    }
    if is_match(ATCODER_ID, pid) {
        return ("atcoder", pid.to_lowercase());
    }
    let codeforces_shaped = is_match(CODEFORCES_ID, pid);
    if codeforces_shaped {
        let upper = to_chars(pid.to_uppercase().as_str());
        if upper.len() >= 2 && upper[0] == 'C' && upper[1] == 'F' {
            let rest = if v.len() >= 2 {
                from_chars_range(&v, 2, v.len())
            } else {
                String::new()
            };
            return ("codeforces", rest.as_str().to_uppercase());
        }
        return ("codeforces", pid.to_uppercase());
    }
    if is_match(SPOJ_ID, pid) {
        return ("spoj", pid.to_uppercase());
    }
    if is_match(LUOGU_ID, pid) {
        return ("luogu", pid.to_uppercase());
    }
    ("leetcode", pid.to_owned())
}

/// Places a text that is no address of a known judge.
pub fn place_plain(pid: &str) -> (r: (&'static str, String))
    ensures
        r.0@ == plain_target(pid@).0,
        r.1@ == plain_target(pid@).1,
{
    let v = to_chars(pid);
    if holds_scheme_mark(&v) {
        return ("unknown", pid.to_owned());
    }
    if count_colons(&v) == 1 {
        let k = find_char(&v, ':');
        let name = from_chars_range(&v, 0, k).as_str().to_lowercase();
        if let Some(source) = known_prefix(name.as_str()) {
            if k < v.len() {
                let id = from_chars_range(&v, k + 1, v.len());
                return (source, id);
            } else {
                proof {
                    lemma_colon_is_found(v@);
                }
            }
        }
    }
    place_bare_id(pid)
}

proof fn lemma_colon_is_found(s: Seq<char>)
    requires
        count_char(s, ':') >= 1,
    ensures
        index_of(s, ':') < s.len(),
    decreases s.len(),
{
    if s.len() == 0 {
    } else if s[0] == ':' {
    } else {
        lemma_count_skips_other(s);
        lemma_colon_is_found(s.skip(1));
    }
}

proof fn lemma_count_skips_other(s: Seq<char>)
    requires
        s.len() > 0,
        s[0] != ':',
    ensures
        count_char(s.skip(1), ':') == count_char(s, ':'),
    decreases s.len(),
{
    if s.len() == 1 {
        assert(s.skip(1) =~= Seq::<char>::empty());
        assert(s.drop_last() =~= Seq::<char>::empty());
    } else {
        lemma_count_skips_other(s.drop_last());
        assert(s.skip(1).drop_last() =~= s.drop_last().skip(1));
    }
}

/// Tells which judge a text stands for and under which id.
pub fn detect_source(input: &str) -> (r: (&'static str, String))
    ensures
        r.0@ == detected(input@).0,
        r.1@ == detected(input@).1,
{
    let pid = input.trim();
    if pid.is_empty() {
        return ("unknown", String::new());
    }
    if let Some(g) = captures(ATCODER_URL, pid) {
        return ("atcoder", group(&g, 2).as_str().to_lowercase());
    }
    if let Some(g) = captures(LEETCODE_URL, pid) {
        return ("leetcode", group(&g, 1));
    }
    if let Some(g) = captures(CODEFORCES_URL, pid) {
        let contest = pick_group(&g, 1, 3);
        let index = pick_group(&g, 2, 4);
        let id = join(contest.as_str(), index.as_str());
        return ("codeforces", id.as_str().to_uppercase());
    }
    if let Some(g) = captures(LUOGU_URL, pid) {
        let id = group(&g, 1).as_str().to_uppercase();
        let spoj_shaped = is_match(SPOJ_ID, id.as_str());
        return place_luogu_id(id.as_str(), spoj_shaped);
    }
    place_plain(pid)
}

} // verus!
