//! Reading what the catalog stores: lists kept as JSON text, ids kept as numbers,
//! and the counts of the embedding work that is left.

use vstd::prelude::*;
use vstd::string::*;
use crate::problem::{bad_request_problem, ProblemDetail};
use crate::text::{all_digits, decimal, decimal_string, is_digit, join, str_eq, texts, to_chars, trimmed};

verus! {

/// What `serde_json::from_str` reads from a text as a list of strings, or nothing
/// where the text is no JSON list of strings.
pub uninterp spec fn json_string_list(text: Seq<char>) -> Option<Seq<Seq<char>>>;

/// Reads a JSON list of strings with `serde_json::from_str`.
#[verifier::external_body]
fn read_json_strings(text: &str) -> (r: Option<Vec<String>>)
    ensures
        match r {
            Some(list) => json_string_list(text@) == Some(texts(list@)),
            None => json_string_list(text@) is None,
        },
{
    serde_json::from_str::<Vec<String>>(text).ok()
}

/// The list that a stored column stands for: the JSON list in it, and the empty
/// list for a column that is absent, empty or malformed.
pub open spec fn stored_list(raw: Option<Seq<char>>) -> Seq<Seq<char>> {
    match raw {
        Some(s) => if s.len() > 0 && json_string_list(s) is Some {
            json_string_list(s)->0
        } else {
            Seq::empty()
        },
        None => Seq::empty(),
    }
}

/// Reads a list of strings from a stored column.
pub fn parse_json_array(raw: Option<String>) -> (r: Vec<String>)
    ensures
        texts(r@) == stored_list(crate::text::opt_text(raw)),
{
    match raw {
        Some(s) => {
            if s.as_str().is_empty() {
                let empty: Vec<String> = Vec::new();
                empty
            } else {
                match read_json_strings(s.as_str()) {
                    Some(list) => list,
                    None => {
                        let empty: Vec<String> = Vec::new();
                        empty
                    },
                }
            }
        },
        None => {
            let empty: Vec<String> = Vec::new();
            empty
        },
    }
}

/// The rewritten statement of a problem as it is handed out: trimmed, and nothing
/// where nothing is left.
pub fn rewritten_content(stored: &str) -> (r: Option<String>)
    ensures
        crate::text::opt_text(r) == if trimmed(stored@).len() == 0 {
            None
        } else {
            Some(trimmed(stored@))
        },
{
    let kept = stored.trim();
    if kept.is_empty() {
        None
    } else {
        Some(kept.to_owned())
    }
}

/// How far the embedding of a source has come.
#[derive(Debug)]
pub struct EmbeddingStats {
    pub source: String,
    pub total: u32,
    pub with_content: u32,
    pub embedded: u32,
    pub pending: u32,
}

impl EmbeddingStats {
    /// The counts of a source. What is pending are the problems with a statement
    /// that are not embedded yet, and never less than none.
    pub fn new(source: String, total: u32, with_content: u32, embedded: u32) -> (r: EmbeddingStats)
        ensures
            r.source == source,
            r.total == total,
            r.with_content == with_content,
            r.embedded == embedded,
            r.pending == if with_content >= embedded {
                with_content - embedded
            } else {
                0
            },
    {
        let pending = if with_content >= embedded {
            with_content - embedded
        } else {
            0
        };
        EmbeddingStats { source, total, with_content, embedded, pending }
    }
}

/// The counts of a source for the status page.
#[derive(Debug)]
pub struct PlatformStats {
    pub source: String,
    pub total: u32,
    pub missing_content: u32,
    pub not_embedded: u32,
}

/// An API token as it is stored.
#[derive(Debug)]
pub struct ApiToken {
    pub token: String,
    pub label: Option<String>,
    pub created_at: i64,
    pub last_used_at: Option<i64>,
    pub is_active: i32,
}

impl ApiToken {
    /// A token that was created now: active, and never used.
    pub fn issued(token: String, label: Option<String>, now: i64) -> (r: ApiToken)
        ensures
            r.token == token,
            r.label == label,
            r.created_at == now,
            r.last_used_at is None,
            r.is_active == 1,
    {
        ApiToken { token, label, created_at: now, last_used_at: None, is_active: 1 }
    }
}

/// The id of a daily challenge as the catalog holds it.
#[derive(Debug)]
pub enum StoredId {
    Integer(i64),
    Text(String),
    Other,
}

/// The numeral of an integer: a minus sign for a negative one, then the digits.
pub open spec fn signed_decimal(n: int) -> Seq<char> {
    if n < 0 {
        "-"@ + decimal((-n) as nat)
    } else {
        decimal(n as nat)
    }
}

/// The id of a daily challenge as text: a number by its numeral, a text as it is,
/// anything else as the empty text.
pub fn stored_id_text(id: StoredId) -> (r: String)
    ensures
        r@ == match id {
            StoredId::Integer(n) => signed_decimal(n as int),
            StoredId::Text(s) => s@,
            StoredId::Other => Seq::<char>::empty(),
        },
{
    match id {
        StoredId::Integer(n) => {
            if n < 0 {
                let magnitude: u64 = if n == i64::MIN {
                    0x8000_0000_0000_0000
                } else {
                    (-n) as u64
                };
                join("-", decimal_string(magnitude).as_str())
            } else {
                decimal_string(n as u64)
            }
        },
        StoredId::Text(s) => s,
        StoredId::Other => String::new(),
    }
}

/// Whether a resolved id has to be looked up as a slug: only ids of LeetCode that
/// are not plain numbers are slugs.
pub fn needs_slug_lookup(source: &str, id: &str) -> (r: bool)
    ensures
        r == (source@ == "leetcode"@ && !all_digits(id@)),
{
    if !str_eq(source, "leetcode") {
        return false;
    }
    let v = to_chars(id);
    let mut i: usize = 0;
    while i < v.len()
        invariant
            v@ == id@,
            source@ == "leetcode"@,
            i <= v.len(),
            forall|k: int| 0 <= k < i ==> is_digit(#[trigger] v@[k]),
        decreases v.len() - i,
    {
        if !(v[i] >= '0' && v[i] <= '9') {
            return true;
        }
        i += 1;
    }
    false
}

/// The sources whose problems the catalog lists.
pub open spec fn is_catalog_source(s: Seq<char>) -> bool {
    s == "atcoder"@ || s == "leetcode"@ || s == "codeforces"@ || s == "luogu"@
}

/// Checks the source of a request for problems or tags.
pub fn check_catalog_source(source: &str) -> (r: Result<(), ProblemDetail>)
    ensures
        match r {
            Ok(()) => is_catalog_source(source@),
            Err(e) => !is_catalog_source(source@) && e@ == bad_request_problem(
                "invalid source: "@ + source@,
            ),
        },
{
    if str_eq(source, "atcoder") || str_eq(source, "leetcode") || str_eq(source, "codeforces")
        || str_eq(source, "luogu") {
        Ok(())
    } else {
        Err(ProblemDetail::bad_request(join("invalid source: ", source).as_str()))
    }
}

/// A character as it stands in HTML: the five characters that HTML reads as markup
/// are written as references.
pub open spec fn html_escaped_char(c: char) -> Seq<char> {
    if c == '&' {
        "&amp;"@
    } else if c == '<' {
        "&lt;"@
    } else if c == '>' {
        "&gt;"@
    } else if c == '"' {
        "&quot;"@
    } else if c == '\'' {
        "&#x27;"@
    } else {
        seq![c]
    }
}

/// A text as it stands in HTML.
pub open spec fn html_escaped(s: Seq<char>) -> Seq<char>
    decreases s.len(),
{
    if s.len() == 0 {
        Seq::empty()
    } else {
        html_escaped(s.drop_last()) + html_escaped_char(s.last())
    }
}

/// Writes a text so that HTML shows it as it is.
pub fn escape_html(s: &str) -> (r: String)
    ensures
        r@ == html_escaped(s@),
{
    let mut out = String::new();
    for c in it: s.chars()
        invariant
            it.seq() == s@,
            out@ == html_escaped(s@.take(it.index() as int)),
    {
        let ghost before = s@.take(it.index() as int);
        let ghost after = s@.take(it.index() + 1);
        assert(after.drop_last() =~= before);
        if c == '&' {
            out.append("&amp;");
        } else if c == '<' {
            out.append("&lt;");
        } else if c == '>' {
            out.append("&gt;");
        } else if c == '"' {
            out.append("&quot;");
        } else if c == '\'' {
            out.append("&#x27;");
        } else {
            out.push(c);
        }
    }
    assert(s@.take(s@.len() as int) =~= s@);
    out
}

} // verus!
