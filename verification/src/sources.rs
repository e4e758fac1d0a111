//! The helper programs that fill the catalog, and the arguments that each accepts.

use vstd::prelude::*;
use vstd::string::*;
use crate::args::{ArgSpec, ValueType};
use crate::text::{join, str_eq};

verus! {

/// A switch that takes no value.
pub open spec fn switch(flag: &'static str, ui_exposed: bool) -> ArgSpec {
    ArgSpec { flag, arity: 0, value_type: ValueType::NoValue, ui_exposed }
}

/// An option that takes one value of the given kind.
pub open spec fn option(flag: &'static str, value_type: ValueType, ui_exposed: bool) -> ArgSpec {
    ArgSpec { flag, arity: 1, value_type, ui_exposed }
}

/// The option that takes a year and a month.
pub open spec fn year_month(flag: &'static str, ui_exposed: bool) -> ArgSpec {
    ArgSpec { flag, arity: 2, value_type: ValueType::YearMonth, ui_exposed }
}

fn make_switch(flag: &'static str, ui_exposed: bool) -> (r: ArgSpec)
    ensures
        r == switch(flag, ui_exposed),
{
    ArgSpec { flag, arity: 0, value_type: ValueType::NoValue, ui_exposed }
}

fn make_option(flag: &'static str, value_type: ValueType, ui_exposed: bool) -> (r: ArgSpec)
    ensures
        r == option(flag, value_type, ui_exposed),
{
    ArgSpec { flag, arity: 1, value_type, ui_exposed }
}

fn make_year_month(flag: &'static str, ui_exposed: bool) -> (r: ArgSpec)
    ensures
        r == year_month(flag, ui_exposed),
{
    ArgSpec { flag, arity: 2, value_type: ValueType::YearMonth, ui_exposed }
}

/// The arguments of the LeetCode crawler, in the order of its table.
pub open spec fn leetcode_table() -> Seq<ArgSpec> {
    seq![
        switch("--init", true),
        switch("--full", true),
        switch("--daily", true),
        option("--date", ValueType::Date, true),
        year_month("--monthly", true),
        switch("--fill-missing-content", true),
        option("--fill-missing-content-workers", ValueType::Int, true),
        switch("--missing-content-stats", true),
        option("--domain", ValueType::Domain, true),
    ]
}

pub fn leetcode_args() -> (r: Vec<ArgSpec>)
    ensures
        r@ == leetcode_table(),
{
    let mut t: Vec<ArgSpec> = Vec::new();
    t.push(make_switch("--init", true));
    t.push(make_switch("--full", true));
    t.push(make_switch("--daily", true));
    t.push(make_option("--date", ValueType::Date, true));
    t.push(make_year_month("--monthly", true));
    t.push(make_switch("--fill-missing-content", true));
    t.push(make_option("--fill-missing-content-workers", ValueType::Int, true));
    t.push(make_switch("--missing-content-stats", true));
    t.push(make_option("--domain", ValueType::Domain, true));
    t
}

/// The arguments of the AtCoder crawler, in the order of its table.
pub open spec fn atcoder_table() -> Seq<ArgSpec> {
    seq![
        switch("--sync-kenkoooo", true),
        switch("--sync-history", true),
        switch("--fetch-all", true),
        switch("--resume", true),
        option("--contest", ValueType::Str, true),
        switch("--status", true),
        switch("--fill-missing-content", true),
        switch("--missing-content-stats", true),
        switch("--reprocess-content", true),
        option("--rate-limit", ValueType::Float, true),
        option("--data-dir", ValueType::Str, false),
        option("--db-path", ValueType::Str, false),
    ]
}

pub fn atcoder_args() -> (r: Vec<ArgSpec>)
    ensures
        r@ == atcoder_table(),
{
    let mut t: Vec<ArgSpec> = Vec::new();
    t.push(make_switch("--sync-kenkoooo", true));
    t.push(make_switch("--sync-history", true));
    t.push(make_switch("--fetch-all", true));
    t.push(make_switch("--resume", true));
    t.push(make_option("--contest", ValueType::Str, true));
    t.push(make_switch("--status", true));
    t.push(make_switch("--fill-missing-content", true));
    t.push(make_switch("--missing-content-stats", true));
    t.push(make_switch("--reprocess-content", true));
    t.push(make_option("--rate-limit", ValueType::Float, true));
    t.push(make_option("--data-dir", ValueType::Str, false));
    t.push(make_option("--db-path", ValueType::Str, false));
    t
}

/// The arguments of the Codeforces crawler, in the order of its table.
pub open spec fn codeforces_table() -> Seq<ArgSpec> {
    seq![
        switch("--sync-problemset", true),
        switch("--fetch-all", true),
        switch("--resume", true),
        option("--contest", ValueType::Int, true),
        switch("--status", true),
        switch("--fill-missing-content", true),
        switch("--missing-content-stats", true),
        switch("--missing-problems", true),
        switch("--reprocess-content", true),
        switch("--include-gym", true),
        option("--rate-limit", ValueType::Float, true),
        option("--data-dir", ValueType::Str, false),
        option("--db-path", ValueType::Str, false),
    ]
}

pub fn codeforces_args() -> (r: Vec<ArgSpec>)
    ensures
        r@ == codeforces_table(),
{
    let mut t: Vec<ArgSpec> = Vec::new();
    t.push(make_switch("--sync-problemset", true));
    t.push(make_switch("--fetch-all", true));
    t.push(make_switch("--resume", true));
    t.push(make_option("--contest", ValueType::Int, true));
    t.push(make_switch("--status", true));
    t.push(make_switch("--fill-missing-content", true));
    t.push(make_switch("--missing-content-stats", true));
    t.push(make_switch("--missing-problems", true));
    t.push(make_switch("--reprocess-content", true));
    t.push(make_switch("--include-gym", true));
    t.push(make_option("--rate-limit", ValueType::Float, true));
    t.push(make_option("--data-dir", ValueType::Str, false));
    t.push(make_option("--db-path", ValueType::Str, false));
    t
}

/// The arguments of the Luogu crawler, in the order of its table.
pub open spec fn luogu_table() -> Seq<ArgSpec> {
    seq![
        switch("--sync", true),
        switch("--fill-missing-content", true),
        switch("--missing-content-stats", true),
        switch("--status", true),
        switch("--overwrite", true),
        option("--rate-limit", ValueType::Float, true),
        option("--batch-size", ValueType::Int, true),
        option("--training-list", ValueType::Str, true),
        option("--source", ValueType::Str, true),
        option("--data-dir", ValueType::Str, false),
        option("--db-path", ValueType::Str, false),
    ]
}

pub fn luogu_args() -> (r: Vec<ArgSpec>)
    ensures
        r@ == luogu_table(),
{
    let mut t: Vec<ArgSpec> = Vec::new();
    t.push(make_switch("--sync", true));
    t.push(make_switch("--fill-missing-content", true));
    t.push(make_switch("--missing-content-stats", true));
    t.push(make_switch("--status", true));
    t.push(make_switch("--overwrite", true));
    t.push(make_option("--rate-limit", ValueType::Float, true));
    t.push(make_option("--batch-size", ValueType::Int, true));
    t.push(make_option("--training-list", ValueType::Str, true));
    t.push(make_option("--source", ValueType::Str, true));
    t.push(make_option("--data-dir", ValueType::Str, false));
    t.push(make_option("--db-path", ValueType::Str, false));
    t
}

/// The arguments of the SPOJ crawler, in the order of its table.
pub open spec fn spoj_table() -> Seq<ArgSpec> {
    seq![
        switch("--sync-spoj", true),
        switch("--fill-missing-content", true),
        switch("--missing-content-stats", true),
        switch("--overwrite", true),
        option("--source", ValueType::Str, false),
        option("--rate-limit", ValueType::Float, true),
        option("--batch-size", ValueType::Int, true),
        option("--data-dir", ValueType::Str, false),
        option("--db-path", ValueType::Str, false),
    ]
}

pub fn spoj_args() -> (r: Vec<ArgSpec>)
    ensures
        r@ == spoj_table(),
{
    let mut t: Vec<ArgSpec> = Vec::new();
    t.push(make_switch("--sync-spoj", true));
    t.push(make_switch("--fill-missing-content", true));
    t.push(make_switch("--missing-content-stats", true));
    t.push(make_switch("--overwrite", true));
    t.push(make_option("--source", ValueType::Str, false));
    t.push(make_option("--rate-limit", ValueType::Float, true));
    t.push(make_option("--batch-size", ValueType::Int, true));
    t.push(make_option("--data-dir", ValueType::Str, false));
    t.push(make_option("--db-path", ValueType::Str, false));
    t
}

/// The arguments of the diagnostic helper, in the order of its table.
pub open spec fn diag_table() -> Seq<ArgSpec> {
    seq![
        option("--test", ValueType::Str, true),
    ]
}

pub fn diag_args() -> (r: Vec<ArgSpec>)
    ensures
        r@ == diag_table(),
{
    let mut t: Vec<ArgSpec> = Vec::new();
    t.push(make_option("--test", ValueType::Str, true));
    t
}

/// A helper program.
#[derive(Debug, Clone, Copy, PartialEq, Eq, Structural)]
pub enum CrawlerSource {
    LeetCode,
    AtCoder,
    Codeforces,
    Luogu,
    Spoj,
    Diag,
}

impl CrawlerSource {
    /// The helper named by a text, if the text names one.
    pub open spec fn named(s: Seq<char>) -> Option<CrawlerSource> {
        if s == "leetcode"@ {
            Some(CrawlerSource::LeetCode)
        } else if s == "atcoder"@ {
            Some(CrawlerSource::AtCoder)
        } else if s == "codeforces"@ {
            Some(CrawlerSource::Codeforces)
        } else if s == "luogu"@ {
            Some(CrawlerSource::Luogu)
        } else if s == "spoj"@ {
            Some(CrawlerSource::Spoj)
        } else if s == "diag"@ {
            Some(CrawlerSource::Diag)
        } else {
            None
        }
    }

    /// The script that runs the helper. SPOJ is crawled by the Luogu script.
    pub open spec fn script(self) -> Seq<char> {
        match self {
            CrawlerSource::LeetCode => "leetcode.py"@,
            CrawlerSource::AtCoder => "atcoder.py"@,
            CrawlerSource::Codeforces => "codeforces.py"@,
            CrawlerSource::Luogu => "luogu.py"@,
            CrawlerSource::Spoj => "luogu.py"@,
            CrawlerSource::Diag => "diag.py"@,
        }
    }

    /// The arguments that the helper accepts.
    pub open spec fn table(self) -> Seq<ArgSpec> {
        match self {
            CrawlerSource::LeetCode => leetcode_table(),
            CrawlerSource::AtCoder => atcoder_table(),
            CrawlerSource::Codeforces => codeforces_table(),
            CrawlerSource::Luogu => luogu_table(),
            CrawlerSource::Spoj => spoj_table(),
            CrawlerSource::Diag => diag_table(),
        }
    }

    /// Reads the name of a helper. Any other text is refused with a message that quotes it.
    pub fn parse(s: &str) -> (r: Result<CrawlerSource, String>)
        ensures
            match r {
                Ok(source) => Self::named(s@) == Some(source),
                Err(e) => Self::named(s@) is None && e@ == "invalid source: "@ + s@,
            },
    {
        if str_eq(s, "leetcode") {
            Ok(CrawlerSource::LeetCode)
        } else if str_eq(s, "atcoder") {
            Ok(CrawlerSource::AtCoder)
        } else if str_eq(s, "codeforces") {
            Ok(CrawlerSource::Codeforces)
        } else if str_eq(s, "luogu") {
            Ok(CrawlerSource::Luogu)
        } else if str_eq(s, "spoj") {
            Ok(CrawlerSource::Spoj)
        } else if str_eq(s, "diag") {
            Ok(CrawlerSource::Diag)
        } else {
            Err(join("invalid source: ", s))
        }
    }

    pub fn script_name(&self) -> (r: &'static str)
        ensures
            r@ == self.script(),
    {
        match self {
            CrawlerSource::LeetCode => "leetcode.py",
            CrawlerSource::AtCoder => "atcoder.py",
            CrawlerSource::Codeforces => "codeforces.py",
            CrawlerSource::Luogu => "luogu.py",
            CrawlerSource::Spoj => "luogu.py",
            CrawlerSource::Diag => "diag.py",
        }
    }

    pub fn arg_specs(&self) -> (r: Vec<ArgSpec>)
        ensures
            r@ == self.table(),
            crate::args::consistent(r@),
    {
        proof {
            lemma_tables_are_consistent(*self);
        }
        match self {
            CrawlerSource::LeetCode => leetcode_args(),
            CrawlerSource::AtCoder => atcoder_args(),
            CrawlerSource::Codeforces => codeforces_args(),
            CrawlerSource::Luogu => luogu_args(),
            CrawlerSource::Spoj => spoj_args(),
            CrawlerSource::Diag => diag_args(),
        }
    }
}

/// Every table gives each argument as many values as its kind reads.
pub proof fn lemma_tables_are_consistent(source: CrawlerSource)
    ensures
        crate::args::consistent(source.table()),
{
}

} // verus!
