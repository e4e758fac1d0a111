//! Listing the problems of a source: which page is meant, which rows qualify, and in
//! which order they come. The outcome is a query for the catalog, with its parameters.
//!
//! Ratings are binary64 numbers, held by their bit patterns.

use vstd::prelude::*;
use vstd::string::*;
use crate::text::{
    decimal,
    decimal_string,
    join,
    joined,
    lemma_texts_push,
    str_eq,
    texts,
    trimmed,
};

verus! {

/// The fewest and the most rows of a page.
pub const MIN_PER_PAGE: u32 = 1;

pub const MAX_PER_PAGE: u32 = 100;

/// The page of a listing: its number, its size, and how many rows come before it.
#[derive(Debug, Clone, Copy, PartialEq, Eq, Structural)]
pub struct PageWindow {
    pub page: u32,
    pub per_page: u32,
    pub offset: u32,
}

/// The page that a request means: the size is brought into its range, a page
/// number of zero counts as one, and the offset stops at the greatest number there is.
pub open spec fn window_of(page: u32, per_page: u32) -> PageWindow {
    let size = if per_page < MIN_PER_PAGE {
        MIN_PER_PAGE
    } else if per_page > MAX_PER_PAGE {
        MAX_PER_PAGE
    } else {
        per_page
    };
    let number = if page < 1 {
        1u32
    } else {
        page
    };
    let before = (number - 1) * size;
    PageWindow {
        page: number,
        per_page: size,
        offset: if before > u32::MAX {
            u32::MAX
        } else {
            before as u32
        },
    }
}

pub fn page_window(page: u32, per_page: u32) -> (r: PageWindow)
    ensures
        r == window_of(page, per_page),
        MIN_PER_PAGE <= r.per_page <= MAX_PER_PAGE,
        r.page >= 1,
{
    let size = if per_page < MIN_PER_PAGE {
        MIN_PER_PAGE
    } else if per_page > MAX_PER_PAGE {
        MAX_PER_PAGE
    } else {
        per_page
    };
    let number = if page < 1 {
        1
    } else {
        page
    };
    assert((number - 1) * size <= 0xFFFF_FFFF * 100) by (nonlinear_arith)
        requires
            0 <= number - 1 <= 0xFFFF_FFFF,
            0 <= size <= 100,
    ;
    let before: u64 = (number - 1) as u64 * size as u64;
    let offset = if before > u32::MAX as u64 {
        u32::MAX
    } else {
        before as u32
    };
    PageWindow { page: number, per_page: size, offset }
}

/// The number of pages that `total` rows fill.
pub fn total_pages(total: u32, per_page: u32) -> (r: u32)
    requires
        per_page >= 1,
    ensures
        r == if total == 0 {
            0
        } else {
            (total + per_page - 1) / per_page as int
        },
{
    if total == 0 {
        0
    } else {
        let pages: u64 = (total as u64 + per_page as u64 - 1) / per_page as u64;
        assert((total + per_page - 1) / per_page as int <= total) by (nonlinear_arith)
            requires
                total >= 1,
                per_page >= 1,
        ;
        pages as u32
    }
}

/// A parameter of a query.
#[derive(Debug)]
pub enum SqlParam {
    Text(String),
    /// A binary64 number, by its bit pattern.
    Real(u64),
    Int(u32),
}

pub enum SqlParamView {
    Text(Seq<char>),
    Real(u64),
    Int(u32),
}

impl View for SqlParam {
    type V = SqlParamView;

    open spec fn view(&self) -> SqlParamView {
        match self {
            SqlParam::Text(s) => SqlParamView::Text(s@),
            SqlParam::Real(bits) => SqlParamView::Real(*bits),
            SqlParam::Int(n) => SqlParamView::Int(*n),
        }
    }
}

pub open spec fn param_views(params: Seq<SqlParam>) -> Seq<SqlParamView> {
    Seq::new(params.len(), |i: int| params[i]@)
}

pub fn join_with(pieces: &Vec<String>, sep: &str) -> (r: String)
    ensures
        r@ == joined(texts(pieces@), sep@),
{
    let mut out = String::new();
    let mut i: usize = 0;
    while i < pieces.len()
        invariant
            i <= pieces.len(),
            out@ == joined(texts(pieces@).take(i as int), sep@),
        decreases pieces.len() - i,
    {
        let ghost before = texts(pieces@).take(i as int);
        let ghost after = texts(pieces@).take(i + 1);
        assert(after.drop_last() =~= before);
        if i > 0 {
            out.append(sep);
        } else {
        }
        out.append(pieces[i].as_str());
        i += 1;
    }
    assert(texts(pieces@).take(pieces@.len() as int) =~= texts(pieces@));
    out
}

/// A character as it stands in a pattern of `LIKE` with the backslash as escape:
/// the backslash and the two wildcards get a backslash before them.
pub open spec fn like_escaped_char(c: char) -> Seq<char> {
    if c == '\\' || c == '%' || c == '_' {
        seq!['\\', c]
    } else {
        seq![c]
    }
}

/// A text as it stands in a pattern of `LIKE`, so that it matches itself only.
pub open spec fn like_escaped(s: Seq<char>) -> Seq<char>
    decreases s.len(),
{
    if s.len() == 0 {
        Seq::empty()
    } else {
        like_escaped(s.drop_last()) + like_escaped_char(s.last())
    }
}

pub fn escape_like(s: &str) -> (r: String)
    ensures
        r@ == like_escaped(s@),
{
    let mut out = String::new();
    for c in it: s.chars()
        invariant
            it.seq() == s@,
            out@ == like_escaped(s@.take(it.index() as int)),
    {
        let ghost before = s@.take(it.index() as int);
        let ghost after = s@.take(it.index() + 1);
        assert(after.drop_last() =~= before);
        if c == '\\' || c == '%' || c == '_' {
            out.push('\\');
            out.push(c);
        } else {
            out.push(c);
        }
    }
    assert(s@.take(s@.len() as int) =~= s@);
    out
}

/// The pattern that finds a text anywhere in a column.
pub open spec fn like_pattern(search: Seq<char>) -> Seq<char> {
    "%"@ + like_escaped(search) + "%"@
}

/// The mark of the parameter with the given number.
pub open spec fn placeholder(n: nat) -> Seq<char> {
    "?"@ + decimal(n)
}

fn mark(n: u64) -> (r: String)
    ensures
        r@ == placeholder(n as nat),
{
    join("?", decimal_string(n).as_str())
}

/// The magnitude of a binary64 bit pattern: the pattern without its sign bit.
pub open spec fn magnitude64(bits: u64) -> int {
    if bits >= 0x8000_0000_0000_0000 {
        bits - 0x8000_0000_0000_0000
    } else {
        bits as int
    }
}

pub open spec fn is_nan64(bits: u64) -> bool {
    magnitude64(bits) > 0x7FF0_0000_0000_0000
}

/// The key of a binary64 number that is no NaN. A number is less than another
/// exactly when its key is less; the two zeros share the key 0.
pub open spec fn order_key64(bits: u64) -> int {
    if bits >= 0x8000_0000_0000_0000 {
        -magnitude64(bits)
    } else {
        magnitude64(bits)
    }
}

/// Whether the first number is greater than the second. A NaN on either side is not.
pub open spec fn greater64(a: u64, b: u64) -> bool {
    !is_nan64(a) && !is_nan64(b) && order_key64(a) > order_key64(b)
}

fn key64(bits: u64) -> (r: Option<i64>)
    ensures
        match r {
            Some(k) => !is_nan64(bits) && k == order_key64(bits),
            None => is_nan64(bits),
        },
{
    let negative = bits >= 0x8000_0000_0000_0000;
    let mag: u64 = if negative {
        bits - 0x8000_0000_0000_0000
    } else {
        bits
    };
    if mag > 0x7FF0_0000_0000_0000 {
        None
    } else if negative {
        Some(-(mag as i64))
    } else {
        Some(mag as i64)
    }
}

pub fn is_greater64(a: u64, b: u64) -> (r: bool)
    ensures
        r == greater64(a, b),
{
    match (key64(a), key64(b)) {
        (Some(x), Some(y)) => x > y,
        _ => false,
    }
}

/// What a request for a listing asks.
#[derive(Debug)]
pub struct ListRequest {
    pub source: String,
    pub page: u32,
    pub per_page: u32,
    pub difficulty: Option<String>,
    pub tags: Option<Vec<String>>,
    pub search: Option<String>,
    pub sort_by: Option<String>,
    pub sort_order: Option<String>,
    pub tag_mode: String,
    pub rating_min_bits: Option<u64>,
    pub rating_max_bits: Option<u64>,
}

pub open spec fn is_sort_column(s: Seq<char>) -> bool {
    s == "id"@ || s == "difficulty"@ || s == "rating"@ || s == "ac_rate"@
}

pub open spec fn is_sort_order(s: Seq<char>) -> bool {
    s == "asc"@ || s == "desc"@
}

pub open spec fn is_tag_mode(s: Seq<char>) -> bool {
    s == "any"@ || s == "all"@
}

/// Why the parameters of a listing are refused, if they are: the column to sort by
/// is judged first, then the direction, then the way tags combine, then the bounds
/// of the rating.
pub open spec fn list_query_fault(
    sort_by: Option<Seq<char>>,
    sort_order: Option<Seq<char>>,
    tag_mode: Option<Seq<char>>,
    rating_min_bits: Option<u64>,
    rating_max_bits: Option<u64>,
) -> Option<Seq<char>> {
    if sort_by is Some && !is_sort_column(sort_by->0) {
        Some("invalid sort_by: "@ + sort_by->0)
    } else if sort_order is Some && !is_sort_order(sort_order->0) {
        Some("invalid sort_order: "@ + sort_order->0)
    } else if tag_mode is Some && !is_tag_mode(tag_mode->0) {
        Some("invalid tag_mode: "@ + tag_mode->0)
    } else if rating_min_bits is Some && rating_max_bits is Some && greater64(
        rating_min_bits->0,
        rating_max_bits->0,
    ) {
        Some("rating_min must be <= rating_max"@)
    } else {
        None
    }
}

/// Checks the parameters of a listing.
pub fn validate_list_query(
    sort_by: Option<&str>,
    sort_order: Option<&str>,
    tag_mode: Option<&str>,
    rating_min_bits: Option<u64>,
    rating_max_bits: Option<u64>,
) -> (r: Result<(), String>)
    ensures
        match r {
            Ok(()) => list_query_fault(
                crate::domain::opt_str(sort_by),
                crate::domain::opt_str(sort_order),
                crate::domain::opt_str(tag_mode),
                rating_min_bits,
                rating_max_bits,
            ) is None,
            Err(reason) => list_query_fault(
                crate::domain::opt_str(sort_by),
                crate::domain::opt_str(sort_order),
                crate::domain::opt_str(tag_mode),
                rating_min_bits,
                rating_max_bits,
            ) == Some(reason@),
        },
{
    if let Some(s) = sort_by {
        if !(str_eq(s, "id") || str_eq(s, "difficulty") || str_eq(s, "rating") || str_eq(
            s,
            "ac_rate",
        )) {
            return Err(join("invalid sort_by: ", s));
        }
    }
    if let Some(s) = sort_order {
        if !(str_eq(s, "asc") || str_eq(s, "desc")) {
            return Err(join("invalid sort_order: ", s));
        }
    }
    if let Some(s) = tag_mode {
        if !(str_eq(s, "any") || str_eq(s, "all")) {
            return Err(join("invalid tag_mode: ", s));
        }
    }
    if let Some(min) = rating_min_bits {
        if let Some(max) = rating_max_bits {
            if is_greater64(min, max) {
                return Err("rating_min must be <= rating_max".to_owned());
            }
        }
    }
    Ok(())
}

/// The tags that a request names: the pieces of the parameter between its commas,
/// trimmed, without the empty ones.
pub open spec fn tags_of(raw: Seq<char>) -> Seq<Seq<char>> {
    crate::text::comma_list(raw).filter(|piece: Seq<char>| piece.len() > 0)
}

/// Reads the parameter that names the tags of a listing.
pub fn parse_tags(raw: &str) -> (r: Vec<String>)
    ensures
        texts(r@) == tags_of(raw@),
{
    let pieces = crate::text::parse_comma_list(raw);
    let ghost all = texts(pieces@);
    let ghost keep = |piece: Seq<char>| piece.len() > 0;
    let mut out: Vec<String> = Vec::new();
    let mut i: usize = 0;
    proof {
        reveal(Seq::filter);
    }
    while i < pieces.len()
        invariant
            i <= pieces.len(),
            all == texts(pieces@),
            keep == |piece: Seq<char>| piece.len() > 0,
            texts(out@) == all.take(i as int).filter(keep),
        decreases pieces.len() - i,
    {
        let ghost before = out@;
        proof {
            assert(all.take(i + 1) =~= all.take(i as int).push(all[i as int]));
            all.take(i as int).lemma_filter_push(all[i as int], keep);
        }
        if !pieces[i].as_str().is_empty() {
            out.push(pieces[i].clone());
            proof {
                lemma_texts_push(before, out@.last());
            }
        }
        i += 1;
    }
    assert(all.take(pieces@.len() as int) =~= all);
    out
}

/// The expression by which a listing is ordered first. Problems without a known
/// difficulty come after the hard ones.
pub open spec fn order_column(sort_by: Option<Seq<char>>) -> Seq<char> {
    if sort_by == Some("difficulty"@) {
        "CASE WHEN LOWER(difficulty)='easy' THEN 1 WHEN LOWER(difficulty)='medium' THEN 2 WHEN LOWER(difficulty)='hard' THEN 3 ELSE 4 END"@
    } else if sort_by == Some("rating"@) {
        "rating"@
    } else if sort_by == Some("ac_rate"@) {
        "ac_rate"@
    } else {
        "natural_sort_key(id)"@
    }
}

/// The direction of the order: descending only where a column to sort by is named
/// and the direction asked for is `desc`.
pub open spec fn order_direction(sort_by: Option<Seq<char>>, sort_order: Option<Seq<char>>) -> Seq<
    char,
> {
    if sort_by is Some && sort_order == Some("desc"@) {
        "DESC"@
    } else {
        "ASC"@
    }
}

pub fn order_by(sort_by: Option<&str>, sort_order: Option<&str>) -> (r: (&'static str, &'static str))
    ensures
        r.0@ == order_column(crate::domain::opt_str(sort_by)),
        r.1@ == order_direction(crate::domain::opt_str(sort_by), crate::domain::opt_str(sort_order)),
{
    let column = match sort_by {
        Some(s) => {
            if str_eq(s, "difficulty") {
                "CASE WHEN LOWER(difficulty)='easy' THEN 1 WHEN LOWER(difficulty)='medium' THEN 2 WHEN LOWER(difficulty)='hard' THEN 3 ELSE 4 END"
            } else if str_eq(s, "rating") {
                "rating"
            } else if str_eq(s, "ac_rate") {
                "ac_rate"
            } else {
                "natural_sort_key(id)"
            }
        },
        None => "natural_sort_key(id)",
    };
    let direction = match sort_by {
        Some(_) => match sort_order {
            Some(o) => if str_eq(o, "desc") {
                "DESC"
            } else {
                "ASC"
            },
            None => "ASC",
        },
        None => "ASC",
    };
    (column, direction)
}

/// The content of a request for a listing.
pub struct ListRequestView {
    pub source: Seq<char>,
    pub page: u32,
    pub per_page: u32,
    pub difficulty: Option<Seq<char>>,
    pub tags: Option<Seq<Seq<char>>>,
    pub search: Option<Seq<char>>,
    pub sort_by: Option<Seq<char>>,
    pub sort_order: Option<Seq<char>>,
    pub tag_mode: Seq<char>,
    pub rating_min_bits: Option<u64>,
    pub rating_max_bits: Option<u64>,
}

impl View for ListRequest {
    type V = ListRequestView;

    open spec fn view(&self) -> ListRequestView {
        ListRequestView {
            source: self.source@,
            page: self.page,
            per_page: self.per_page,
            difficulty: crate::text::opt_text(self.difficulty),
            tags: match self.tags {
                Some(t) => Some(texts(t@)),
                None => None,
            },
            search: crate::text::opt_text(self.search),
            sort_by: crate::text::opt_text(self.sort_by),
            sort_order: crate::text::opt_text(self.sort_order),
            tag_mode: self.tag_mode@,
            rating_min_bits: self.rating_min_bits,
            rating_max_bits: self.rating_max_bits,
        }
    }
}

/// The conditions that the rows of a listing meet, and the parameters that the
/// conditions refer to by number.
pub struct FilterView {
    pub clauses: Seq<Seq<char>>,
    pub params: Seq<SqlParamView>,
}

/// The condition that a row carries a tag, whatever the case of its letters.
pub open spec fn tag_condition(n: nat) -> Seq<char> {
    "EXISTS (SELECT 1 FROM json_each(CASE WHEN tags IS NOT NULL AND tags != '' THEN tags ELSE '[]' END) WHERE LOWER(value) = LOWER("@
        + placeholder(n) + "))"@
}

/// The condition that a text stands in the id or in one of the titles of a row.
pub open spec fn search_condition(n: nat) -> Seq<char> {
    "(id LIKE "@ + placeholder(n) + " ESCAPE '\\' OR COALESCE(title,'') LIKE "@ + placeholder(
        n + 1,
    ) + " ESCAPE '\\' OR COALESCE(title_cn,'') LIKE "@ + placeholder(n + 2) + " ESCAPE '\\')"@
}

impl FilterView {
    /// The number of the next parameter.
    pub open spec fn next(self) -> nat {
        self.params.len() + 1
    }

    pub open spec fn add(self, clause: Seq<char>, param: SqlParamView) -> FilterView {
        FilterView { clauses: self.clauses.push(clause), params: self.params.push(param) }
    }

    /// The rows of one source.
    pub open spec fn of_source(source: Seq<char>) -> FilterView {
        FilterView { clauses: seq!["source = ?1"@], params: seq![SqlParamView::Text(source)] }
    }

    pub open spec fn with_difficulty(self, difficulty: Option<Seq<char>>) -> FilterView {
        match difficulty {
            Some(d) => self.add(
                "LOWER(difficulty) = LOWER("@ + placeholder(self.next()) + ")"@,
                SqlParamView::Text(d),
            ),
            None => self,
        }
    }

    /// A search counts where something is left of it after trimming.
    pub open spec fn with_search(self, search: Option<Seq<char>>) -> FilterView {
        match search {
            Some(s) => if trimmed(s).len() > 0 {
                let p = SqlParamView::Text(like_pattern(trimmed(s)));
                FilterView {
                    clauses: self.clauses.push(search_condition(self.next())),
                    params: self.params.push(p).push(p).push(p),
                }
            } else {
                self
            },
            None => self,
        }
    }

    /// The conditions of the tags, one for each, numbered from `first` on.
    pub open spec fn tag_conditions(count: nat, first: nat) -> Seq<Seq<char>> {
        Seq::new(count, |i: int| tag_condition((first + i) as nat))
    }

    /// Rows have to carry all of the tags in the mode `all`, one of them in any other.
    pub open spec fn with_tags(self, tags: Option<Seq<Seq<char>>>, mode: Seq<char>) -> FilterView {
        match tags {
            Some(t) => if t.len() > 0 {
                let joiner = if mode == "all"@ {
                    " AND "@
                } else {
                    " OR "@
                };
                FilterView {
                    clauses: self.clauses.push(
                        "("@ + joined(Self::tag_conditions(t.len(), self.next()), joiner) + ")"@,
                    ),
                    params: self.params + t.map_values(|tag: Seq<char>| SqlParamView::Text(tag)),
                }
            } else {
                self
            },
            None => self,
        }
    }

    pub open spec fn with_rating_min(self, bits: Option<u64>) -> FilterView {
        match bits {
            Some(b) => self.add(
                "rating >= "@ + placeholder(self.next()),
                SqlParamView::Real(b),
            ),
            None => self,
        }
    }

    pub open spec fn with_rating_max(self, bits: Option<u64>) -> FilterView {
        match bits {
            Some(b) => self.add(
                "rating <= "@ + placeholder(self.next()),
                SqlParamView::Real(b),
            ),
            None => self,
        }
    }
}

/// The conditions of a listing: the source, then the difficulty, the search, the
/// tags and the bounds of the rating, as far as the request names them.
pub open spec fn list_filter(req: ListRequestView) -> FilterView {
    FilterView::of_source(req.source).with_difficulty(req.difficulty).with_search(
        req.search,
    ).with_tags(req.tags, req.tag_mode).with_rating_min(req.rating_min_bits).with_rating_max(
        req.rating_max_bits,
    )
}

/// The two queries of a listing: one counts the rows that qualify, one fetches the
/// rows of the page.
#[derive(Debug)]
pub struct ListPlan {
    pub count_sql: String,
    /// The parameters of the count, which are also the first of the fetch.
    pub filter_params: Vec<SqlParam>,
    pub select_sql: String,
    /// The page; its size and its offset are the last two parameters of the fetch.
    pub window: PageWindow,
}

pub struct ListPlanView {
    pub count_sql: Seq<char>,
    pub filter_params: Seq<SqlParamView>,
    pub select_sql: Seq<char>,
    pub window: PageWindow,
}

impl View for ListPlan {
    type V = ListPlanView;

    open spec fn view(&self) -> ListPlanView {
        ListPlanView {
            count_sql: self.count_sql@,
            filter_params: param_views(self.filter_params@),
            select_sql: self.select_sql@,
            window: self.window,
        }
    }
}

pub open spec fn select_head() -> Seq<char> {
    "SELECT id, source, slug, title, title_cn, difficulty, ac_rate, rating, contest, problem_index, tags, link FROM problems WHERE "@
}

/// The queries that answer a request. Rows that tie in the order asked for come by
/// their natural sort key, then by their id.
pub open spec fn planned(req: ListRequestView) -> ListPlanView {
    let filter = list_filter(req);
    let conditions = joined(filter.clauses, " AND "@);
    ListPlanView {
        count_sql: "SELECT COUNT(*) FROM problems WHERE "@ + conditions,
        filter_params: filter.params,
        select_sql: select_head() + conditions + " ORDER BY "@ + order_column(req.sort_by) + " "@
            + order_direction(req.sort_by, req.sort_order)
            + ", natural_sort_key(id) ASC, id ASC LIMIT "@ + placeholder(filter.next())
            + " OFFSET "@ + placeholder(filter.next() + 1),
        window: window_of(req.page, req.per_page),
    }
}

struct Filter {
    clauses: Vec<String>,
    params: Vec<SqlParam>,
}

impl View for Filter {
    type V = FilterView;

    closed spec fn view(&self) -> FilterView {
        FilterView { clauses: texts(self.clauses@), params: param_views(self.params@) }
    }
}

impl Filter {
    fn next(&self) -> (n: u64)
        requires
            self.params@.len() < u64::MAX,
        ensures
            n == self@.next(),
    {
        self.params.len() as u64 + 1
    }

    fn add(&mut self, clause: String, param: SqlParam)
        ensures
            final(self)@ == old(self)@.add(clause@, param@),
            final(self).params@.len() == old(self).params@.len() + 1,
    {
        let ghost before = self.clauses@;
        self.clauses.push(clause);
        self.params.push(param);
        proof {
            lemma_texts_push(before, clause);
        }
        assert(param_views(self.params@) =~= param_views(old(self).params@).push(param@));
    }
}

/// Plans the queries that answer a request for a listing.
pub fn plan_listing(req: &ListRequest) -> (plan: ListPlan)
    requires
        req.tags matches Some(t) ==> t@.len() <= u32::MAX,
    ensures
        plan@ == planned(req@),
{
    let mut filter = Filter { clauses: Vec::new(), params: Vec::new() };
    filter.clauses.push("source = ?1".to_owned());
    filter.params.push(SqlParam::Text(req.source.clone()));
    assert(filter@.clauses =~= FilterView::of_source(req.source@).clauses);
    assert(filter@.params =~= FilterView::of_source(req.source@).params);
    if let Some(d) = &req.difficulty {
        let clause = join("LOWER(difficulty) = LOWER(", mark(filter.next()).as_str()).concat(")");
        filter.add(clause, SqlParam::Text(d.clone()));
    }
    if let Some(s) = &req.search {
        let wanted = s.as_str().trim();
        if !wanted.is_empty() {
            let n = filter.next();
            let pattern = join("%", escape_like(wanted).as_str()).concat("%");
            let clause = join("(id LIKE ", mark(n).as_str()).concat(
                " ESCAPE '\\' OR COALESCE(title,'') LIKE ",
            ).concat(mark(n + 1).as_str()).concat(
                " ESCAPE '\\' OR COALESCE(title_cn,'') LIKE ",
            ).concat(mark(n + 2).as_str()).concat(" ESCAPE '\\')");
            let ghost before = filter@;
            let ghost p = SqlParamView::Text(like_pattern(trimmed(s@)));
            let ghost old_clauses = filter.clauses@;
            filter.clauses.push(clause);
            filter.params.push(SqlParam::Text(pattern.clone()));
            filter.params.push(SqlParam::Text(pattern.clone()));
            filter.params.push(SqlParam::Text(pattern));
            proof {
                lemma_texts_push(old_clauses, clause);
                assert(filter@.params =~= before.params.push(p).push(p).push(p));
            }
        }
    }
    assert(filter@ == FilterView::of_source(req.source@).with_difficulty(
        req@.difficulty,
    ).with_search(req@.search));
    if let Some(tags) = &req.tags {
        if tags.len() > 0 {
            let first = filter.next();
            let mut conditions: Vec<String> = Vec::new();
            let ghost before = filter@;
            let ghost old_clauses = filter.clauses@;
            let mut i: usize = 0;
            while i < tags.len()
                invariant
                    i <= tags.len(),
                    tags@.len() <= u32::MAX,
                    first == before.next(),
                    before.params.len() <= 5,
                    filter.params@.len() == before.params.len() + i,
                    conditions@.len() == i,
                    texts(conditions@) == FilterView::tag_conditions(i as nat, first as nat),
                    filter.clauses@ == old_clauses,
                    param_views(filter.params@) == before.params + texts(tags@).take(
                        i as int,
                    ).map_values(|tag: Seq<char>| SqlParamView::Text(tag)),
                decreases tags.len() - i,
            {
                let ghost done = conditions@;
                let ghost given = filter.params@;
                let condition = join(
                    "EXISTS (SELECT 1 FROM json_each(CASE WHEN tags IS NOT NULL AND tags != '' THEN tags ELSE '[]' END) WHERE LOWER(value) = LOWER(",
                    mark(first + i as u64).as_str(),
                ).concat("))");
                conditions.push(condition);
                filter.params.push(SqlParam::Text(tags[i].clone()));
                proof {
                    lemma_texts_push(done, condition);
                    assert(param_views(filter.params@) =~= param_views(given).push(
                        SqlParamView::Text(tags@[i as int]@),
                    ));
                }
                i += 1;
            }
            assert(texts(tags@).take(tags@.len() as int) =~= texts(tags@));
            let joiner = if str_eq(req.tag_mode.as_str(), "all") {
                " AND "
            } else {
                " OR "
            };
            let clause = join("(", join_with(&conditions, joiner).as_str()).concat(")");
            filter.clauses.push(clause);
            proof {
                lemma_texts_push(old_clauses, clause);
            }
        }
    }
    if let Some(bits) = req.rating_min_bits {
        let clause = join("rating >= ", mark(filter.next()).as_str());
        filter.add(clause, SqlParam::Real(bits));
    }
    if let Some(bits) = req.rating_max_bits {
        let clause = join("rating <= ", mark(filter.next()).as_str());
        filter.add(clause, SqlParam::Real(bits));
    }
    let conditions = join_with(&filter.clauses, " AND ");
    let order = order_by(
        match &req.sort_by {
            Some(s) => Some(s.as_str()),
            None => None,
        },
        match &req.sort_order {
            Some(s) => Some(s.as_str()),
            None => None,
        },
    );
    let n = filter.next();
    let count_sql = join("SELECT COUNT(*) FROM problems WHERE ", conditions.as_str());
    let select_sql = join(
        "SELECT id, source, slug, title, title_cn, difficulty, ac_rate, rating, contest, problem_index, tags, link FROM problems WHERE ",
        conditions.as_str(),
    ).concat(" ORDER BY ").concat(order.0).concat(" ").concat(order.1).concat(
        ", natural_sort_key(id) ASC, id ASC LIMIT ",
    ).concat(mark(n).as_str()).concat(" OFFSET ").concat(mark(n + 1).as_str());
    ListPlan {
        count_sql,
        filter_params: filter.params,
        select_sql,
        window: page_window(req.page, req.per_page),
    }
}

} // verus!
