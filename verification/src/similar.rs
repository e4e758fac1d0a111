//! Similarity search: how many neighbours are fetched, which of them are shown, and in
//! which order.
//!
//! Similarities are binary32 numbers. They are held by their bit patterns, and compared
//! through a key that orders the patterns as the numbers are ordered.

use vstd::prelude::*;
use vstd::string::*;
use vstd::utf8::*;
use crate::problem::{
    bad_gateway_problem,
    bad_request_problem,
    gateway_timeout_problem,
    ProblemDetail,
    ProblemView,
};
use crate::text::{comma_list, parse_comma_list, str_eq, texts};

verus! {

/// The number of results of a query that names none.
pub const DEFAULT_LIMIT: u32 = 10;

/// The greatest number of results of a query.
pub const MAX_LIMIT: u32 = 50;

/// The greatest number of neighbours fetched for a query.
pub const MAX_NEIGHBOURS: u32 = 200;

/// The least and the greatest length of a text query, in bytes.
pub const MIN_QUERY_BYTES: usize = 3;

pub const MAX_QUERY_BYTES: usize = 2000;

pub open spec fn limit_of(requested: Option<u32>) -> u32 {
    let asked = match requested {
        Some(n) => n,
        None => DEFAULT_LIMIT,
    };
    if asked <= MAX_LIMIT {
        asked
    } else {
        MAX_LIMIT
    }
}

/// The number of results of a query: the number asked for, or the default, and never
/// more than `MAX_LIMIT`.
pub fn effective_limit(requested: Option<u32>) -> (limit: u32)
    ensures
        limit == limit_of(requested),
        limit <= MAX_LIMIT,
{
    let asked = match requested {
        Some(n) => n,
        None => DEFAULT_LIMIT,
    };
    if asked <= MAX_LIMIT {
        asked
    } else {
        MAX_LIMIT
    }
}

/// The number of neighbours to fetch so that filtering still leaves `limit` results:
/// `limit` times the over-fetch factor, and never more than `MAX_NEIGHBOURS`.
pub fn neighbours_to_fetch(limit: u32, over_fetch_factor: u32) -> (k: u32)
    ensures
        k == if limit * over_fetch_factor <= MAX_NEIGHBOURS {
            limit * over_fetch_factor
        } else {
            MAX_NEIGHBOURS as int
        },
{
    assert(limit * over_fetch_factor <= 0xFFFF_FFFF * 0xFFFF_FFFF) by (nonlinear_arith)
        requires
            0 <= limit <= 0xFFFF_FFFF,
            0 <= over_fetch_factor <= 0xFFFF_FFFF,
    ;
    let wanted: u64 = limit as u64 * over_fetch_factor as u64;
    if wanted <= MAX_NEIGHBOURS as u64 {
        wanted as u32
    } else {
        MAX_NEIGHBOURS
    }
}

/// The bit pattern without its sign bit.
pub open spec fn magnitude(bits: u32) -> int {
    if bits >= 0x8000_0000 {
        bits - 0x8000_0000
    } else {
        bits as int
    }
}

/// Whether the bit pattern is one of a NaN: its magnitude lies above that of infinity.
pub open spec fn is_nan(bits: u32) -> bool {
    magnitude(bits) > 0x7F80_0000
}

/// The key of a number that is no NaN. A number is less than another exactly when
/// its key is less; the two zeros share the key 0.
pub open spec fn order_key(bits: u32) -> int {
    if bits >= 0x8000_0000 {
        -magnitude(bits)
    } else {
        magnitude(bits)
    }
}

/// Computes the key of a bit pattern, or nothing for a NaN.
pub fn similarity_key(bits: u32) -> (r: Option<i32>)
    ensures
        match r {
            Some(k) => !is_nan(bits) && k == order_key(bits),
            None => is_nan(bits),
        },
{
    let negative = bits >= 0x8000_0000;
    let mag: u32 = if negative {
        bits - 0x8000_0000
    } else {
        bits
    };
    if mag > 0x7F80_0000 {
        None
    } else if negative {
        Some(-(mag as i32))
    } else {
        Some(mag as i32)
    }
}

/// Whether a similarity is at least the threshold. A NaN on either side is not.
pub open spec fn reaches(similarity_bits: u32, threshold_bits: u32) -> bool {
    !is_nan(similarity_bits) && !is_nan(threshold_bits) && order_key(similarity_bits) >= order_key(
        threshold_bits,
    )
}

fn reaches_threshold(similarity_bits: u32, threshold_bits: u32) -> (r: bool)
    ensures
        r == reaches(similarity_bits, threshold_bits),
{
    match (similarity_key(similarity_bits), similarity_key(threshold_bits)) {
        (Some(s), Some(t)) => s >= t,
        _ => false,
    }
}

/// A neighbour of the query, with its similarity to the query.
#[derive(Debug)]
pub struct Neighbour {
    pub source: String,
    pub problem_id: String,
    pub similarity_bits: u32,
}

pub struct NeighbourView {
    pub source: Seq<char>,
    pub problem_id: Seq<char>,
    pub similarity_bits: u32,
}

impl View for Neighbour {
    type V = NeighbourView;

    open spec fn view(&self) -> NeighbourView {
        NeighbourView {
            source: self.source@,
            problem_id: self.problem_id@,
            similarity_bits: self.similarity_bits,
        }
    }
}

impl Neighbour {
    pub fn duplicate(&self) -> (r: Neighbour)
        ensures
            r@ == self@,
    {
        Neighbour {
            source: self.source.clone(),
            problem_id: self.problem_id.clone(),
            similarity_bits: self.similarity_bits,
        }
    }
}

pub open spec fn neighbour_views(rows: Seq<Neighbour>) -> Seq<NeighbourView> {
    Seq::new(rows.len(), |i: int| rows[i]@)
}

/// What a query asks of its results.
#[derive(Debug)]
pub struct RankQuery {
    /// The problem that the query is about, which is never a result.
    pub exclude: Option<(String, String)>,
    pub threshold_bits: u32,
    /// The sources that results may come from, if the query names any.
    pub source_filter: Option<Vec<String>>,
    pub limit: u32,
}

pub struct RankQueryView {
    pub exclude: Option<(Seq<char>, Seq<char>)>,
    pub threshold_bits: u32,
    pub source_filter: Option<Seq<Seq<char>>>,
    pub limit: u32,
}

impl View for RankQuery {
    type V = RankQueryView;

    open spec fn view(&self) -> RankQueryView {
        RankQueryView {
            exclude: match self.exclude {
                Some(p) => Some((p.0@, p.1@)),
                None => None,
            },
            threshold_bits: self.threshold_bits,
            source_filter: match self.source_filter {
                Some(f) => Some(texts(f@)),
                None => None,
            },
            limit: self.limit,
        }
    }
}

impl RankQueryView {
    /// Whether a neighbour may be a result: it is not the problem of the query, it
    /// reaches the threshold, and it comes from a source that the query admits.
    pub open spec fn admits(self, row: NeighbourView) -> bool {
        &&& !(self.exclude matches Some(p) && row.source == p.0 && row.problem_id == p.1)
        &&& reaches(row.similarity_bits, self.threshold_bits)
        &&& (self.source_filter matches Some(f) ==> f.contains(row.source))
    }

    pub open spec fn admission(self) -> spec_fn(NeighbourView) -> bool {
        |row: NeighbourView| self.admits(row)
    }
}

/// The first `n` elements, or all where there are fewer.
pub open spec fn first_n<A>(s: Seq<A>, n: int) -> Seq<A> {
    if 0 <= n < s.len() {
        s.take(n)
    } else {
        s
    }
}

/// A sequence in descending order, with one more row put behind the rows that are
/// not less similar and before those that are.
pub open spec fn insert_desc(sorted: Seq<NeighbourView>, row: NeighbourView) -> Seq<NeighbourView>
    decreases sorted.len(),
{
    if sorted.len() == 0 {
        seq![row]
    } else if order_key(sorted.last().similarity_bits) >= order_key(row.similarity_bits) {
        sorted.push(row)
    } else {
        insert_desc(sorted.drop_last(), row).push(sorted.last())
    }
}

/// The rows by descending similarity; rows of equal similarity keep their order.
pub open spec fn sort_desc(rows: Seq<NeighbourView>) -> Seq<NeighbourView>
    decreases rows.len(),
{
    if rows.len() == 0 {
        rows
    } else {
        insert_desc(sort_desc(rows.drop_last()), rows.last())
    }
}

pub open spec fn descending(rows: Seq<NeighbourView>) -> bool {
    forall|i: int, j: int|
        0 <= i < j < rows.len() ==> order_key(rows[i].similarity_bits) >= order_key(
            rows[j].similarity_bits,
        )
}

/// The results of a query: of the neighbours that the query admits, in the order in
/// which they were found, the first `limit`; these by descending similarity.
pub open spec fn ranked(rows: Seq<NeighbourView>, query: RankQueryView) -> Seq<NeighbourView> {
    sort_desc(first_n(rows.filter(query.admission()), query.limit as int))
}

proof fn lemma_insert_desc(sorted: Seq<NeighbourView>, row: NeighbourView)
    requires
        descending(sorted),
    ensures
        descending(insert_desc(sorted, row)),
        insert_desc(sorted, row).len() == sorted.len() + 1,
        insert_desc(sorted, row).to_multiset() == sorted.to_multiset().insert(row),
    decreases sorted.len(),
{
    if sorted.len() == 0 {
        assert(sorted =~= Seq::<NeighbourView>::empty());
        vstd::seq_lib::to_multiset_build(sorted, row);
    } else if order_key(sorted.last().similarity_bits) >= order_key(row.similarity_bits) {
        vstd::seq_lib::to_multiset_build(sorted, row);
    } else {
        let front = sorted.drop_last();
        lemma_insert_desc(front, row);
        let inner = insert_desc(front, row);
        let out = inner.push(sorted.last());
        assert(sorted =~= front.push(sorted.last()));
        vstd::seq_lib::to_multiset_build(front, sorted.last());
        vstd::seq_lib::to_multiset_build(inner, sorted.last());
        assert forall|i: int, j: int| 0 <= i < j < out.len() implies order_key(
            out[i].similarity_bits,
        ) >= order_key(out[j].similarity_bits) by {
            if j == out.len() - 1 {
                // The last row is less similar than the new row and than every row of
                // `front`, and every row of `inner` is one of these.
                vstd::seq_lib::to_multiset_contains(inner, inner[i]);
                if inner[i] != row {
                    vstd::seq_lib::to_multiset_contains(front, inner[i]);
                    let k = choose|k: int| 0 <= k < front.len() && front[k] == inner[i];
                    assert(sorted[k] == inner[i]);
                }
            }
        }
    }
}

/// Sorting puts the rows in descending order and neither adds nor loses a row.
pub proof fn lemma_sort_desc(rows: Seq<NeighbourView>)
    ensures
        descending(sort_desc(rows)),
        sort_desc(rows).len() == rows.len(),
        sort_desc(rows).to_multiset() == rows.to_multiset(),
    decreases rows.len(),
{
    if rows.len() == 0 {
    } else {
        lemma_sort_desc(rows.drop_last());
        lemma_insert_desc(sort_desc(rows.drop_last()), rows.last());
        assert(rows =~= rows.drop_last().push(rows.last()));
        vstd::seq_lib::to_multiset_build(rows.drop_last(), rows.last());
    }
}

/// The results of a query are in descending order of similarity, are no more than
/// the query asks for, reach the threshold, come from the sources that the query
/// names if it names any, and are neighbours that were found, the problem of the
/// query not among them.
pub proof fn law_ranked_results(rows: Seq<NeighbourView>, query: RankQueryView)
    ensures
        descending(ranked(rows, query)),
        ranked(rows, query).len() <= query.limit,
        ranked(rows, query).len() <= rows.len(),
        forall|i: int|
            0 <= i < ranked(rows, query).len() ==> {
                let row = #[trigger] ranked(rows, query)[i];
                &&& rows.contains(row)
                &&& query.admits(row)
                &&& reaches(row.similarity_bits, query.threshold_bits)
                &&& (query.source_filter matches Some(f) ==> f.contains(row.source))
                &&& (query.exclude matches Some(p) ==> !(row.source == p.0 && row.problem_id
                    == p.1))
            },
{
    let admitted = rows.filter(query.admission());
    let shown = first_n(admitted, query.limit as int);
    let out = ranked(rows, query);
    lemma_sort_desc(shown);
    rows.lemma_filter_len(query.admission());
    assert forall|i: int| 0 <= i < out.len() implies {
        let row = #[trigger] out[i];
        &&& rows.contains(row)
        &&& query.admits(row)
    } by {
        let row = out[i];
        vstd::seq_lib::to_multiset_contains(out, row);
        vstd::seq_lib::to_multiset_contains(shown, row);
        let k = choose|k: int| 0 <= k < shown.len() && shown[k] == row;
        rows.lemma_filter_pred(query.admission(), k);
        rows.lemma_filter_contains_rev(query.admission(), row);
    }
}

fn holds_text(list: &Vec<String>, s: &str) -> (r: bool)
    ensures
        r == texts(list@).contains(s@),
{
    let mut i: usize = 0;
    while i < list.len()
        invariant
            i <= list.len(),
            forall|k: int| 0 <= k < i ==> texts(list@)[k] != s@,
        decreases list.len() - i,
    {
        if str_eq(list[i].as_str(), s) {
            assert(texts(list@)[i as int] == s@);
            return true;
        }
        i += 1;
    }
    false
}

impl RankQuery {
    /// Whether a neighbour may be a result of the query.
    pub fn admits(&self, row: &Neighbour) -> (r: bool)
        ensures
            r == self@.admits(row@),
    {
        if let Some(p) = &self.exclude {
            if str_eq(row.source.as_str(), p.0.as_str()) && str_eq(
                row.problem_id.as_str(),
                p.1.as_str(),
            ) {
                return false;
            }
        }
        if !reaches_threshold(row.similarity_bits, self.threshold_bits) {
            return false;
        }
        match &self.source_filter {
            Some(f) => holds_text(f, row.source.as_str()),
            None => true,
        }
    }
}

proof fn lemma_insert_position(sorted: Seq<NeighbourView>, row: NeighbourView, pos: int)
    requires
        0 <= pos <= sorted.len(),
        forall|k: int|
            pos <= k < sorted.len() ==> order_key(sorted[k].similarity_bits) < order_key(
                row.similarity_bits,
            ),
        pos > 0 ==> order_key(sorted[pos - 1].similarity_bits) >= order_key(row.similarity_bits),
    ensures
        insert_desc(sorted, row) == sorted.insert(pos, row),
    decreases sorted.len() - pos,
{
    if sorted.len() == 0 {
    } else if pos == sorted.len() {
    } else {
        lemma_insert_position(sorted.drop_last(), row, pos);
    }
}

/// Puts the rows in descending order of similarity; rows of equal similarity keep
/// their order.
pub fn sort_by_similarity(rows: Vec<Neighbour>) -> (r: Vec<Neighbour>)
    ensures
        neighbour_views(r@) == sort_desc(neighbour_views(rows@)),
{
    let mut out: Vec<Neighbour> = Vec::new();
    let ghost all = neighbour_views(rows@);
    let mut i: usize = 0;
    while i < rows.len()
        invariant
            i <= rows.len(),
            all == neighbour_views(rows@),
            neighbour_views(out@) == sort_desc(all.take(i as int)),
        decreases rows.len() - i,
    {
        let row = rows[i].duplicate();
        let key = order_of(row.similarity_bits);
        let mut pos: usize = out.len();
        while pos > 0 && order_of(out[pos - 1].similarity_bits) < key
            invariant
                pos <= out.len(),
                key == order_key(row.similarity_bits),
                forall|k: int|
                    pos <= k < out.len() ==> order_key(out@[k].similarity_bits) < key,
            decreases pos,
        {
            pos -= 1;
        }
        let ghost before = neighbour_views(out@);
        proof {
            assert(all.take(i + 1).drop_last() =~= all.take(i as int));
            lemma_insert_position(before, row@, pos as int);
        }
        out.insert(pos, row);
        i += 1;
    }
    assert(all.take(rows.len() as int) =~= all);
    out
}

fn order_of(bits: u32) -> (r: i32)
    ensures
        r == order_key(bits),
{
    let negative = bits >= 0x8000_0000;
    let mag: u32 = if negative {
        bits - 0x8000_0000
    } else {
        bits
    };
    if negative {
        -(mag as i32)
    } else {
        mag as i32
    }
}

/// Picks the results of a query from the neighbours that were found, nearest first,
/// and puts them in the order in which they are shown.
pub fn rank(rows: &Vec<Neighbour>, query: &RankQuery) -> (r: Vec<Neighbour>)
    ensures
        neighbour_views(r@) == ranked(neighbour_views(rows@), query@),
{
    let ghost all = neighbour_views(rows@);
    let ghost pred = query@.admission();
    let mut shown: Vec<Neighbour> = Vec::new();
    let mut i: usize = 0;
    proof {
        reveal(Seq::filter);
    }
    while i < rows.len() && shown.len() < query.limit as usize
        invariant
            i <= rows.len(),
            all == neighbour_views(rows@),
            pred == query@.admission(),
            shown.len() <= query.limit,
            neighbour_views(shown@) == all.take(i as int).filter(pred),
        decreases rows.len() - i,
    {
        proof {
            assert(all.take(i + 1) =~= all.take(i as int).push(all[i as int]));
            all.take(i as int).lemma_filter_push(all[i as int], pred);
        }
        if query.admits(&rows[i]) {
            shown.push(rows[i].duplicate());
        }
        i += 1;
    }
    proof {
        let found = all.take(i as int).filter(pred);
        let every = all.filter(pred);
        // What was skipped could only add rows behind the first `limit`.
        assert(all =~= all.take(i as int) + all.skip(i as int));
        Seq::filter_distributes_over_add(all.take(i as int), all.skip(i as int), pred);
        if i == rows.len() {
            assert(all.skip(i as int).filter(pred) =~= Seq::<NeighbourView>::empty()) by {
                reveal(Seq::filter);
            }
        } else {
            assert(every.take(query.limit as int) =~= found);
        }
    }
    sort_by_similarity(shown)
}

/// The sources that a query names: none where the parameter is absent, else the
/// pieces of the parameter between its commas, trimmed.
pub open spec fn source_filter_of(raw: Option<Seq<char>>) -> Option<Seq<Seq<char>>> {
    match raw {
        Some(list) => Some(comma_list(list)),
        None => None,
    }
}

/// Reads the parameter that names the sources of a query.
pub fn parse_source_filter(raw: Option<&str>) -> (r: Option<Vec<String>>)
    ensures
        match r {
            Some(f) => source_filter_of(crate::domain::opt_str(raw)) == Some(texts(f@)),
            None => raw is None,
        },
{
    match raw {
        Some(list) => Some(parse_comma_list(list)),
        None => None,
    }
}

/// The bit pattern of 0.0, the threshold of a query that names none.
pub const DEFAULT_THRESHOLD_BITS: u32 = 0;

/// What a request asks of its results: no more than the limit that it names, capped;
/// at least the threshold that it names, or zero; from the sources that it names, if
/// any. A request about a stored problem never gets that problem back.
pub open spec fn query_of(
    about: Option<(Seq<char>, Seq<char>)>,
    limit: Option<u32>,
    threshold_bits: Option<u32>,
    sources: Option<Seq<char>>,
) -> RankQueryView {
    RankQueryView {
        exclude: about,
        threshold_bits: match threshold_bits {
            Some(t) => t,
            None => DEFAULT_THRESHOLD_BITS,
        },
        source_filter: source_filter_of(sources),
        limit: limit_of(limit),
    }
}

impl RankQuery {
    /// Reads the parameters of a request for the problems similar to a stored problem.
    pub fn about_problem(
        source: &str,
        id: &str,
        limit: Option<u32>,
        threshold_bits: Option<u32>,
        sources: Option<&str>,
    ) -> (r: RankQuery)
        ensures
            r@ == query_of(
                Some((source@, id@)),
                limit,
                threshold_bits,
                crate::domain::opt_str(sources),
            ),
    {
        RankQuery {
            exclude: Some((source.to_owned(), id.to_owned())),
            threshold_bits: match threshold_bits {
                Some(t) => t,
                None => DEFAULT_THRESHOLD_BITS,
            },
            source_filter: parse_source_filter(sources),
            limit: effective_limit(limit),
        }
    }

    /// Reads the parameters of a request for the problems similar to a text.
    pub fn about_text(limit: Option<u32>, threshold_bits: Option<u32>, sources: Option<&str>) -> (r:
        RankQuery)
        ensures
            r@ == query_of(None, limit, threshold_bits, crate::domain::opt_str(sources)),
    {
        RankQuery {
            exclude: None,
            threshold_bits: match threshold_bits {
                Some(t) => t,
                None => DEFAULT_THRESHOLD_BITS,
            },
            source_filter: parse_source_filter(sources),
            limit: effective_limit(limit),
        }
    }
}

/// Why a text query is refused.
#[derive(Debug, Clone, Copy, PartialEq, Eq, Structural)]
pub enum QueryTextError {
    Missing,
    TooShort,
    TooLong,
}

impl QueryTextError {
    pub open spec fn detail(self) -> Seq<char> {
        match self {
            QueryTextError::Missing => "query parameter is required"@,
            QueryTextError::TooShort => "query must be at least 3 characters"@,
            QueryTextError::TooLong => "query must be at most 2000 characters"@,
        }
    }

    pub fn problem(&self) -> (r: ProblemDetail)
        ensures
            r@ == bad_request_problem(self.detail()),
    {
        match self {
            QueryTextError::Missing => ProblemDetail::bad_request("query parameter is required"),
            QueryTextError::TooShort => ProblemDetail::bad_request(
                "query must be at least 3 characters",
            ),
            QueryTextError::TooLong => ProblemDetail::bad_request(
                "query must be at most 2000 characters",
            ),
        }
    }
}

/// The verdict on the text of a query, by its length in bytes of UTF-8.
pub open spec fn query_text_fault(text: Option<Seq<char>>) -> Option<QueryTextError> {
    match text {
        None => Some(QueryTextError::Missing),
        Some(t) => if encode_utf8(t).len() > MAX_QUERY_BYTES {
            Some(QueryTextError::TooLong)
        } else if encode_utf8(t).len() < MIN_QUERY_BYTES {
            Some(QueryTextError::TooShort)
        } else {
            None
        },
    }
}

/// Checks the text of a query.
pub fn check_query_text(text: Option<&str>) -> (r: Result<String, QueryTextError>)
    ensures
        match r {
            Ok(t) => query_text_fault(crate::domain::opt_str(text)) is None && (text matches Some(
                given,
            ) && t@ == given@),
            Err(e) => query_text_fault(crate::domain::opt_str(text)) == Some(e),
        },
{
    match text {
        None => Err(QueryTextError::Missing),
        Some(t) => {
            let n = t.as_bytes().len();
            if n > MAX_QUERY_BYTES {
                Err(QueryTextError::TooLong)
            } else if n < MIN_QUERY_BYTES {
                Err(QueryTextError::TooShort)
            } else {
                Ok(t.to_owned())
            }
        },
    }
}

/// How a run of the embedder can fail.
#[derive(Debug, Clone, Copy, PartialEq, Eq, Structural)]
pub enum EmbedFailure {
    /// The embedder could not be started.
    SpawnFailed,
    /// Waiting for the embedder failed.
    WaitFailed,
    /// The embedder took longer than it may.
    TimedOut,
    /// The embedder exited with an error.
    ExitedWithError,
    /// What the embedder wrote is no JSON.
    InvalidJson,
    /// What the embedder wrote holds no list of numbers under `embedding`.
    InvalidFormat,
}

impl EmbedFailure {
    /// The answer to the client: a timeout is reported as such, every other failure
    /// as a fault of the service behind.
    pub open spec fn answer(self) -> ProblemView {
        match self {
            EmbedFailure::SpawnFailed => bad_gateway_problem("embedding service unavailable"@),
            EmbedFailure::WaitFailed => bad_gateway_problem("embedding service error"@),
            EmbedFailure::TimedOut => gateway_timeout_problem("embedding service timed out"@),
            EmbedFailure::ExitedWithError => bad_gateway_problem("embedding service failed"@),
            EmbedFailure::InvalidJson => bad_gateway_problem("invalid embedding response"@),
            EmbedFailure::InvalidFormat => bad_gateway_problem("invalid embedding format"@),
        }
    }

    pub fn problem(&self) -> (r: ProblemDetail)
        ensures
            r@ == self.answer(),
            r@.status == if *self == EmbedFailure::TimedOut {
                504u16
            } else {
                502u16
            },
    {
        match self {
            EmbedFailure::SpawnFailed => ProblemDetail::bad_gateway(
                "embedding service unavailable",
            ),
            EmbedFailure::WaitFailed => ProblemDetail::bad_gateway("embedding service error"),
            EmbedFailure::TimedOut => ProblemDetail::gateway_timeout(
                "embedding service timed out",
            ),
            EmbedFailure::ExitedWithError => ProblemDetail::bad_gateway(
                "embedding service failed",
            ),
            EmbedFailure::InvalidJson => ProblemDetail::bad_gateway("invalid embedding response"),
            EmbedFailure::InvalidFormat => ProblemDetail::bad_gateway("invalid embedding format"),
        }
    }
}

/// The arguments of the embedder for a text.
pub fn embedder_args(text: &str) -> (r: Vec<String>)
    ensures
        texts(r@) == seq!["embedding_cli.py"@, "--embed-text"@, text@],
{
    let mut args: Vec<String> = Vec::new();
    args.push("embedding_cli.py".to_owned());
    args.push("--embed-text".to_owned());
    args.push(text.to_owned());
    args
}

} // verus!
