//! The settings that the decisions of this crate read.

use vstd::prelude::*;
use vstd::string::*;
use crate::text::str_eq;

verus! {

/// Where the catalog lives and how it is opened.
#[derive(Debug)]
pub struct DatabaseConfig {
    pub path: String,
    pub pool_max_size: u32,
    pub busy_timeout_ms: u64,
}

impl Default for DatabaseConfig {
    fn default() -> (r: DatabaseConfig)
        ensures
            r.path@ == "data/data.db"@,
            r.pool_max_size == 8,
            r.busy_timeout_ms == 5000,
    {
        DatabaseConfig { path: "data/data.db".to_owned(), pool_max_size: 8, busy_timeout_ms: 5000 }
    }
}

/// A time limit for the crawler of one source.
#[derive(Debug)]
pub struct SourceTimeout {
    pub source: String,
    pub timeout_secs: u64,
}

/// How long a crawler may run: a general limit, and limits for single sources.
#[derive(Debug)]
pub struct CrawlerConfig {
    pub timeout_secs: u64,
    /// Limits for single sources. Where a source comes twice, its first entry counts.
    pub per_source_timeout: Vec<SourceTimeout>,
}

/// The limit of the first entry for the source at or after `from`, else the general limit.
pub open spec fn timeout_from(
    overrides: Seq<SourceTimeout>,
    general: u64,
    source: Seq<char>,
    from: int,
) -> u64
    decreases overrides.len() - from,
{
    if from < 0 || from >= overrides.len() {
        general
    } else if overrides[from].source@ == source {
        overrides[from].timeout_secs
    } else {
        timeout_from(overrides, general, source, from + 1)
    }
}

impl CrawlerConfig {
    /// The time limit for the crawler of a source.
    pub open spec fn timeout_of(self, source: Seq<char>) -> u64 {
        timeout_from(self.per_source_timeout@, self.timeout_secs, source, 0)
    }

    pub fn timeout_for(&self, source: &str) -> (r: u64)
        ensures
            r == self.timeout_of(source@),
    {
        let mut k: usize = 0;
        while k < self.per_source_timeout.len()
            invariant
                k <= self.per_source_timeout.len(),
                self.timeout_of(source@) == timeout_from(
                    self.per_source_timeout@,
                    self.timeout_secs,
                    source@,
                    k as int,
                ),
            decreases self.per_source_timeout.len() - k,
        {
            if str_eq(self.per_source_timeout[k].source.as_str(), source) {
                return self.per_source_timeout[k].timeout_secs;
            }
            k += 1;
        }
        self.timeout_secs
    }
}

impl Default for CrawlerConfig {
    fn default() -> (r: CrawlerConfig)
        ensures
            r.timeout_secs == 300,
            r.per_source_timeout@.len() == 0,
    {
        CrawlerConfig { timeout_secs: 300, per_source_timeout: Vec::new() }
    }
}

/// The fewest and the most embedder processes that may run at a time.
pub const MIN_CONCURRENCY: u32 = 1;

pub const MAX_CONCURRENCY: u32 = 32;

/// How text queries are embedded and how many neighbours are fetched for a query.
#[derive(Debug, Clone, Copy, PartialEq, Eq, Structural)]
pub struct EmbeddingConfig {
    /// The time allowed for one run of the embedder, in seconds.
    pub timeout_secs: u64,
    /// How many times the asked number of neighbours is fetched before filtering.
    pub over_fetch_factor: u32,
    /// How many embedder processes may run at a time.
    pub concurrency: u32,
}

impl EmbeddingConfig {
    pub open spec fn valid(self) -> bool {
        MIN_CONCURRENCY <= self.concurrency <= MAX_CONCURRENCY
    }

    /// Whether the number of embedder processes is one that the service accepts.
    pub fn is_valid(&self) -> (r: bool)
        ensures
            r == self.valid(),
    {
        MIN_CONCURRENCY <= self.concurrency && self.concurrency <= MAX_CONCURRENCY
    }
}

impl Default for EmbeddingConfig {
    fn default() -> (r: EmbeddingConfig)
        ensures
            r == (EmbeddingConfig { timeout_secs: 30, over_fetch_factor: 4, concurrency: 4 }),
            r.valid(),
    {
        EmbeddingConfig { timeout_secs: 30, over_fetch_factor: 4, concurrency: 4 }
    }
}

/// What is logged.
#[derive(Debug)]
pub struct LoggingConfig {
    pub rust_log: String,
}

impl Default for LoggingConfig {
    fn default() -> (r: LoggingConfig)
        ensures
            r.rust_log@ == "info"@,
    {
        LoggingConfig { rust_log: "info".to_owned() }
    }
}

/// How the administrator's secret stands.
#[derive(Debug, Clone, Copy, PartialEq, Eq, Structural)]
pub enum SecretStrength {
    /// No secret is set.
    Empty,
    /// The secret is the one of the sample configuration.
    Placeholder,
    Chosen,
}

pub open spec fn secret_strength(secret: Seq<char>) -> SecretStrength {
    if secret.len() == 0 {
        SecretStrength::Empty
    } else if secret == "changeme"@ {
        SecretStrength::Placeholder
    } else {
        SecretStrength::Chosen
    }
}

/// Judges the administrator's secret; anything but `Chosen` deserves a warning at start.
pub fn judge_secret(secret: &str) -> (r: SecretStrength)
    ensures
        r == secret_strength(secret@),
{
    if secret.is_empty() {
        SecretStrength::Empty
    } else if str_eq(secret, "changeme") {
        SecretStrength::Placeholder
    } else {
        SecretStrength::Chosen
    }
}

} // verus!
