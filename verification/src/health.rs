//! Whether the service is fit to answer: the catalog opens, the vector index is
//! loaded, and the stored vectors have the dimension that the service works with.

use vstd::prelude::*;

verus! {

/// The dimension that stored vectors must have, as the catalog reports it.
pub const EXPECTED_DIMENSION: i64 = 768;

/// The state of the service as the health endpoint reports it.
#[derive(Debug, Clone, Copy, PartialEq, Eq, Structural)]
pub struct HealthReport {
    pub healthy: bool,
    pub db: bool,
    pub sqlite_vec: bool,
    pub vec_dimension: Option<i64>,
}

/// The report for what the probes found. Without a connection nothing else counts.
pub open spec fn health_of(connected: bool, vec_loaded: bool, vec_dimension: Option<i64>) -> HealthReport {
    if !connected {
        HealthReport { healthy: false, db: false, sqlite_vec: false, vec_dimension: None }
    } else {
        HealthReport {
            healthy: vec_loaded && vec_dimension == Some(EXPECTED_DIMENSION),
            db: true,
            sqlite_vec: vec_loaded,
            vec_dimension,
        }
    }
}

pub fn health_report(connected: bool, vec_loaded: bool, vec_dimension: Option<i64>) -> (r:
    HealthReport)
    ensures
        r == health_of(connected, vec_loaded, vec_dimension),
{
    if !connected {
        HealthReport { healthy: false, db: false, sqlite_vec: false, vec_dimension: None }
    } else {
        let dim_ok = match vec_dimension {
            Some(d) => d == EXPECTED_DIMENSION,
            None => false,
        };
        HealthReport { healthy: vec_loaded && dim_ok, db: true, sqlite_vec: vec_loaded, vec_dimension }
    }
}

impl HealthReport {
    /// The HTTP status of the report: 200 for a healthy service, 503 for any other.
    pub fn status_code(&self) -> (r: u16)
        ensures
            r == if self.healthy {
                200u16
            } else {
                503u16
            },
    {
        if self.healthy {
            200
        } else {
            503
        }
    }

    pub fn status_word(&self) -> (r: &'static str)
        ensures
            r@ == if self.healthy {
                "ok"@
            } else {
                "unhealthy"@
            },
    {
        if self.healthy {
            "ok"
        } else {
            "unhealthy"
        }
    }
}

/// What the probe of the stored dimension gave at start.
#[derive(Debug, Clone, Copy, PartialEq, Eq, Structural)]
pub enum DimensionProbe {
    /// A vector was found, with the given dimension.
    Found { dimension: i64 },
    /// No vector is stored yet.
    NoRows,
    /// The index could not be asked.
    Failed,
}

/// What the service says of the stored dimension at start.
#[derive(Debug, Clone, Copy, PartialEq, Eq, Structural)]
pub enum DimensionVerdict {
    Passed,
    Mismatch { found: i64 },
    Skipped,
}

/// Judges the stored dimension. Nothing but a vector of another dimension is a mismatch.
pub fn judge_dimension(probe: DimensionProbe) -> (r: DimensionVerdict)
    ensures
        r == match probe {
            DimensionProbe::Found { dimension } => if dimension == EXPECTED_DIMENSION {
                DimensionVerdict::Passed
            } else {
                DimensionVerdict::Mismatch { found: dimension }
            },
            _ => DimensionVerdict::Skipped,
        },
{
    match probe {
        DimensionProbe::Found { dimension } => if dimension == EXPECTED_DIMENSION {
            DimensionVerdict::Passed
        } else {
            DimensionVerdict::Mismatch { found: dimension }
        },
        _ => DimensionVerdict::Skipped,
    }
}

} // verus!
