//! One latency measurement of a session.

use vstd::prelude::*;

verus! {

/// A latency measurement: which metric, its value, and when it was taken.
#[derive(Debug, Clone)]
pub struct LatencyMark {
    pub session_id: String,
    pub metric: String,
    pub value_ms: i64,
    pub recorded_at_ms: i64,
}

} // verus!
