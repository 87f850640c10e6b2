//! Results of scoring and optimization.

use vstd::prelude::*;
use crate::layout::Layout;
use crate::types::Score;

verus! {

/// One offending n-gram of a metric.
#[derive(Debug, Clone)]
pub struct MetricViolation {
    /// The keys involved (e.g. "TH").
    pub keys: String,
    /// The cost contribution.
    pub score: Score,
    /// The frequency.
    pub freq: Score,
}

impl Default for MetricViolation {
    fn default() -> (r: Self)
        ensures
            r.keys@.len() == 0,
            r.score@ == 0,
            r.freq@ == 0,
    {
        MetricViolation { keys: String::new(), score: Score::zero(), freq: Score::zero() }
    }
}

/// The outcome of an optimization run.
#[derive(Debug, Clone)]
pub struct OptimizationResult {
    /// The final score achieved.
    pub score: Score,
    /// The optimized layout.
    pub layout: Layout,
}

/// The outcome of scoring a layout.
pub type ScoringResult = OptimizationResult;

/// A suggested exchange of two keys.
#[derive(Debug, Clone)]
pub struct SwapSuggestion {
    /// Index of the first key.
    pub index_a: usize,
    /// Index of the second key.
    pub index_b: usize,
    /// Label of the first key.
    pub key_a: String,
    /// Label of the second key.
    pub key_b: String,
    /// Change in score (negative is an improvement).
    pub score_delta: Score,
    /// Percentage improvement.
    pub improvement_pct: Score,
}

} // verus!
