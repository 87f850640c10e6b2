//! Identifiers of the metrics a scoring run reports.

use vstd::prelude::*;

verus! {

/// A reported metric.
#[derive(Debug, Clone, Copy, PartialEq, Eq, Structural, Hash)]
pub enum MetricId {
    /// Total finger travel distance.
    TravelDistance,
    /// Same-finger bigram cost.
    Sfb,
    /// Same-finger bigram penalty contribution.
    SfbPenalty,
    /// Disjoint same-finger bigram (one-key skip).
    Dsfb,
    /// Lateral stretch bigram.
    Lsb,
    /// Home finger substitution (skipping the home key).
    Hfs,
    /// Scissor cost.
    Scissor,
    /// Scissor penalty contribution.
    ScissorPenalty,
    /// Redirect cost.
    Redirect,
    /// Redirect penalty contribution.
    RedirectPenalty,
    /// Inward roll bonus or cost.
    RollIn,
    /// Outward roll bonus or cost.
    RollOut,
    /// Total roll penalty contribution.
    RollPenalty,
    /// Hand balance.
    HandBalance,
    /// Finger usage weighting.
    FingerUsage,
    /// Row distribution balance.
    RowBalance,
}

} // verus!
