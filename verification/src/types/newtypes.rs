//! Domain-specific newtypes.

use vstd::prelude::*;

verus! {

/// A security-bounded duration in milliseconds.
#[derive(Debug, Clone, Copy, PartialEq, Eq, Structural, PartialOrd, Ord, Hash)]
pub struct DurationMs(u64);

impl View for DurationMs {
    type V = u64;

    closed spec fn view(&self) -> u64 {
        self.0
    }
}

impl DurationMs {
    /// Creates a new `DurationMs`.
    pub fn new(val: u64) -> (r: Self)
        ensures
            r@ == val,
    {
        DurationMs(val)
    }

    /// Returns the raw `u64` value.
    pub fn raw(self) -> (r: u64)
        ensures
            r == self@,
    {
        self.0
    }
}

impl Default for DurationMs {
    fn default() -> (r: Self)
        ensures
            r@ == 0,
    {
        DurationMs(0)
    }
}

/// Number of iterations for an optimization step.
#[derive(Debug, Clone, Copy, PartialEq, Eq, Structural, PartialOrd, Ord, Hash)]
pub struct IterationCount(usize);

impl View for IterationCount {
    type V = usize;

    closed spec fn view(&self) -> usize {
        self.0
    }
}

impl IterationCount {
    /// Creates a new `IterationCount`.
    pub fn new(val: usize) -> (r: Self)
        ensures
            r@ == val,
    {
        IterationCount(val)
    }

    /// Returns the raw `usize` value.
    pub fn raw(self) -> (r: usize)
        ensures
            r == self@,
    {
        self.0
    }
}

impl Default for IterationCount {
    fn default() -> (r: Self)
        ensures
            r@ == 0,
    {
        IterationCount(0)
    }
}

impl From<usize> for IterationCount {
    fn from(val: usize) -> (r: Self)
        ensures
            r@ == val,
    {
        IterationCount(val)
    }
}

impl vstd::std_specs::convert::FromSpecImpl<usize> for IterationCount {
    open spec fn obeys_from_spec() -> bool {
        true
    }

    closed spec fn from_spec(val: usize) -> IterationCount {
        IterationCount(val)
    }
}

/// Patience limit for stagnant optimization runs.
#[derive(Debug, Clone, Copy, PartialEq, Eq, Structural, PartialOrd, Ord, Hash)]
pub struct PatienceCount(usize);

impl View for PatienceCount {
    type V = usize;

    closed spec fn view(&self) -> usize {
        self.0
    }
}

impl PatienceCount {
    /// Creates a new `PatienceCount`.
    pub fn new(val: usize) -> (r: Self)
        ensures
            r@ == val,
    {
        PatienceCount(val)
    }

    /// Returns the raw `usize` value.
    pub fn raw(self) -> (r: usize)
        ensures
            r == self@,
    {
        self.0
    }
}

impl Default for PatienceCount {
    fn default() -> (r: Self)
        ensures
            r@ == 0,
    {
        PatienceCount(0)
    }
}

impl From<usize> for PatienceCount {
    fn from(val: usize) -> (r: Self)
        ensures
            r@ == val,
    {
        PatienceCount(val)
    }
}

impl vstd::std_specs::convert::FromSpecImpl<usize> for PatienceCount {
    open spec fn obeys_from_spec() -> bool {
        true
    }

    closed spec fn from_spec(val: usize) -> PatienceCount {
        PatienceCount(val)
    }
}

/// Number of reheating cycles.
#[derive(Debug, Clone, Copy, PartialEq, Eq, Structural, PartialOrd, Ord, Hash)]
pub struct ReheatCount(usize);

impl View for ReheatCount {
    type V = usize;

    closed spec fn view(&self) -> usize {
        self.0
    }
}

impl ReheatCount {
    /// Creates a new `ReheatCount`.
    pub fn new(val: usize) -> (r: Self)
        ensures
            r@ == val,
    {
        ReheatCount(val)
    }

    /// Returns the raw `usize` value.
    pub fn raw(self) -> (r: usize)
        ensures
            r == self@,
    {
        self.0
    }
}

impl Default for ReheatCount {
    fn default() -> (r: Self)
        ensures
            r@ == 0,
    {
        ReheatCount(0)
    }
}

impl From<usize> for ReheatCount {
    fn from(val: usize) -> (r: Self)
        ensures
            r@ == val,
    {
        ReheatCount(val)
    }
}

impl vstd::std_specs::convert::FromSpecImpl<usize> for ReheatCount {
    open spec fn obeys_from_spec() -> bool {
        true
    }

    closed spec fn from_spec(val: usize) -> ReheatCount {
        ReheatCount(val)
    }
}

/// Generic scaling or adjustment factor for bit-perfect deterministic math.
#[derive(Debug, Clone, Copy, PartialEq, Eq, Structural, PartialOrd, Ord, Hash)]
pub struct ScalingFactor(i64);

impl View for ScalingFactor {
    type V = i64;

    closed spec fn view(&self) -> i64 {
        self.0
    }
}

impl ScalingFactor {
    /// Creates a new `ScalingFactor`.
    pub fn new(val: i64) -> (r: Self)
        ensures
            r@ == val,
    {
        ScalingFactor(val)
    }

    /// Returns the raw `i64` value.
    pub fn raw(self) -> (r: i64)
        ensures
            r == self@,
    {
        self.0
    }
}

impl Default for ScalingFactor {
    fn default() -> (r: Self)
        ensures
            r@ == 0,
    {
        ScalingFactor(0)
    }
}

impl From<i64> for ScalingFactor {
    fn from(val: i64) -> (r: Self)
        ensures
            r@ == val,
    {
        ScalingFactor(val)
    }
}

impl vstd::std_specs::convert::FromSpecImpl<i64> for ScalingFactor {
    open spec fn obeys_from_spec() -> bool {
        true
    }

    closed spec fn from_spec(val: i64) -> ScalingFactor {
        ScalingFactor(val)
    }
}

/// A deterministic seed for PRNGs.
#[derive(Debug, Clone, Copy, PartialEq, Eq, Structural, PartialOrd, Ord, Hash)]
pub struct Seed(u64);

impl View for Seed {
    type V = u64;

    closed spec fn view(&self) -> u64 {
        self.0
    }
}

impl Seed {
    /// Creates a new `Seed`.
    pub fn new(val: u64) -> (r: Self)
        ensures
            r@ == val,
    {
        Seed(val)
    }

    /// Returns the raw `u64` value.
    pub fn raw(self) -> (r: u64)
        ensures
            r == self@,
    {
        self.0
    }
}

impl Default for Seed {
    fn default() -> (r: Self)
        ensures
            r@ == 0,
    {
        Seed(0)
    }
}

impl From<u64> for Seed {
    fn from(val: u64) -> (r: Self)
        ensures
            r@ == val,
    {
        Seed(val)
    }
}

impl vstd::std_specs::convert::FromSpecImpl<u64> for Seed {
    open spec fn obeys_from_spec() -> bool {
        true
    }

    closed spec fn from_spec(val: u64) -> Seed {
        Seed(val)
    }
}

} // verus!
