//! Rational fractions for deterministic physics calculations.

use vstd::prelude::*;

verus! {

/// Represents a rational fraction for deterministic physics calculations.
#[derive(Debug, Clone, Copy, PartialEq, Eq, Structural)]
pub struct Fraction {
    /// The numerator of the fraction.
    pub numerator: i64,
    /// The denominator of the fraction.
    pub denominator: i64,
}

impl Fraction {
    /// Creates a new `Fraction`.
    pub fn new(numerator: i64, denominator: i64) -> (r: Self)
        ensures
            r.numerator == numerator,
            r.denominator == denominator,
    {
        Fraction { numerator, denominator }
    }
}

impl Default for Fraction {
    /// The fraction 1/1.
    fn default() -> (r: Self)
        ensures
            r.numerator == 1,
            r.denominator == 1,
    {
        Fraction { numerator: 1, denominator: 1 }
    }
}

} // verus!
