//! Deterministic spatial arithmetic.

use vstd::prelude::*;

verus! {

/// Units for physical distance on the keyboard (1000 units = 1.0 key unit).
#[derive(Debug, Clone, Copy, PartialEq, Eq, Structural, PartialOrd, Ord, Hash)]
pub struct SpatialUnit(i32);

impl View for SpatialUnit {
    type V = i32;

    closed spec fn view(&self) -> i32 {
        self.0
    }
}

/// Scaling factor for spatial units (1000 units per key unit).
pub const SPATIAL_SCALE: i64 = 1000;

impl SpatialUnit {
    /// Creates a new `SpatialUnit` from a raw value.
    pub fn new(val: i32) -> (r: Self)
        ensures
            r@ == val,
    {
        SpatialUnit(val)
    }

    /// Returns the raw `i32` value.
    pub fn raw(self) -> (r: i32)
        ensures
            r == self@,
    {
        self.0
    }
}

impl Default for SpatialUnit {
    fn default() -> (r: Self)
        ensures
            r@ == 0,
    {
        SpatialUnit(0)
    }
}

/// A 2D point in deterministic spatial units.
#[derive(Debug, Clone, Copy, PartialEq, Eq, Structural, Hash)]
pub struct Point {
    /// X coordinate.
    pub x: SpatialUnit,
    /// Y coordinate.
    pub y: SpatialUnit,
}

/// Squared Euclidean distance between two points given by raw coordinates.
pub open spec fn dist_sq_spec(x1: int, y1: int, x2: int, y2: int) -> int {
    (x2 - x1) * (x2 - x1) + (y2 - y1) * (y2 - y1)
}

impl Point {
    /// Creates a new `Point`.
    pub fn new(x: SpatialUnit, y: SpatialUnit) -> (r: Self)
        ensures
            r.x == x,
            r.y == y,
    {
        Point { x, y }
    }

    /// Calculates the squared distance between two points.
    ///
    /// The coordinate differences are computed in `i32`, so they must fit there,
    /// and so must the sum of squares in `i64`.
    pub fn dist_sq(self, other: Self) -> (r: i64)
        requires
            i32::MIN <= other.x@ - self.x@ <= i32::MAX,
            i32::MIN <= other.y@ - self.y@ <= i32::MAX,
            dist_sq_spec(self.x@ as int, self.y@ as int, other.x@ as int, other.y@ as int) <= i64::MAX,
        ensures
            r == dist_sq_spec(self.x@ as int, self.y@ as int, other.x@ as int, other.y@ as int),
    {
        let dx: i64 = (other.x.raw() - self.x.raw()) as i64;
        let dy: i64 = (other.y.raw() - self.y.raw()) as i64;
        proof {
            lemma_square_sum_nonneg(dx as int, dy as int);
        }
        dx * dx + dy * dy
    }
}

/// Both squares in a sum of squares are non-negative, so each is bounded by the sum.
pub proof fn lemma_square_sum_nonneg(a: int, b: int)
    ensures
        a * a >= 0,
        b * b >= 0,
        a * a <= a * a + b * b,
        b * b <= a * a + b * b,
{
    assert(a * a >= 0) by (nonlinear_arith);
    assert(b * b >= 0) by (nonlinear_arith);
}

impl Default for Point {
    fn default() -> (r: Self)
        ensures
            r.x@ == 0,
            r.y@ == 0,
    {
        Point { x: SpatialUnit(0), y: SpatialUnit(0) }
    }
}

} // verus!
