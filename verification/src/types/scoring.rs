//! Fixed-point scoring types.
//!
//! A `Score` counts effort in units of one millionth of an effort point; a
//! `FixedWeight` counts weight in units of one thousandth.

use vstd::prelude::*;
use vstd::string::*;

verus! {

/// Scaling factor of `Score` (1,000,000 units = 1.0 effort point).
pub const SCORE_SCALE: i64 = 1_000_000;

/// Scaling factor of `FixedWeight` (1,000 units = 1.0 weight).
pub const WEIGHT_SCALE: i32 = 1_000;

/// `v` clamped to the `i64` range.
pub open spec fn clamp_i64(v: int) -> i64 {
    if v > i64::MAX {
        i64::MAX
    } else if v < i64::MIN {
        i64::MIN
    } else {
        v as i64
    }
}

/// Whether `v` lies in the `i64` range.
pub open spec fn fits_i64(v: int) -> bool {
    i64::MIN <= v <= i64::MAX
}

/// Integer division rounding toward zero (Rust's `/` on signed integers), for `d != 0`.
pub open spec fn trunc_div(a: int, d: int) -> int {
    if d > 0 {
        if a >= 0 {
            a / d
        } else {
            -((-a) / d)
        }
    } else {
        if a >= 0 {
            -(a / (-d))
        } else {
            (-a) / (-d)
        }
    }
}

/// Rounded ratio used by `Score::normalized`: `(v * scale + divisor / 2) / divisor`,
/// the quotient rounded toward zero.
pub open spec fn normalized_value(v: int, scale: int, divisor: int) -> int {
    trunc_div(v * scale + divisor / 2, divisor)
}

/// Four-digit zero padding of a number below 10000.
pub open spec fn pad4(n: int) -> Seq<char> {
    let zeros: Seq<char> = if n < 10 {
        seq!['0', '0', '0']
    } else if n < 100 {
        seq!['0', '0']
    } else if n < 1000 {
        seq!['0']
    } else {
        Seq::empty()
    };
    zeros + crate::text::decimal(n)
}

/// A raw score written in units with four decimals, rounded half away from zero.
pub open spec fn score_text(v: int) -> Seq<char> {
    let mag = if v < 0 { -v } else { v };
    let rounded = (mag + 50) / 100;
    let sign: Seq<char> = if v < 0 { seq!['-'] } else { Seq::empty() };
    sign + crate::text::decimal(rounded / 10000) + seq!['.'] + pad4(rounded % 10000)
}

/// Represents a biomechanical effort score in deterministic fixed-point units.
#[derive(Debug, Clone, Copy, PartialEq, Eq, Structural, PartialOrd, Ord, Hash)]
pub struct Score(i64);

impl View for Score {
    type V = i64;

    closed spec fn view(&self) -> i64 {
        self.0
    }
}

/// Divides by a positive divisor, rounding toward zero.
fn div_toward_zero(a: i128, d: i128) -> (q: i128)
    requires
        d > 0,
        a > i128::MIN,
    ensures
        q == trunc_div(a as int, d as int),
{
    if a >= 0 {
        a / d
    } else {
        let m: i128 = -a;
        -(m / d)
    }
}

impl Score {
    /// Maximum possible score (`i64::MAX` units).
    pub fn max_value() -> (r: Self)
        ensures
            r@ == i64::MAX,
    {
        Score(i64::MAX)
    }

    /// Minimum possible score (`i64::MIN` units).
    pub fn min_value() -> (r: Self)
        ensures
            r@ == i64::MIN,
    {
        Score(i64::MIN)
    }

    /// Zero score.
    pub fn zero() -> (r: Self)
        ensures
            r@ == 0,
    {
        Score(0)
    }

    /// Sentinel value for unreachable or uninitialized costs (`i64::MAX` units).
    pub fn infinity_sentinel() -> (r: Self)
        ensures
            r@ == i64::MAX,
    {
        Score(i64::MAX)
    }

    /// Returns the raw scaled value.
    pub fn raw(self) -> (r: i64)
        ensures
            r == self@,
    {
        self.0
    }

    /// Renders the score in units with four decimals (e.g. `-0.1000`), rounding the
    /// fixed-point value half away from zero at the fourth decimal.
    pub fn display_string(&self) -> (r: String)
        ensures
            r@ == score_text(self@ as int),
    {
        let v = self.0 as i128;
        let mag: i128 = if v < 0 { -v } else { v };
        let rounded: i128 = (mag + 50) / 100;
        let whole = (rounded / 10000) as u128;
        let frac = (rounded % 10000) as u64;
        let mut out = if v < 0 { String::from_str("-") } else { String::new() };
        out.append(crate::text::u128_to_decimal(whole).as_str());
        out.append(".");
        if frac < 1000 {
            out.append("0");
        }
        if frac < 100 {
            out.append("0");
        }
        if frac < 10 {
            out.append("0");
        }
        out.append(crate::text::u64_to_decimal(frac).as_str());
        proof {
            reveal_strlit("-");
            reveal_strlit(".");
            reveal_strlit("0");
            let sign: Seq<char> = if v < 0 { seq!['-'] } else { Seq::empty() };
            let zeros: Seq<char> = if frac < 10 {
                seq!['0', '0', '0']
            } else if frac < 100 {
                seq!['0', '0']
            } else if frac < 1000 {
                seq!['0']
            } else {
                Seq::empty()
            };
            assert(out@ =~= sign + crate::text::decimal(whole as int) + seq!['.'] + zeros
                + crate::text::decimal(frac as int));
        }
        out
    }

    /// Creates a Score from a raw value that is already scaled.
    pub fn from_scaled_i64(val: i64) -> (r: Self)
        ensures
            r@ == val,
    {
        Score(val)
    }

    /// Creates a Score from a `FixedWeight` (one weight unit is 1,000 score units).
    pub fn from_weight(weight: FixedWeight) -> (r: Self)
        ensures
            r@ == weight@ * 1000,
    {
        let ratio: i64 = SCORE_SCALE / (WEIGHT_SCALE as i64);
        Score((weight.raw() as i64) * ratio)
    }

    /// Checked addition: `None` exactly when the sum leaves the `i64` range.
    pub fn checked_add(self, other: Score) -> (r: Option<Score>)
        ensures
            r is Some <==> fits_i64(self@ + other@),
            r matches Some(s) ==> s@ == self@ + other@,
    {
        match self.0.checked_add(other.0) {
            Some(v) => Some(Score(v)),
            None => None,
        }
    }

    /// Checked subtraction: `None` exactly when the difference leaves the `i64` range.
    pub fn checked_sub(self, other: Score) -> (r: Option<Score>)
        ensures
            r is Some <==> fits_i64(self@ - other@),
            r matches Some(s) ==> s@ == self@ - other@,
    {
        match self.0.checked_sub(other.0) {
            Some(v) => Some(Score(v)),
            None => None,
        }
    }

    /// Checked multiplication by a scalar: `None` exactly when the product leaves the `i64` range.
    pub fn checked_mul(self, factor: i64) -> (r: Option<Score>)
        ensures
            r is Some <==> fits_i64(self@ * factor),
            r matches Some(s) ==> s@ == self@ * factor,
    {
        match self.0.checked_mul(factor) {
            Some(v) => Some(Score(v)),
            None => None,
        }
    }

    /// Saturating addition.
    pub fn saturating_add(self, other: Score) -> (r: Score)
        ensures
            r@ == clamp_i64(self@ + other@),
    {
        let s: i128 = self.0 as i128 + other.0 as i128;
        Score(clamp_i128(s))
    }

    /// Saturating subtraction.
    pub fn saturating_sub(self, other: Score) -> (r: Score)
        ensures
            r@ == clamp_i64(self@ - other@),
    {
        let s: i128 = self.0 as i128 - other.0 as i128;
        Score(clamp_i128(s))
    }

    /// Saturating multiplication by a scalar.
    pub fn saturating_mul(self, factor: i64) -> (r: Score)
        ensures
            r@ == clamp_i64(self@ * factor),
    {
        let a: i128 = self.0 as i128;
        let b: i128 = factor as i128;
        proof {
            lemma_i64_product_bound(self.0 as int, factor as int);
        }
        Score(clamp_i128(a * b))
    }

    /// Saturating negation.
    pub fn saturating_neg(self) -> (r: Score)
        ensures
            r@ == clamp_i64(-self@),
    {
        if self.0 == i64::MIN {
            Score(i64::MAX)
        } else {
            Score(-self.0)
        }
    }

    /// Multiplication by a `FixedWeight`: `score * weight / 1000`, rounded toward zero;
    /// `None` exactly when the result leaves the `i64` range.
    pub fn checked_mul_weight(self, weight: FixedWeight) -> (r: Option<Score>)
        ensures
            r is Some <==> fits_i64(trunc_div(self@ * weight@, 1000)),
            r matches Some(s) ==> s@ == trunc_div(self@ * weight@, 1000),
    {
        let raw_score: i128 = self.0 as i128;
        let raw_weight: i128 = weight.raw() as i128;
        proof {
            lemma_i64_product_bound(self.0 as int, weight@ as int);
        }
        let product: i128 = raw_score * raw_weight;
        let scaled = div_toward_zero(product, WEIGHT_SCALE as i128);
        if scaled > i64::MAX as i128 || scaled < i64::MIN as i128 {
            None
        } else {
            Some(Score(scaled as i64))
        }
    }

    /// Multiplication by a `FixedWeight`: `score * weight / 1000`, rounded toward zero and
    /// clamped to the `i64` range.
    pub fn saturating_mul_weight(self, weight: FixedWeight) -> (r: Score)
        ensures
            r@ == clamp_i64(trunc_div(self@ * weight@, 1000)),
    {
        let raw_score: i128 = self.0 as i128;
        let raw_weight: i128 = weight.raw() as i128;
        proof {
            lemma_i64_product_bound(self.0 as int, weight@ as int);
        }
        let product: i128 = raw_score * raw_weight;
        let scaled = div_toward_zero(product, WEIGHT_SCALE as i128);
        Score(clamp_i128(scaled))
    }

    /// Deterministic normalization: `(self * scale + divisor / 2) / divisor`.
    ///
    /// Fails when `divisor` is zero or when the result leaves the `i64` range.
    pub fn normalized(self, scale: i64, divisor: u64) -> (r: Result<Score, String>)
        ensures
            r is Ok <==> (divisor != 0 && fits_i64(
                normalized_value(self@ as int, scale as int, divisor as int),
            )),
            r matches Ok(s) ==> s@ == normalized_value(self@ as int, scale as int, divisor as int),
    {
        if divisor == 0 {
            return Err(crate::text::string_from_chars(
                &['D', 'i', 'v', 'i', 's', 'i', 'o', 'n', ' ', 'b', 'y', ' ', 'z', 'e', 'r', 'o', ' ',
                    'i', 'n', ' ', 'n', 'o', 'r', 'm', 'a', 'l', 'i', 'z', 'a', 't', 'i', 'o', 'n'],
            ));
        }
        let accumulated: i128 = self.0 as i128;
        let scale_128: i128 = scale as i128;
        let divisor_128: i128 = divisor as i128;
        proof {
            lemma_i64_product_bound(self.0 as int, scale as int);
        }
        let product: i128 = accumulated * scale_128;
        let rounding: i128 = divisor_128 / 2;
        let result = div_toward_zero(product + rounding, divisor_128);
        if result > i64::MAX as i128 || result < i64::MIN as i128 {
            return Err(crate::text::string_from_chars(
                &['N', 'o', 'r', 'm', 'a', 'l', 'i', 'z', 'a', 't', 'i', 'o', 'n', ' ', 'o', 'v', 'e',
                    'r', 'f', 'l', 'o', 'w', 'e', 'd', ' ', 'i', '6', '4'],
            ));
        }
        Ok(Score(result as i64))
    }

    /// Sum of a slice of scores, each addition saturating.
    pub fn sum_saturating(items: &[Score]) -> (r: Score)
        ensures
            r@ == sum_saturating_spec(items@),
    {
        let mut acc = Score(0);
        let mut i: usize = 0;
        while i < items.len()
            invariant
                i <= items@.len(),
                acc@ == sum_saturating_spec(items@.subrange(0, i as int)),
            decreases items.len() - i,
        {
            assert(items@.subrange(0, i + 1).drop_last() == items@.subrange(0, i as int));
            acc = acc.saturating_add(items[i]);
            i += 1;
        }
        assert(items@.subrange(0, items@.len() as int) == items@);
        acc
    }
}

/// Left-to-right saturating sum of a sequence of scores.
pub open spec fn sum_saturating_spec(items: Seq<Score>) -> i64
    decreases items.len(),
{
    if items.len() == 0 {
        0
    } else {
        clamp_i64(sum_saturating_spec(items.drop_last()) + items.last()@)
    }
}

/// Clamps an `i128` into the `i64` range.
fn clamp_i128(v: i128) -> (r: i64)
    ensures
        r == clamp_i64(v as int),
{
    if v > i64::MAX as i128 {
        i64::MAX
    } else if v < i64::MIN as i128 {
        i64::MIN
    } else {
        v as i64
    }
}

/// The product of two `i64` values fits comfortably in an `i128`.
proof fn lemma_i64_product_bound(a: int, b: int)
    requires
        i64::MIN <= a <= i64::MAX,
        i64::MIN <= b <= i64::MAX,
    ensures
        -0x4000_0000_0000_0000_0000_0000_0000_0000 <= a * b <= 0x4000_0000_0000_0000_0000_0000_0000_0000,
{
    assert(-0x4000_0000_0000_0000_0000_0000_0000_0000 <= a * b <= 0x4000_0000_0000_0000_0000_0000_0000_0000)
        by (nonlinear_arith)
        requires
            -0x8000_0000_0000_0000 <= a <= 0x7fff_ffff_ffff_ffff,
            -0x8000_0000_0000_0000 <= b <= 0x7fff_ffff_ffff_ffff,
    ;
}

impl core::ops::Add for Score {
    type Output = Score;

    /// Saturating addition.
    fn add(self, rhs: Score) -> (r: Score)
        ensures
            r@ == clamp_i64(self@ + rhs@),
    {
        self.saturating_add(rhs)
    }
}

impl vstd::std_specs::ops::AddSpecImpl for Score {
    open spec fn obeys_add_spec() -> bool {
        true
    }

    open spec fn add_req(self, rhs: Score) -> bool {
        true
    }

    closed spec fn add_spec(self, rhs: Score) -> Score {
        Score(clamp_i64(self.0 + rhs.0))
    }
}

impl core::ops::Sub for Score {
    type Output = Score;

    /// Saturating subtraction.
    fn sub(self, rhs: Score) -> (r: Score)
        ensures
            r@ == clamp_i64(self@ - rhs@),
    {
        self.saturating_sub(rhs)
    }
}

impl vstd::std_specs::ops::SubSpecImpl for Score {
    open spec fn obeys_sub_spec() -> bool {
        true
    }

    open spec fn sub_req(self, rhs: Score) -> bool {
        true
    }

    closed spec fn sub_spec(self, rhs: Score) -> Score {
        Score(clamp_i64(self.0 - rhs.0))
    }
}

impl core::ops::Mul<i64> for Score {
    type Output = Score;

    /// Saturating multiplication by a scalar.
    fn mul(self, rhs: i64) -> (r: Score)
        ensures
            r@ == clamp_i64(self@ * rhs),
    {
        self.saturating_mul(rhs)
    }
}

impl vstd::std_specs::ops::MulSpecImpl<i64> for Score {
    open spec fn obeys_mul_spec() -> bool {
        true
    }

    open spec fn mul_req(self, rhs: i64) -> bool {
        true
    }

    closed spec fn mul_spec(self, rhs: i64) -> Score {
        Score(clamp_i64(self.0 * rhs))
    }
}

impl core::ops::Mul<FixedWeight> for Score {
    type Output = Score;

    /// Saturating multiplication by a weight.
    fn mul(self, rhs: FixedWeight) -> (r: Score)
        ensures
            r@ == clamp_i64(trunc_div(self@ * rhs@, 1000)),
    {
        self.saturating_mul_weight(rhs)
    }
}

impl vstd::std_specs::ops::MulSpecImpl<FixedWeight> for Score {
    open spec fn obeys_mul_spec() -> bool {
        true
    }

    open spec fn mul_req(self, rhs: FixedWeight) -> bool {
        true
    }

    closed spec fn mul_spec(self, rhs: FixedWeight) -> Score {
        Score(clamp_i64(trunc_div(self.0 * rhs@, 1000)))
    }
}

impl core::ops::Neg for Score {
    type Output = Score;

    /// Saturating negation.
    fn neg(self) -> (r: Score)
        ensures
            r@ == clamp_i64(-self@),
    {
        self.saturating_neg()
    }
}

impl vstd::std_specs::ops::NegSpecImpl for Score {
    open spec fn obeys_neg_spec() -> bool {
        true
    }

    open spec fn neg_req(self) -> bool {
        true
    }

    closed spec fn neg_spec(self) -> Score {
        Score(clamp_i64(-self.0))
    }
}

impl Default for Score {
    fn default() -> (r: Score)
        ensures
            r@ == 0,
    {
        Score(0)
    }
}

/// Represents a relative weight in deterministic fixed-point units (1,000 units = 1.0).
#[derive(Debug, Clone, Copy, PartialEq, Eq, Structural, PartialOrd, Ord, Hash)]
pub struct FixedWeight(i32);

impl View for FixedWeight {
    type V = i32;

    closed spec fn view(&self) -> i32 {
        self.0
    }
}

impl FixedWeight {
    /// Zero weight.
    pub fn zero() -> (r: Self)
        ensures
            r@ == 0,
    {
        FixedWeight(0)
    }

    /// Unit weight (1.0, i.e. 1,000 units).
    pub fn unit() -> (r: Self)
        ensures
            r@ == 1000,
    {
        FixedWeight(WEIGHT_SCALE)
    }

    /// Creates a weight from a raw scaled value.
    pub fn from_raw(val: i32) -> (r: Self)
        ensures
            r@ == val,
    {
        FixedWeight(val)
    }

    /// Returns the raw scaled value.
    pub fn raw(self) -> (r: i32)
        ensures
            r == self@,
    {
        self.0
    }
}

impl Default for FixedWeight {
    fn default() -> (r: FixedWeight)
        ensures
            r@ == 0,
    {
        FixedWeight(0)
    }
}

/// Where checked addition succeeds, saturating addition gives the same sum; where it
/// fails, saturating addition gives the bound on the side of the overflow.
pub proof fn lemma_checked_add_agrees_with_saturating(a: i64, b: i64)
    ensures
        fits_i64(a + b) ==> clamp_i64(a + b) == a + b,
        a + b > i64::MAX ==> clamp_i64(a + b) == i64::MAX,
        a + b < i64::MIN ==> clamp_i64(a + b) == i64::MIN,
        clamp_i64(a + b) == clamp_i64(b + a),
{
}

/// Where checked multiplication by a weight succeeds, saturating multiplication gives
/// the same product.
pub proof fn lemma_checked_mul_weight_agrees_with_saturating(a: i64, w: i32)
    ensures
        fits_i64(trunc_div(a * w, 1000)) ==> clamp_i64(trunc_div(a * w, 1000)) == trunc_div(a * w, 1000),
{
}

} // verus!
