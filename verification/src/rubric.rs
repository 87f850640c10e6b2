//! The scoring rubric: what each kind of movement costs.
//!
//! Scores are fixed-point values in millionths. A `Rubric` wraps a `RawRubric`
//! (the plain record that is read and written) and is built with `RubricBuilder`.

use vstd::prelude::*;
use vstd::string::*;
use crate::config::weights::{
    DEFAULT_BONUS_INWARD_ROLL, DEFAULT_FINGER_PENALTY_SCALE_ARRAY, DEFAULT_LOADER_TRIGRAM_LIMIT,
    DEFAULT_PENALTY_REDIRECT, DEFAULT_PENALTY_SCISSOR, DEFAULT_PENALTY_SFB_BASE,
    DEFAULT_PENALTY_SFB_DIAGONAL, DEFAULT_PENALTY_SFB_LATERAL, DEFAULT_PENALTY_SFB_LATERAL_WEAK,
    DEFAULT_PENALTY_SFB_LONG, DEFAULT_TRIGRAM_COVERAGE, DEFAULT_WEIGHT_LATERAL_TRAVEL,
    DEFAULT_WEIGHT_VERTICAL_TRAVEL,
};
use crate::constants::{DEFAULT_THRESHOLD_SCISSOR_ROW_DIFF, DEFAULT_THRESHOLD_SFB_LONG_ROW_DIFF};
use crate::error::ForgeError;
use crate::types::Score;
use crate::types::scoring::score_text;

verus! {

/// Default outward roll bonus (15.0).
pub const DEFAULT_ROLL_OUT_BONUS: i64 = 15_000_000;

/// The plain record of a rubric, as read and written.
#[derive(Debug, Clone)]
pub struct RawRubric {
    /// Effort multipliers for each finger (0 = thumb, 4 = pinky).
    pub finger_effort: [Score; 5],
    /// The lateral travel weight.
    pub travel_lat: Score,
    /// The vertical travel weight.
    pub travel_vert: Score,
    /// The base same-finger bigram penalty.
    pub sfb_base: Score,
    /// The lateral same-finger bigram penalty.
    pub sfb_lateral: Score,
    /// The weak-finger lateral same-finger bigram penalty.
    pub sfb_lateral_weak: Score,
    /// The diagonal same-finger bigram penalty.
    pub sfb_diagonal: Score,
    /// The long same-finger bigram penalty.
    pub sfb_long: Score,
    /// The row difference threshold for long same-finger bigrams.
    pub threshold_sfb_long_row_diff: i8,
    /// The scissor penalty.
    pub penalty_scissor: Score,
    /// The row difference threshold for scissors.
    pub threshold_scissor_row_diff: i8,
    /// The redirect penalty.
    pub redirect: Score,
    /// The inward roll bonus.
    pub roll_bonus: Score,
    /// The outward roll bonus.
    pub roll_out_bonus: Score,
    /// The required trigram coverage.
    pub trigram_coverage: Score,
    /// The largest number of trigrams considered.
    pub trigram_limit: usize,
}

/// The default rubric.
pub open spec fn is_default_raw(r: RawRubric) -> bool {
    &&& r.finger_effort@.len() == 5
    &&& forall|i: int| 0 <= i < 5 ==> (#[trigger] r.finger_effort@[i])@ == DEFAULT_FINGER_PENALTY_SCALE_ARRAY@[i]
    &&& r.travel_lat@ == DEFAULT_WEIGHT_LATERAL_TRAVEL
    &&& r.travel_vert@ == DEFAULT_WEIGHT_VERTICAL_TRAVEL
    &&& r.sfb_base@ == DEFAULT_PENALTY_SFB_BASE
    &&& r.sfb_lateral@ == DEFAULT_PENALTY_SFB_LATERAL
    &&& r.sfb_lateral_weak@ == DEFAULT_PENALTY_SFB_LATERAL_WEAK
    &&& r.sfb_diagonal@ == DEFAULT_PENALTY_SFB_DIAGONAL
    &&& r.sfb_long@ == DEFAULT_PENALTY_SFB_LONG
    &&& r.threshold_sfb_long_row_diff == DEFAULT_THRESHOLD_SFB_LONG_ROW_DIFF
    &&& r.penalty_scissor@ == DEFAULT_PENALTY_SCISSOR
    &&& r.threshold_scissor_row_diff == DEFAULT_THRESHOLD_SCISSOR_ROW_DIFF
    &&& r.redirect@ == DEFAULT_PENALTY_REDIRECT
    &&& r.roll_bonus@ == DEFAULT_BONUS_INWARD_ROLL
    &&& r.roll_out_bonus@ == DEFAULT_ROLL_OUT_BONUS
    &&& r.trigram_coverage@ == DEFAULT_TRIGRAM_COVERAGE
    &&& r.trigram_limit == DEFAULT_LOADER_TRIGRAM_LIMIT
}

impl Default for RawRubric {
    fn default() -> (r: Self)
        ensures
            is_default_raw(r),
    {
        let sc = DEFAULT_FINGER_PENALTY_SCALE_ARRAY;
        RawRubric {
            finger_effort: [
                Score::from_scaled_i64(sc[0]),
                Score::from_scaled_i64(sc[1]),
                Score::from_scaled_i64(sc[2]),
                Score::from_scaled_i64(sc[3]),
                Score::from_scaled_i64(sc[4]),
            ],
            travel_lat: Score::from_scaled_i64(DEFAULT_WEIGHT_LATERAL_TRAVEL),
            travel_vert: Score::from_scaled_i64(DEFAULT_WEIGHT_VERTICAL_TRAVEL),
            sfb_base: Score::from_scaled_i64(DEFAULT_PENALTY_SFB_BASE),
            sfb_lateral: Score::from_scaled_i64(DEFAULT_PENALTY_SFB_LATERAL),
            sfb_lateral_weak: Score::from_scaled_i64(DEFAULT_PENALTY_SFB_LATERAL_WEAK),
            sfb_diagonal: Score::from_scaled_i64(DEFAULT_PENALTY_SFB_DIAGONAL),
            sfb_long: Score::from_scaled_i64(DEFAULT_PENALTY_SFB_LONG),
            threshold_sfb_long_row_diff: DEFAULT_THRESHOLD_SFB_LONG_ROW_DIFF,
            penalty_scissor: Score::from_scaled_i64(DEFAULT_PENALTY_SCISSOR),
            threshold_scissor_row_diff: DEFAULT_THRESHOLD_SCISSOR_ROW_DIFF,
            redirect: Score::from_scaled_i64(DEFAULT_PENALTY_REDIRECT),
            roll_bonus: Score::from_scaled_i64(DEFAULT_BONUS_INWARD_ROLL),
            roll_out_bonus: Score::from_scaled_i64(DEFAULT_ROLL_OUT_BONUS),
            trigram_coverage: Score::from_scaled_i64(DEFAULT_TRIGRAM_COVERAGE),
            trigram_limit: DEFAULT_LOADER_TRIGRAM_LIMIT,
        }
    }
}

/// The message for a negative penalty.
pub open spec fn negative_penalty_message(name: Seq<char>, v: int) -> Seq<char> {
    "Penalty "@ + name + " must be non-negative, found "@ + score_text(v)
}

/// The first problem with a rubric: trigram coverage outside `[0, 1]`, a zero trigram
/// limit, or a negative penalty (base, lateral, weak lateral, diagonal and long
/// same-finger bigrams, scissor, redirect, in that order).
pub open spec fn rubric_error(r: RawRubric) -> Option<Seq<char>> {
    if r.trigram_coverage@ < 0 || r.trigram_coverage@ > 1_000_000 {
        Some("Trigram coverage must be between 0.0 and 1.0, found "@ + score_text(r.trigram_coverage@ as int))
    } else if r.trigram_limit == 0 {
        Some("Trigram limit must be greater than 0"@)
    } else if r.sfb_base@ < 0 {
        Some(negative_penalty_message("sfb_base"@, r.sfb_base@ as int))
    } else if r.sfb_lateral@ < 0 {
        Some(negative_penalty_message("sfb_lateral"@, r.sfb_lateral@ as int))
    } else if r.sfb_lateral_weak@ < 0 {
        Some(negative_penalty_message("sfb_lateral_weak"@, r.sfb_lateral_weak@ as int))
    } else if r.sfb_diagonal@ < 0 {
        Some(negative_penalty_message("sfb_diagonal"@, r.sfb_diagonal@ as int))
    } else if r.sfb_long@ < 0 {
        Some(negative_penalty_message("sfb_long"@, r.sfb_long@ as int))
    } else if r.penalty_scissor@ < 0 {
        Some(negative_penalty_message("penalty_scissor"@, r.penalty_scissor@ as int))
    } else if r.redirect@ < 0 {
        Some(negative_penalty_message("redirect"@, r.redirect@ as int))
    } else {
        None
    }
}

/// A validated scoring configuration.
#[derive(Debug, Clone)]
pub struct Rubric {
    inner: RawRubric,
}

impl Rubric {
    /// The record behind the rubric.
    pub closed spec fn spec_raw(self) -> RawRubric {
        self.inner
    }
}

impl Default for Rubric {
    fn default() -> (r: Self)
        ensures
            is_default_raw(r.spec_raw()),
    {
        Rubric { inner: RawRubric::default() }
    }
}

impl From<RawRubric> for Rubric {
    fn from(raw: RawRubric) -> (r: Self)
        ensures
            r.spec_raw() == raw,
    {
        Rubric { inner: raw }
    }
}

impl vstd::std_specs::convert::FromSpecImpl<RawRubric> for Rubric {
    open spec fn obeys_from_spec() -> bool {
        false
    }

    open spec fn from_spec(raw: RawRubric) -> Self {
        arbitrary()
    }
}

impl From<Rubric> for RawRubric {
    fn from(r: Rubric) -> (raw: Self)
        ensures
            raw == r.spec_raw(),
    {
        r.inner
    }
}

impl vstd::std_specs::convert::FromSpecImpl<Rubric> for RawRubric {
    open spec fn obeys_from_spec() -> bool {
        false
    }

    open spec fn from_spec(r: Rubric) -> Self {
        arbitrary()
    }
}

/// Builder for `Rubric`, starting from the defaults.
#[derive(Debug, Clone)]
pub struct RubricBuilder {
    raw: RawRubric,
}

impl RubricBuilder {
    /// The record the builder would build.
    pub closed spec fn spec_raw(self) -> RawRubric {
        self.raw
    }
}

impl Default for RubricBuilder {
    fn default() -> (r: Self)
        ensures
            is_default_raw(r.spec_raw()),
    {
        RubricBuilder { raw: RawRubric::default() }
    }
}

impl RubricBuilder {
    /// Builds the rubric.
    pub fn build(self) -> (r: Rubric)
        ensures
            r.spec_raw() == self.spec_raw(),
    {
        Rubric::from(self.raw)
    }

    /// Sets the per-finger effort weights (raw values, thumb to pinky).
    pub fn finger_effort(self, effort: [i64; 5]) -> (r: Self)
        ensures
            r.spec_raw().finger_effort@.len() == 5,
            forall|i: int| 0 <= i < 5 ==> (#[trigger] r.spec_raw().finger_effort@[i])@ == effort@[i],
            r.spec_raw() == (RawRubric { finger_effort: r.spec_raw().finger_effort, ..self.spec_raw() }),
    {
        let fe = [
            Score::from_scaled_i64(effort[0]),
            Score::from_scaled_i64(effort[1]),
            Score::from_scaled_i64(effort[2]),
            Score::from_scaled_i64(effort[3]),
            Score::from_scaled_i64(effort[4]),
        ];
        RubricBuilder { raw: RawRubric { finger_effort: fe, ..self.raw } }
    }

    /// Sets the lateral travel weight (raw value).
    pub fn travel_lat(self, value: i64) -> (r: Self)
        ensures
            r.spec_raw().travel_lat@ == value,
            r.spec_raw() == (RawRubric { travel_lat: r.spec_raw().travel_lat, ..self.spec_raw() }),
    {
        RubricBuilder { raw: RawRubric { travel_lat: Score::from_scaled_i64(value), ..self.raw } }
    }

    /// Sets the vertical travel weight (raw value).
    pub fn travel_vert(self, value: i64) -> (r: Self)
        ensures
            r.spec_raw().travel_vert@ == value,
            r.spec_raw() == (RawRubric { travel_vert: r.spec_raw().travel_vert, ..self.spec_raw() }),
    {
        RubricBuilder { raw: RawRubric { travel_vert: Score::from_scaled_i64(value), ..self.raw } }
    }

    /// Sets the base same-finger bigram penalty (raw value).
    pub fn sfb_base(self, value: i64) -> (r: Self)
        ensures
            r.spec_raw().sfb_base@ == value,
            r.spec_raw() == (RawRubric { sfb_base: r.spec_raw().sfb_base, ..self.spec_raw() }),
    {
        RubricBuilder { raw: RawRubric { sfb_base: Score::from_scaled_i64(value), ..self.raw } }
    }

    /// Sets the lateral same-finger bigram penalty (raw value).
    pub fn sfb_lateral(self, value: i64) -> (r: Self)
        ensures
            r.spec_raw().sfb_lateral@ == value,
            r.spec_raw() == (RawRubric { sfb_lateral: r.spec_raw().sfb_lateral, ..self.spec_raw() }),
    {
        RubricBuilder { raw: RawRubric { sfb_lateral: Score::from_scaled_i64(value), ..self.raw } }
    }

    /// Sets the weak-finger lateral same-finger bigram penalty (raw value).
    pub fn sfb_lateral_weak(self, value: i64) -> (r: Self)
        ensures
            r.spec_raw().sfb_lateral_weak@ == value,
            r.spec_raw() == (RawRubric { sfb_lateral_weak: r.spec_raw().sfb_lateral_weak, ..self.spec_raw() }),
    {
        RubricBuilder { raw: RawRubric { sfb_lateral_weak: Score::from_scaled_i64(value), ..self.raw } }
    }

    /// Sets the diagonal same-finger bigram penalty (raw value).
    pub fn sfb_diagonal(self, value: i64) -> (r: Self)
        ensures
            r.spec_raw().sfb_diagonal@ == value,
            r.spec_raw() == (RawRubric { sfb_diagonal: r.spec_raw().sfb_diagonal, ..self.spec_raw() }),
    {
        RubricBuilder { raw: RawRubric { sfb_diagonal: Score::from_scaled_i64(value), ..self.raw } }
    }

    /// Sets the long same-finger bigram penalty (raw value).
    pub fn sfb_long(self, value: i64) -> (r: Self)
        ensures
            r.spec_raw().sfb_long@ == value,
            r.spec_raw() == (RawRubric { sfb_long: r.spec_raw().sfb_long, ..self.spec_raw() }),
    {
        RubricBuilder { raw: RawRubric { sfb_long: Score::from_scaled_i64(value), ..self.raw } }
    }

    /// Sets the scissor penalty (raw value).
    pub fn penalty_scissor(self, value: i64) -> (r: Self)
        ensures
            r.spec_raw().penalty_scissor@ == value,
            r.spec_raw() == (RawRubric { penalty_scissor: r.spec_raw().penalty_scissor, ..self.spec_raw() }),
    {
        RubricBuilder { raw: RawRubric { penalty_scissor: Score::from_scaled_i64(value), ..self.raw } }
    }

    /// Sets the redirect penalty (raw value).
    pub fn redirect(self, value: i64) -> (r: Self)
        ensures
            r.spec_raw().redirect@ == value,
            r.spec_raw() == (RawRubric { redirect: r.spec_raw().redirect, ..self.spec_raw() }),
    {
        RubricBuilder { raw: RawRubric { redirect: Score::from_scaled_i64(value), ..self.raw } }
    }

    /// Sets the inward roll bonus (raw value).
    pub fn roll_bonus(self, value: i64) -> (r: Self)
        ensures
            r.spec_raw().roll_bonus@ == value,
            r.spec_raw() == (RawRubric { roll_bonus: r.spec_raw().roll_bonus, ..self.spec_raw() }),
    {
        RubricBuilder { raw: RawRubric { roll_bonus: Score::from_scaled_i64(value), ..self.raw } }
    }

    /// Sets the outward roll bonus (raw value).
    pub fn roll_out_bonus(self, value: i64) -> (r: Self)
        ensures
            r.spec_raw().roll_out_bonus@ == value,
            r.spec_raw() == (RawRubric { roll_out_bonus: r.spec_raw().roll_out_bonus, ..self.spec_raw() }),
    {
        RubricBuilder { raw: RawRubric { roll_out_bonus: Score::from_scaled_i64(value), ..self.raw } }
    }

    /// Sets the required trigram coverage (raw value).
    pub fn trigram_coverage(self, value: i64) -> (r: Self)
        ensures
            r.spec_raw().trigram_coverage@ == value,
            r.spec_raw() == (RawRubric { trigram_coverage: r.spec_raw().trigram_coverage, ..self.spec_raw() }),
    {
        RubricBuilder { raw: RawRubric { trigram_coverage: Score::from_scaled_i64(value), ..self.raw } }
    }

    /// Sets the row difference threshold for long same-finger bigrams.
    pub fn threshold_sfb_long_row_diff(self, value: i8) -> (r: Self)
        ensures
            r.spec_raw() == (RawRubric { threshold_sfb_long_row_diff: value, ..self.spec_raw() }),
    {
        RubricBuilder { raw: RawRubric { threshold_sfb_long_row_diff: value, ..self.raw } }
    }

    /// Sets the row difference threshold for scissors.
    pub fn threshold_scissor_row_diff(self, value: i8) -> (r: Self)
        ensures
            r.spec_raw() == (RawRubric { threshold_scissor_row_diff: value, ..self.spec_raw() }),
    {
        RubricBuilder { raw: RawRubric { threshold_scissor_row_diff: value, ..self.raw } }
    }

    /// Sets the largest number of trigrams considered.
    pub fn trigram_limit(self, value: usize) -> (r: Self)
        ensures
            r.spec_raw() == (RawRubric { trigram_limit: value, ..self.spec_raw() }),
    {
        RubricBuilder { raw: RawRubric { trigram_limit: value, ..self.raw } }
    }
}

/// The message for a negative penalty named `name`.
fn negative_penalty(name: &str, v: Score) -> (r: ForgeError)
    ensures
        r matches ForgeError::InvalidData(m) && m@ == negative_penalty_message(name@, v@ as int),
{
    let mut m = String::from_str("Penalty ");
    m.append(name);
    m.append(" must be non-negative, found ");
    m.append(v.display_string().as_str());
    ForgeError::InvalidData(m)
}

impl Rubric {
    /// Creates a builder starting from the defaults.
    pub fn builder() -> (r: RubricBuilder)
        ensures
            is_default_raw(r.spec_raw()),
    {
        RubricBuilder::default()
    }

    /// The per-finger effort weights.
    pub fn finger_effort(&self) -> (r: &[Score; 5])
        ensures
            *r == self.spec_raw().finger_effort,
    {
        &self.inner.finger_effort
    }

    /// The lateral travel weight.
    pub fn travel_lat(&self) -> (r: Score)
        ensures
            r == self.spec_raw().travel_lat,
    {
        self.inner.travel_lat
    }

    /// The vertical travel weight.
    pub fn travel_vert(&self) -> (r: Score)
        ensures
            r == self.spec_raw().travel_vert,
    {
        self.inner.travel_vert
    }

    /// The base same-finger bigram penalty.
    pub fn sfb_base(&self) -> (r: Score)
        ensures
            r == self.spec_raw().sfb_base,
    {
        self.inner.sfb_base
    }

    /// The lateral same-finger bigram penalty.
    pub fn sfb_lateral(&self) -> (r: Score)
        ensures
            r == self.spec_raw().sfb_lateral,
    {
        self.inner.sfb_lateral
    }

    /// The weak-finger lateral same-finger bigram penalty.
    pub fn sfb_lateral_weak(&self) -> (r: Score)
        ensures
            r == self.spec_raw().sfb_lateral_weak,
    {
        self.inner.sfb_lateral_weak
    }

    /// The diagonal same-finger bigram penalty.
    pub fn sfb_diagonal(&self) -> (r: Score)
        ensures
            r == self.spec_raw().sfb_diagonal,
    {
        self.inner.sfb_diagonal
    }

    /// The long same-finger bigram penalty.
    pub fn sfb_long(&self) -> (r: Score)
        ensures
            r == self.spec_raw().sfb_long,
    {
        self.inner.sfb_long
    }

    /// The scissor penalty.
    pub fn penalty_scissor(&self) -> (r: Score)
        ensures
            r == self.spec_raw().penalty_scissor,
    {
        self.inner.penalty_scissor
    }

    /// The redirect penalty.
    pub fn redirect(&self) -> (r: Score)
        ensures
            r == self.spec_raw().redirect,
    {
        self.inner.redirect
    }

    /// The inward roll bonus.
    pub fn roll_bonus(&self) -> (r: Score)
        ensures
            r == self.spec_raw().roll_bonus,
    {
        self.inner.roll_bonus
    }

    /// The outward roll bonus.
    pub fn roll_out_bonus(&self) -> (r: Score)
        ensures
            r == self.spec_raw().roll_out_bonus,
    {
        self.inner.roll_out_bonus
    }

    /// The required trigram coverage.
    pub fn trigram_coverage(&self) -> (r: Score)
        ensures
            r == self.spec_raw().trigram_coverage,
    {
        self.inner.trigram_coverage
    }

    /// The row difference threshold for long same-finger bigrams.
    pub fn threshold_sfb_long_row_diff(&self) -> (r: i8)
        ensures
            r == self.spec_raw().threshold_sfb_long_row_diff,
    {
        self.inner.threshold_sfb_long_row_diff
    }

    /// The row difference threshold for scissors.
    pub fn threshold_scissor_row_diff(&self) -> (r: i8)
        ensures
            r == self.spec_raw().threshold_scissor_row_diff,
    {
        self.inner.threshold_scissor_row_diff
    }

    /// The largest number of trigrams considered.
    pub fn trigram_limit(&self) -> (r: usize)
        ensures
            r == self.spec_raw().trigram_limit,
    {
        self.inner.trigram_limit
    }

    /// Checks the rubric: trigram coverage within `[0, 1]`, a positive trigram limit and
    /// non-negative penalties. A failure is reported as invalid data.
    pub fn validate(&self) -> (r: Result<(), ForgeError>)
        ensures
            r is Ok <==> rubric_error(self.spec_raw()) is None,
            r matches Err(e) ==> e matches ForgeError::InvalidData(m)
                && rubric_error(self.spec_raw()) == Some(m@),
    {
        let raw = &self.inner;
        let cov = raw.trigram_coverage.raw();
        if cov < 0 || cov > 1_000_000 {
            let mut m = String::from_str("Trigram coverage must be between 0.0 and 1.0, found ");
            m.append(raw.trigram_coverage.display_string().as_str());
            return Err(ForgeError::InvalidData(m));
        }
        if raw.trigram_limit == 0 {
            return Err(ForgeError::InvalidData(String::from_str("Trigram limit must be greater than 0")));
        }
        if raw.sfb_base.raw() < 0 {
            return Err(negative_penalty("sfb_base", raw.sfb_base));
        }
        if raw.sfb_lateral.raw() < 0 {
            return Err(negative_penalty("sfb_lateral", raw.sfb_lateral));
        }
        if raw.sfb_lateral_weak.raw() < 0 {
            return Err(negative_penalty("sfb_lateral_weak", raw.sfb_lateral_weak));
        }
        if raw.sfb_diagonal.raw() < 0 {
            return Err(negative_penalty("sfb_diagonal", raw.sfb_diagonal));
        }
        if raw.sfb_long.raw() < 0 {
            return Err(negative_penalty("sfb_long", raw.sfb_long));
        }
        if raw.penalty_scissor.raw() < 0 {
            return Err(negative_penalty("penalty_scissor", raw.penalty_scissor));
        }
        if raw.redirect.raw() < 0 {
            return Err(negative_penalty("redirect", raw.redirect));
        }
        Ok(())
    }
}

} // verus!
