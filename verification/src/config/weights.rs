//! Default scoring weights. Scores are fixed-point values in millionths
//! (`1_000_000` is 1.0); each constant here is such a raw value.

pub mod settings;

use vstd::prelude::*;

pub use settings::ScoringWeights;
pub use crate::constants::{DEFAULT_THRESHOLD_SCISSOR_ROW_DIFF, DEFAULT_THRESHOLD_SFB_LONG_ROW_DIFF};

verus! {

/// Largest weight accepted as safe (100 million).
pub const MAX_SAFE_WEIGHT: i64 = 100_000_000_000_000;
/// Largest number of trigrams a loader may be asked for.
pub const MAX_LOADER_TRIGRAM_LIMIT: usize = 50_000;
/// Same-finger repeat on a weak finger.
pub const DEFAULT_PENALTY_SFR_WEAK_FINGER: i64 = 20_000_000;
/// Same-finger repeat on a bad row.
pub const DEFAULT_PENALTY_SFR_BAD_ROW: i64 = 25_000_000;
/// Lateral same-finger repeat.
pub const DEFAULT_PENALTY_SFR_LAT: i64 = 40_000_000;
/// Lateral same-finger bigram.
pub const DEFAULT_PENALTY_SFB_LATERAL: i64 = 65_000_000;
/// Lateral same-finger bigram on a weak finger.
pub const DEFAULT_PENALTY_SFB_LATERAL_WEAK: i64 = 160_000_000;
/// Base same-finger bigram.
pub const DEFAULT_PENALTY_SFB_BASE: i64 = 400_000_000;
/// Addition for an outward same-finger bigram.
pub const DEFAULT_PENALTY_SFB_OUTWARD_ADDER: i64 = 10_000_000;
/// Diagonal same-finger bigram.
pub const DEFAULT_PENALTY_SFB_DIAGONAL: i64 = 240_000_000;
/// Long same-finger bigram.
pub const DEFAULT_PENALTY_SFB_LONG: i64 = 280_000_000;
/// Same-finger bigram on the bottom row.
pub const DEFAULT_PENALTY_SFB_BOTTOM: i64 = 45_000_000;
/// Weight of weak-finger same-finger bigrams.
pub const DEFAULT_WEIGHT_WEAK_FINGER_SFB: i64 = 2_700_000;
/// Reach at which a monogram counts as a stretch.
pub const DEFAULT_THRESHOLD_REACH_STRETCH: i64 = 1_200_000;
/// Scissor.
pub const DEFAULT_PENALTY_SCISSOR: i64 = 25_000_000;
/// Ring-pinky transition.
pub const DEFAULT_PENALTY_RING_PINKY: i64 = 1_300_000;
/// Lateral stretch.
pub const DEFAULT_PENALTY_LATERAL: i64 = 50_000_000;
/// Monogram stretch.
pub const DEFAULT_PENALTY_MONOGRAM_STRETCH: i64 = 20_000_000;
/// Skipgram.
pub const DEFAULT_PENALTY_SKIP: i64 = 20_000_000;
/// Redirect.
pub const DEFAULT_PENALTY_REDIRECT: i64 = 65_000_000;
/// One-hand run.
pub const DEFAULT_PENALTY_HAND_RUN: i64 = 5_000_000;
/// Inward roll bonus.
pub const DEFAULT_BONUS_INWARD_ROLL: i64 = 40_000_000;
/// Inward bigram roll bonus.
pub const DEFAULT_BONUS_BIGRAM_ROLL_IN: i64 = 35_000_000;
/// Outward bigram roll bonus.
pub const DEFAULT_BONUS_BIGRAM_ROLL_OUT: i64 = 25_000_000;
/// High-frequency key in a medium slot.
pub const DEFAULT_PENALTY_HIGH_IN_MED: i64 = 12_000_000;
/// High-frequency key in a low slot.
pub const DEFAULT_PENALTY_HIGH_IN_LOW: i64 = 20_000_000;
/// Medium-frequency key in a prime slot.
pub const DEFAULT_PENALTY_MED_IN_PRIME: i64 = 2_000_000;
/// Medium-frequency key in a low slot.
pub const DEFAULT_PENALTY_MED_IN_LOW: i64 = 2_000_000;
/// Low-frequency key in a prime slot.
pub const DEFAULT_PENALTY_LOW_IN_PRIME: i64 = 15_000_000;
/// Low-frequency key in a medium slot.
pub const DEFAULT_PENALTY_LOW_IN_MED: i64 = 2_000_000;
/// Hand imbalance.
pub const DEFAULT_PENALTY_IMBALANCE: i64 = 200_000_000;
/// Largest tolerated share of one hand.
pub const DEFAULT_MAX_HAND_IMBALANCE: i64 = 550_000;
/// Weight of vertical travel.
pub const DEFAULT_WEIGHT_VERTICAL_TRAVEL: i64 = 1_000_000;
/// Weight of lateral travel.
pub const DEFAULT_WEIGHT_LATERAL_TRAVEL: i64 = 3_500_000;
/// Weight of finger effort.
pub const DEFAULT_WEIGHT_FINGER_EFFORT: i64 = 2_200_000;
/// Penalty for a key missing from the layout.
pub const DEFAULT_PENALTY_MISSING_KEY: i64 = 100_000_000;
/// Default cost of a keystroke, in milliseconds.
pub const DEFAULT_COST_MS: i64 = 120_000_000;
/// Default number of trigrams loaded.
pub const DEFAULT_LOADER_TRIGRAM_LIMIT: usize = 3000;
/// Default share of trigram frequency to cover.
pub const DEFAULT_TRIGRAM_COVERAGE: i64 = 990_000;
/// Default effort scale per finger, thumb to pinky.
pub const DEFAULT_FINGER_PENALTY_SCALE_ARRAY: [i64; 5] = [0, 1_000_000, 1_100_000, 1_300_000, 1_600_000];
/// Default finger pairs for which a scissor is comfortable.
pub const DEFAULT_COMFORTABLE_SCISSORS: &'static str = "21,23,34";

} // verus!
