//! Character tiers, critical bigrams and finger repeat scales.

use vstd::prelude::*;
use vstd::string::*;
use crate::config::lists::{critical_bigrams, split_pieces, trimmed_piece_bytes, two_byte_pieces};
use crate::text::{decimal, u64_to_decimal};
use crate::types::Score;
use crate::validator::Validator;

verus! {

/// Default high-priority characters (home row candidates).
pub const DEFAULT_TIER_HIGH: &'static str = "etaoinshr";
/// Default medium-priority characters.
pub const DEFAULT_TIER_MED: &'static str = "ldcumwfgypb.,";
/// Default low-priority characters.
pub const DEFAULT_TIER_LOW: &'static str = "vkjxqz/;";
/// Default bigrams that the layout must serve well.
pub const DEFAULT_CRITICAL_BIGRAMS: &'static str = "th,he,in,er,an,re,nd,ou";
/// Default finger repeat scales (thumb, index, middle, ring, pinky), as scores.
pub const DEFAULT_FINGER_REPEAT_SCALE_ARRAY: [i64; 5] = [1_000_000, 1_000_000, 1_000_000, 1_200_000, 1_500_000];

/// Character tiers and critical bigrams.
#[derive(Debug, Clone)]
pub struct LayoutDefinitions {
    /// High-priority characters (home row candidates).
    pub tier_high_chars: String,
    /// Medium-priority characters.
    pub tier_med_chars: String,
    /// Low-priority characters.
    pub tier_low_chars: String,
    /// Comma-separated bigrams that the layout must serve well.
    pub critical_bigrams: String,
    /// Scale factors of finger repeat penalties (thumb, index, middle, ring, pinky).
    pub finger_repeat_scale: [Score; 5],
}

/// The first negative finger repeat scale at or after position `k`.
pub open spec fn first_repeat_scale_error(scale: Seq<Score>, k: int) -> Option<Seq<char>>
    decreases 5 - k,
{
    if k < 0 || k >= 5 || k >= scale.len() {
        None
    } else if scale[k]@ < 0 {
        Some("finger_repeat_scale["@ + decimal(k) + "] cannot be negative"@)
    } else {
        first_repeat_scale_error(scale, k + 1)
    }
}

/// The first problem with a set of definitions: an empty high tier, then a negative
/// repeat scale.
pub open spec fn definitions_error(d: LayoutDefinitions) -> Option<Seq<char>> {
    if d.tier_high_chars@.len() == 0 {
        Some("tier_high_chars cannot be empty"@)
    } else {
        first_repeat_scale_error(d.finger_repeat_scale@, 0)
    }
}

impl Default for LayoutDefinitions {
    /// The default tiers, bigrams and scales.
    fn default() -> (r: Self)
        ensures
            r.tier_high_chars@ == DEFAULT_TIER_HIGH@,
            r.tier_med_chars@ == DEFAULT_TIER_MED@,
            r.tier_low_chars@ == DEFAULT_TIER_LOW@,
            r.critical_bigrams@ == DEFAULT_CRITICAL_BIGRAMS@,
            forall|i: int| 0 <= i < 5 ==> (#[trigger] r.finger_repeat_scale@[i])@ == DEFAULT_FINGER_REPEAT_SCALE_ARRAY@[i],
    {
        let sc = DEFAULT_FINGER_REPEAT_SCALE_ARRAY;
        LayoutDefinitions {
            tier_high_chars: String::from_str(DEFAULT_TIER_HIGH),
            tier_med_chars: String::from_str(DEFAULT_TIER_MED),
            tier_low_chars: String::from_str(DEFAULT_TIER_LOW),
            critical_bigrams: String::from_str(DEFAULT_CRITICAL_BIGRAMS),
            finger_repeat_scale: [
                Score::from_scaled_i64(sc[0]),
                Score::from_scaled_i64(sc[1]),
                Score::from_scaled_i64(sc[2]),
                Score::from_scaled_i64(sc[3]),
                Score::from_scaled_i64(sc[4]),
            ],
        }
    }
}

impl Validator for LayoutDefinitions {
    /// Checks that the high tier is not empty and that no repeat scale is negative.
    fn validate(&self) -> (r: Result<(), String>)
        ensures
            match r {
                Ok(()) => definitions_error(*self) is None,
                Err(m) => definitions_error(*self) == Some(m@),
            },
    {
        if self.tier_high_chars.as_str().is_empty() {
            return Err(String::from_str("tier_high_chars cannot be empty"));
        }
        let mut k: usize = 0;
        while k < 5
            invariant
                k <= 5,
                self.finger_repeat_scale@.len() == 5,
                self.tier_high_chars@.len() != 0,
                first_repeat_scale_error(self.finger_repeat_scale@, 0) == first_repeat_scale_error(self.finger_repeat_scale@, k as int),
            decreases 5 - k,
        {
            if self.finger_repeat_scale[k].raw() < 0 {
                let mut m = String::from_str("finger_repeat_scale[");
                m.append(u64_to_decimal(k as u64).as_str());
                m.append("] cannot be negative");
                return Err(m);
            }
            k += 1;
        }
        Ok(())
    }
}

impl LayoutDefinitions {
    /// The critical bigrams: each trimmed comma-separated piece of exactly two bytes,
    /// in order.
    pub fn get_critical_bigrams(&self) -> (r: Vec<[u8; 2]>)
        ensures
            r@ == two_byte_pieces(trimmed_piece_bytes(split_pieces(self.critical_bigrams@, ','))),
    {
        critical_bigrams(self.critical_bigrams.as_str())
    }
}

} // verus!
