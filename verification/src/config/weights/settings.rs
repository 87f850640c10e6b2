//! Scoring weights: named fixed-point weights with defaults, validation and
//! accessors.
//!
//! The weights are a list of (name, score) entries; a name's value is its first
//! entry. The defaults hold each name once.

use vstd::prelude::*;
use vstd::string::*;
use super::{
    DEFAULT_BONUS_BIGRAM_ROLL_IN,
    DEFAULT_BONUS_BIGRAM_ROLL_OUT,
    DEFAULT_BONUS_INWARD_ROLL,
    DEFAULT_COMFORTABLE_SCISSORS,
    DEFAULT_COST_MS,
    DEFAULT_FINGER_PENALTY_SCALE_ARRAY,
    DEFAULT_MAX_HAND_IMBALANCE,
    DEFAULT_PENALTY_HAND_RUN,
    DEFAULT_PENALTY_HIGH_IN_LOW,
    DEFAULT_PENALTY_HIGH_IN_MED,
    DEFAULT_PENALTY_IMBALANCE,
    DEFAULT_PENALTY_LATERAL,
    DEFAULT_PENALTY_LOW_IN_MED,
    DEFAULT_PENALTY_LOW_IN_PRIME,
    DEFAULT_PENALTY_MED_IN_LOW,
    DEFAULT_PENALTY_MED_IN_PRIME,
    DEFAULT_PENALTY_MONOGRAM_STRETCH,
    DEFAULT_PENALTY_REDIRECT,
    DEFAULT_PENALTY_RING_PINKY,
    DEFAULT_PENALTY_SCISSOR,
    DEFAULT_PENALTY_SFB_BASE,
    DEFAULT_PENALTY_SFB_BOTTOM,
    DEFAULT_PENALTY_SFB_DIAGONAL,
    DEFAULT_PENALTY_SFB_LATERAL,
    DEFAULT_PENALTY_SFB_LATERAL_WEAK,
    DEFAULT_PENALTY_SFB_LONG,
    DEFAULT_PENALTY_SFB_OUTWARD_ADDER,
    DEFAULT_PENALTY_SFR_BAD_ROW,
    DEFAULT_PENALTY_SFR_LAT,
    DEFAULT_PENALTY_SFR_WEAK_FINGER,
    DEFAULT_PENALTY_SKIP,
    DEFAULT_THRESHOLD_REACH_STRETCH,
    DEFAULT_TRIGRAM_COVERAGE,
    DEFAULT_WEIGHT_FINGER_EFFORT,
    DEFAULT_WEIGHT_LATERAL_TRAVEL,
    DEFAULT_WEIGHT_VERTICAL_TRAVEL,
    DEFAULT_WEIGHT_WEAK_FINGER_SFB,
    MAX_LOADER_TRIGRAM_LIMIT,
    MAX_SAFE_WEIGHT,
};
use crate::text::{chars_of, contains_substring, decimal, has_substring, u64_to_decimal};
use crate::types::Score;
use crate::types::scoring::score_text;
use crate::validator::Validator;
use crate::config::metadata::{metadata_views, numeric_param, ParamType, ParameterMetadata};

verus! {

/// Default long same-finger bigram row threshold, as a score (2.0).
pub const DEFAULT_THRESHOLD_SFB_LONG_ROW_DIFF_SCORE: i64 = 2_000_000;
/// Default scissor row threshold, as a score (2.0).
pub const DEFAULT_THRESHOLD_SCISSOR_ROW_DIFF_SCORE: i64 = 2_000_000;
/// Default loader trigram limit, as a score (3000.0).
pub const DEFAULT_LOADER_TRIGRAM_LIMIT_SCORE: i64 = 3_000_000_000;

/// Named weights of the scoring model.
#[derive(Debug, Clone)]
pub struct ScoringWeights {
    /// The weights, as (name, value) entries; a name's value is its first entry.
    pub weights: Vec<(String, Score)>,
    /// Finger penalty multipliers (thumb, index, middle, ring, pinky).
    pub finger_penalty_scale: [Score; 5],
    /// Comma-separated list of comfortable scissor finger pairs.
    pub comfortable_scissors: String,
}

/// The entries of a weight list, as (name, raw value).
pub open spec fn weight_entries(v: Seq<(String, Score)>) -> Seq<(Seq<char>, i64)> {
    v.map_values(|e: (String, Score)| (e.0@, e.1@))
}

/// The value of the first entry named `key`.
pub open spec fn find_weight(entries: Seq<(Seq<char>, i64)>, key: Seq<char>) -> Option<i64>
    decreases entries.len(),
{
    if entries.len() == 0 {
        None
    } else if entries[0].0 == key {
        Some(entries[0].1)
    } else {
        find_weight(entries.drop_first(), key)
    }
}

/// The value named `key`, or `default` when there is none.
pub open spec fn weight_or(entries: Seq<(Seq<char>, i64)>, key: Seq<char>, default: i64) -> i64 {
    match find_weight(entries, key) {
        Some(v) => v,
        None => default,
    }
}

/// The default same-finger penalties.
pub open spec fn default_sfb_entries() -> Seq<(Seq<char>, i64)> {
    seq![
        ("penalty_sfr_weak_finger"@, DEFAULT_PENALTY_SFR_WEAK_FINGER),
        ("penalty_sfr_bad_row"@, DEFAULT_PENALTY_SFR_BAD_ROW),
        ("penalty_sfr_lat"@, DEFAULT_PENALTY_SFR_LAT),
        ("penalty_sfb_lateral"@, DEFAULT_PENALTY_SFB_LATERAL),
        ("penalty_sfb_lateral_weak"@, DEFAULT_PENALTY_SFB_LATERAL_WEAK),
        ("penalty_sfb_base"@, DEFAULT_PENALTY_SFB_BASE),
        ("penalty_sfb_outward_adder"@, DEFAULT_PENALTY_SFB_OUTWARD_ADDER),
        ("penalty_sfb_diagonal"@, DEFAULT_PENALTY_SFB_DIAGONAL),
        ("penalty_sfb_long"@, DEFAULT_PENALTY_SFB_LONG),
        ("penalty_sfb_bottom"@, DEFAULT_PENALTY_SFB_BOTTOM),
        ("weight_weak_finger_sfb"@, DEFAULT_WEIGHT_WEAK_FINGER_SFB),
        ("threshold_sfb_long_row_diff"@, DEFAULT_THRESHOLD_SFB_LONG_ROW_DIFF_SCORE),
    ]
}

/// The default movement penalties.
pub open spec fn default_movement_entries() -> Seq<(Seq<char>, i64)> {
    seq![
        ("threshold_scissor_row_diff"@, DEFAULT_THRESHOLD_SCISSOR_ROW_DIFF_SCORE),
        ("threshold_reach_stretch"@, DEFAULT_THRESHOLD_REACH_STRETCH),
        ("penalty_scissor"@, DEFAULT_PENALTY_SCISSOR),
        ("penalty_ring_pinky"@, DEFAULT_PENALTY_RING_PINKY),
        ("penalty_lateral"@, DEFAULT_PENALTY_LATERAL),
        ("penalty_monogram_stretch"@, DEFAULT_PENALTY_MONOGRAM_STRETCH),
        ("penalty_skip"@, DEFAULT_PENALTY_SKIP),
        ("weight_vertical_travel"@, DEFAULT_WEIGHT_VERTICAL_TRAVEL),
        ("weight_lateral_travel"@, DEFAULT_WEIGHT_LATERAL_TRAVEL),
        ("weight_finger_effort"@, DEFAULT_WEIGHT_FINGER_EFFORT),
    ]
}

/// The default flow and placement rules.
pub open spec fn default_dynamic_entries() -> Seq<(Seq<char>, i64)> {
    seq![
        ("penalty_redirect"@, DEFAULT_PENALTY_REDIRECT),
        ("penalty_hand_run"@, DEFAULT_PENALTY_HAND_RUN),
        ("bonus_inward_roll"@, DEFAULT_BONUS_INWARD_ROLL),
        ("bonus_bigram_roll_in"@, DEFAULT_BONUS_BIGRAM_ROLL_IN),
        ("bonus_bigram_roll_out"@, DEFAULT_BONUS_BIGRAM_ROLL_OUT),
        ("penalty_high_in_med"@, DEFAULT_PENALTY_HIGH_IN_MED),
        ("penalty_high_in_low"@, DEFAULT_PENALTY_HIGH_IN_LOW),
        ("penalty_med_in_prime"@, DEFAULT_PENALTY_MED_IN_PRIME),
        ("penalty_med_in_low"@, DEFAULT_PENALTY_MED_IN_LOW),
        ("penalty_low_in_prime"@, DEFAULT_PENALTY_LOW_IN_PRIME),
        ("penalty_low_in_med"@, DEFAULT_PENALTY_LOW_IN_MED),
        ("penalty_imbalance"@, DEFAULT_PENALTY_IMBALANCE),
        ("max_hand_imbalance"@, DEFAULT_MAX_HAND_IMBALANCE),
    ]
}

/// The default loader settings.
pub open spec fn default_loader_entries() -> Seq<(Seq<char>, i64)> {
    seq![
        ("default_cost_ms"@, DEFAULT_COST_MS),
        ("loader_trigram_limit"@, DEFAULT_LOADER_TRIGRAM_LIMIT_SCORE),
        ("trigram_coverage"@, DEFAULT_TRIGRAM_COVERAGE),
    ]
}

/// All default weights, in order.
pub open spec fn default_weight_entries() -> Seq<(Seq<char>, i64)> {
    default_sfb_entries() + default_movement_entries() + default_dynamic_entries() + default_loader_entries()
}

/// Appends the default same-finger penalties.
fn insert_sfb_penalties(weights: &mut Vec<(String, Score)>)
    ensures
        weight_entries(final(weights)@) == weight_entries(old(weights)@) + default_sfb_entries(),
{
    let ghost start = weight_entries(weights@);
    weights.push((String::from_str("penalty_sfr_weak_finger"), Score::from_scaled_i64(DEFAULT_PENALTY_SFR_WEAK_FINGER)));
    weights.push((String::from_str("penalty_sfr_bad_row"), Score::from_scaled_i64(DEFAULT_PENALTY_SFR_BAD_ROW)));
    weights.push((String::from_str("penalty_sfr_lat"), Score::from_scaled_i64(DEFAULT_PENALTY_SFR_LAT)));
    weights.push((String::from_str("penalty_sfb_lateral"), Score::from_scaled_i64(DEFAULT_PENALTY_SFB_LATERAL)));
    weights.push((String::from_str("penalty_sfb_lateral_weak"), Score::from_scaled_i64(DEFAULT_PENALTY_SFB_LATERAL_WEAK)));
    weights.push((String::from_str("penalty_sfb_base"), Score::from_scaled_i64(DEFAULT_PENALTY_SFB_BASE)));
    weights.push((String::from_str("penalty_sfb_outward_adder"), Score::from_scaled_i64(DEFAULT_PENALTY_SFB_OUTWARD_ADDER)));
    weights.push((String::from_str("penalty_sfb_diagonal"), Score::from_scaled_i64(DEFAULT_PENALTY_SFB_DIAGONAL)));
    weights.push((String::from_str("penalty_sfb_long"), Score::from_scaled_i64(DEFAULT_PENALTY_SFB_LONG)));
    weights.push((String::from_str("penalty_sfb_bottom"), Score::from_scaled_i64(DEFAULT_PENALTY_SFB_BOTTOM)));
    weights.push((String::from_str("weight_weak_finger_sfb"), Score::from_scaled_i64(DEFAULT_WEIGHT_WEAK_FINGER_SFB)));
    weights.push((String::from_str("threshold_sfb_long_row_diff"), Score::from_scaled_i64(DEFAULT_THRESHOLD_SFB_LONG_ROW_DIFF_SCORE)));
    assert(weight_entries(weights@) =~= start + default_sfb_entries());
}

/// Appends the default movement penalties.
fn insert_movement_penalties(weights: &mut Vec<(String, Score)>)
    ensures
        weight_entries(final(weights)@) == weight_entries(old(weights)@) + default_movement_entries(),
{
    let ghost start = weight_entries(weights@);
    weights.push((String::from_str("threshold_scissor_row_diff"), Score::from_scaled_i64(DEFAULT_THRESHOLD_SCISSOR_ROW_DIFF_SCORE)));
    weights.push((String::from_str("threshold_reach_stretch"), Score::from_scaled_i64(DEFAULT_THRESHOLD_REACH_STRETCH)));
    weights.push((String::from_str("penalty_scissor"), Score::from_scaled_i64(DEFAULT_PENALTY_SCISSOR)));
    weights.push((String::from_str("penalty_ring_pinky"), Score::from_scaled_i64(DEFAULT_PENALTY_RING_PINKY)));
    weights.push((String::from_str("penalty_lateral"), Score::from_scaled_i64(DEFAULT_PENALTY_LATERAL)));
    weights.push((String::from_str("penalty_monogram_stretch"), Score::from_scaled_i64(DEFAULT_PENALTY_MONOGRAM_STRETCH)));
    weights.push((String::from_str("penalty_skip"), Score::from_scaled_i64(DEFAULT_PENALTY_SKIP)));
    weights.push((String::from_str("weight_vertical_travel"), Score::from_scaled_i64(DEFAULT_WEIGHT_VERTICAL_TRAVEL)));
    weights.push((String::from_str("weight_lateral_travel"), Score::from_scaled_i64(DEFAULT_WEIGHT_LATERAL_TRAVEL)));
    weights.push((String::from_str("weight_finger_effort"), Score::from_scaled_i64(DEFAULT_WEIGHT_FINGER_EFFORT)));
    assert(weight_entries(weights@) =~= start + default_movement_entries());
}

/// Appends the default flow and placement rules.
fn insert_dynamic_rules(weights: &mut Vec<(String, Score)>)
    ensures
        weight_entries(final(weights)@) == weight_entries(old(weights)@) + default_dynamic_entries(),
{
    let ghost start = weight_entries(weights@);
    weights.push((String::from_str("penalty_redirect"), Score::from_scaled_i64(DEFAULT_PENALTY_REDIRECT)));
    weights.push((String::from_str("penalty_hand_run"), Score::from_scaled_i64(DEFAULT_PENALTY_HAND_RUN)));
    weights.push((String::from_str("bonus_inward_roll"), Score::from_scaled_i64(DEFAULT_BONUS_INWARD_ROLL)));
    weights.push((String::from_str("bonus_bigram_roll_in"), Score::from_scaled_i64(DEFAULT_BONUS_BIGRAM_ROLL_IN)));
    weights.push((String::from_str("bonus_bigram_roll_out"), Score::from_scaled_i64(DEFAULT_BONUS_BIGRAM_ROLL_OUT)));
    weights.push((String::from_str("penalty_high_in_med"), Score::from_scaled_i64(DEFAULT_PENALTY_HIGH_IN_MED)));
    weights.push((String::from_str("penalty_high_in_low"), Score::from_scaled_i64(DEFAULT_PENALTY_HIGH_IN_LOW)));
    weights.push((String::from_str("penalty_med_in_prime"), Score::from_scaled_i64(DEFAULT_PENALTY_MED_IN_PRIME)));
    weights.push((String::from_str("penalty_med_in_low"), Score::from_scaled_i64(DEFAULT_PENALTY_MED_IN_LOW)));
    weights.push((String::from_str("penalty_low_in_prime"), Score::from_scaled_i64(DEFAULT_PENALTY_LOW_IN_PRIME)));
    weights.push((String::from_str("penalty_low_in_med"), Score::from_scaled_i64(DEFAULT_PENALTY_LOW_IN_MED)));
    weights.push((String::from_str("penalty_imbalance"), Score::from_scaled_i64(DEFAULT_PENALTY_IMBALANCE)));
    weights.push((String::from_str("max_hand_imbalance"), Score::from_scaled_i64(DEFAULT_MAX_HAND_IMBALANCE)));
    assert(weight_entries(weights@) =~= start + default_dynamic_entries());
}

/// Appends the default loader settings.
fn insert_loader_defaults(weights: &mut Vec<(String, Score)>)
    ensures
        weight_entries(final(weights)@) == weight_entries(old(weights)@) + default_loader_entries(),
{
    let ghost start = weight_entries(weights@);
    weights.push((String::from_str("default_cost_ms"), Score::from_scaled_i64(DEFAULT_COST_MS)));
    weights.push((String::from_str("loader_trigram_limit"), Score::from_scaled_i64(DEFAULT_LOADER_TRIGRAM_LIMIT_SCORE)));
    weights.push((String::from_str("trigram_coverage"), Score::from_scaled_i64(DEFAULT_TRIGRAM_COVERAGE)));
    assert(weight_entries(weights@) =~= start + default_loader_entries());
}

impl Default for ScoringWeights {
    /// The default weights, the default finger scale and the default comfortable scissors.
    fn default() -> (r: Self)
        ensures
            weight_entries(r.weights@) == default_weight_entries(),
            r.well_formed(),
            forall|i: int| 0 <= i < 5 ==> (#[trigger] r.finger_penalty_scale@[i])@ == DEFAULT_FINGER_PENALTY_SCALE_ARRAY@[i],
            r.comfortable_scissors@ == DEFAULT_COMFORTABLE_SCISSORS@,
    {
        let mut weights: Vec<(String, Score)> = Vec::new();
        assert(weight_entries(weights@) =~= Seq::<(Seq<char>, i64)>::empty());
        insert_sfb_penalties(&mut weights);
        insert_movement_penalties(&mut weights);
        insert_dynamic_rules(&mut weights);
        insert_loader_defaults(&mut weights);
        let sc = DEFAULT_FINGER_PENALTY_SCALE_ARRAY;
        let r = ScoringWeights {
            weights,
            finger_penalty_scale: [
                Score::from_scaled_i64(sc[0]),
                Score::from_scaled_i64(sc[1]),
                Score::from_scaled_i64(sc[2]),
                Score::from_scaled_i64(sc[3]),
                Score::from_scaled_i64(sc[4]),
            ],
            comfortable_scissors: String::from_str(DEFAULT_COMFORTABLE_SCISSORS),
        };
        assert(weight_entries(r.weights@) =~= default_weight_entries());
        proof { lemma_default_weights_distinct(); }
        r
    }
}

/// The number of trigrams a raw loader limit stands for: its whole part, or 0 when negative.
pub open spec fn trigram_limit_of(raw: i64) -> int {
    if raw >= 0 { raw / 1_000_000 } else { 0 }
}

/// What is wrong with one weight entry: a negative value for a name without `bonus`,
/// or a value above the safety maximum.
pub open spec fn entry_error(e: (Seq<char>, i64)) -> Option<Seq<char>> {
    if e.1 < 0 && !has_substring(e.0, "bonus"@) {
        Some("Penalty weight '"@ + e.0 + "' cannot be negative"@)
    } else if e.1 > MAX_SAFE_WEIGHT {
        Some("Weight '"@ + e.0 + "' exceeds safety maximum ("@ + score_text(MAX_SAFE_WEIGHT as int) + ")"@)
    } else {
        None
    }
}

/// The first entry error at or after position `k`.
pub open spec fn first_entry_error(entries: Seq<(Seq<char>, i64)>, k: int) -> Option<Seq<char>>
    decreases entries.len() - k,
{
    if k < 0 || k >= entries.len() {
        None
    } else {
        match entry_error(entries[k]) {
            Some(m) => Some(m),
            None => first_entry_error(entries, k + 1),
        }
    }
}

/// The first negative finger scale at or after position `k`.
pub open spec fn first_scale_error(scale: Seq<Score>, k: int) -> Option<Seq<char>>
    decreases 5 - k,
{
    if k < 0 || k >= 5 || k >= scale.len() {
        None
    } else if scale[k]@ < 0 {
        Some("finger_penalty_scale["@ + decimal(k) + "] cannot be negative"@)
    } else {
        first_scale_error(scale, k + 1)
    }
}

/// The first problem with a set of weight entries and finger scales: a trigram limit
/// above the safety maximum, then an offending entry (in list order), then a negative
/// finger scale.
pub open spec fn weights_parts_error(entries: Seq<(Seq<char>, i64)>, scale: Seq<Score>) -> Option<Seq<char>> {
    match find_weight(entries, "loader_trigram_limit"@) {
        Some(l) if trigram_limit_of(l) > MAX_LOADER_TRIGRAM_LIMIT =>
            Some("loader_trigram_limit exceeds safety maximum ("@ + decimal(MAX_LOADER_TRIGRAM_LIMIT as int) + ")"@),
        _ => match first_entry_error(entries, 0) {
            Some(m) => Some(m),
            None => first_scale_error(scale, 0),
        },
    }
}

/// The first problem with a set of weights.
pub open spec fn weights_error(w: ScoringWeights) -> Option<Seq<char>> {
    weights_parts_error(weight_entries(w.weights@), w.finger_penalty_scale@)
}

/// The first entry named `key`, searched from the front.
pub(crate) fn find_weight_exec(weights: &Vec<(String, Score)>, key: &str) -> (r: Option<Score>)
    ensures
        match r {
            Some(s) => find_weight(weight_entries(weights@), key@) == Some(s@),
            None => find_weight(weight_entries(weights@), key@) is None,
        },
{
    let k = String::from_str(key);
    let mut i: usize = 0;
    assert(weight_entries(weights@).skip(0) =~= weight_entries(weights@));
    while i < weights.len()
        invariant
            i <= weights@.len(),
            k@ == key@,
            find_weight(weight_entries(weights@), key@) == find_weight(weight_entries(weights@).skip(i as int), key@),
        decreases weights.len() - i,
    {
        proof {
            let rest = weight_entries(weights@).skip(i as int);
            assert(rest.drop_first() =~= weight_entries(weights@).skip(i + 1));
            assert(rest[0] == (weights@[i as int].0@, weights@[i as int].1@));
        }
        if weights[i].0 == k {
            return Some(weights[i].1);
        }
        i += 1;
    }
    None
}

/// The entries with the first one named `key` given `value`, or with `(key, value)`
/// appended when no entry has that name.
pub open spec fn set_entry(entries: Seq<(Seq<char>, i64)>, key: Seq<char>, value: i64) -> Seq<(Seq<char>, i64)>
    decreases entries.len(),
{
    if entries.len() == 0 {
        seq![(key, value)]
    } else if entries[0].0 == key {
        entries.update(0, (key, value))
    } else {
        seq![entries[0]] + set_entry(entries.drop_first(), key, value)
    }
}

/// No name occurs twice.
pub open spec fn distinct_names(e: Seq<(Seq<char>, i64)>) -> bool {
    forall|i: int, j: int| 0 <= i < j < e.len() ==> (#[trigger] e[i]).0 != (#[trigger] e[j]).0
}

/// The default weights have distinct names.
pub proof fn lemma_default_weights_distinct()
    ensures
        distinct_names(default_weight_entries()),
{
    reveal_strlit("penalty_sfr_weak_finger");
    reveal_strlit("penalty_sfr_bad_row");
    reveal_strlit("penalty_sfr_lat");
    reveal_strlit("penalty_sfb_lateral");
    reveal_strlit("penalty_sfb_lateral_weak");
    reveal_strlit("penalty_sfb_base");
    reveal_strlit("penalty_sfb_outward_adder");
    reveal_strlit("penalty_sfb_diagonal");
    reveal_strlit("penalty_sfb_long");
    reveal_strlit("penalty_sfb_bottom");
    reveal_strlit("weight_weak_finger_sfb");
    reveal_strlit("threshold_sfb_long_row_diff");
    reveal_strlit("threshold_scissor_row_diff");
    reveal_strlit("threshold_reach_stretch");
    reveal_strlit("penalty_scissor");
    reveal_strlit("penalty_ring_pinky");
    reveal_strlit("penalty_lateral");
    reveal_strlit("penalty_monogram_stretch");
    reveal_strlit("penalty_skip");
    reveal_strlit("weight_vertical_travel");
    reveal_strlit("weight_lateral_travel");
    reveal_strlit("weight_finger_effort");
    reveal_strlit("penalty_redirect");
    reveal_strlit("penalty_hand_run");
    reveal_strlit("bonus_inward_roll");
    reveal_strlit("bonus_bigram_roll_in");
    reveal_strlit("bonus_bigram_roll_out");
    reveal_strlit("penalty_high_in_med");
    reveal_strlit("penalty_high_in_low");
    reveal_strlit("penalty_med_in_prime");
    reveal_strlit("penalty_med_in_low");
    reveal_strlit("penalty_low_in_prime");
    reveal_strlit("penalty_low_in_med");
    reveal_strlit("penalty_imbalance");
    reveal_strlit("max_hand_imbalance");
    reveal_strlit("default_cost_ms");
    reveal_strlit("loader_trigram_limit");
    reveal_strlit("trigram_coverage");
    let e = default_weight_entries();
    assert(e =~= default_sfb_entries() + default_movement_entries() + default_dynamic_entries() + default_loader_entries());
    assert forall|i: int, j: int| 0 <= i < j < e.len() implies (#[trigger] e[i]).0 != (#[trigger] e[j]).0 by {
        if e[i].0 == e[j].0 {
            assert(e[i].0.len() == e[j].0.len());
            assert(e[i].0[0] == e[j].0[0]);
            assert(e[i].0[8] == e[j].0[8]);
            assert(e[i].0[e[i].0.len() - 1] == e[j].0[e[j].0.len() - 1]);
        }
    }
}

impl ScoringWeights {
    /// Well formed: no weight name occurs twice, as in a map.
    pub open spec fn well_formed(&self) -> bool {
        distinct_names(weight_entries(self.weights@))
    }
}

proof fn lemma_set_entry_names(e: Seq<(Seq<char>, i64)>, key: Seq<char>, value: i64)
    ensures
        forall|i: int| 0 <= i < set_entry(e, key, value).len() ==> (#[trigger] set_entry(e, key, value)[i]).0 == key
            || exists|j: int| 0 <= j < e.len() && (#[trigger] e[j]).0 == set_entry(e, key, value)[i].0,
    decreases e.len(),
{
    let r = set_entry(e, key, value);
    if e.len() == 0 {
    } else if e[0].0 == key {
        assert forall|i: int| 0 <= i < r.len() implies (#[trigger] r[i]).0 == key
            || exists|j: int| 0 <= j < e.len() && (#[trigger] e[j]).0 == r[i].0 by {
            if i > 0 {
                assert(r[i] == e[i]);
            }
        }
    } else {
        let rest = e.drop_first();
        lemma_set_entry_names(rest, key, value);
        let sr = set_entry(rest, key, value);
        assert(r == seq![e[0]] + sr);
        assert forall|i: int| 0 <= i < r.len() implies (#[trigger] r[i]).0 == key
            || exists|j: int| 0 <= j < e.len() && (#[trigger] e[j]).0 == r[i].0 by {
            if i == 0 {
                assert(e[0].0 == r[0].0);
            } else {
                assert(r[i] == sr[i - 1]);
                if sr[i - 1].0 != key {
                    let j = choose|j: int| 0 <= j < rest.len() && (#[trigger] rest[j]).0 == sr[i - 1].0;
                    assert(rest[j] == e[j + 1]);
                }
            }
        }
    }
}

/// Setting a name keeps the names distinct.
pub proof fn lemma_set_entry_distinct(e: Seq<(Seq<char>, i64)>, key: Seq<char>, value: i64)
    requires
        distinct_names(e),
    ensures
        distinct_names(set_entry(e, key, value)),
    decreases e.len(),
{
    let r = set_entry(e, key, value);
    if e.len() == 0 {
    } else if e[0].0 == key {
        assert forall|i: int, j: int| 0 <= i < j < r.len() implies (#[trigger] r[i]).0 != (#[trigger] r[j]).0 by {
            assert(r[j] == e[j]);
            if i > 0 {
                assert(r[i] == e[i]);
            }
        }
    } else {
        let rest = e.drop_first();
        assert forall|i: int, j: int| 0 <= i < j < rest.len() implies (#[trigger] rest[i]).0 != (#[trigger] rest[j]).0 by {
            assert(rest[i] == e[i + 1] && rest[j] == e[j + 1]);
        }
        lemma_set_entry_distinct(rest, key, value);
        lemma_set_entry_names(rest, key, value);
        let sr = set_entry(rest, key, value);
        assert(r == seq![e[0]] + sr);
        assert forall|i: int, j: int| 0 <= i < j < r.len() implies (#[trigger] r[i]).0 != (#[trigger] r[j]).0 by {
            assert(r[j] == sr[j - 1]);
            if i == 0 {
                assert(r[0] == e[0]);
                if sr[j - 1].0 != key {
                    let q = choose|q: int| 0 <= q < rest.len() && (#[trigger] rest[q]).0 == sr[j - 1].0;
                    assert(rest[q] == e[q + 1]);
                }
            } else {
                assert(r[i] == sr[i - 1]);
            }
        }
    }
}

/// Setting overrides in turn keeps the names distinct.
pub proof fn lemma_apply_overrides_distinct(e: Seq<(Seq<char>, i64)>, overrides: Seq<(Seq<char>, i64)>)
    requires
        distinct_names(e),
    ensures
        distinct_names(apply_overrides(e, overrides)),
    decreases overrides.len(),
{
    if overrides.len() > 0 {
        lemma_apply_overrides_distinct(e, overrides.drop_last());
        let last = overrides.last();
        lemma_set_entry_distinct(apply_overrides(e, overrides.drop_last()), last.0, last.1);
    }
}

/// After setting `key`, reading `key` gives the value set, and every other name reads
/// as before.
pub proof fn lemma_set_then_find(entries: Seq<(Seq<char>, i64)>, key: Seq<char>, value: i64, other: Seq<char>)
    ensures
        find_weight(set_entry(entries, key, value), key) == Some(value),
        other != key ==> find_weight(set_entry(entries, key, value), other) == find_weight(entries, other),
    decreases entries.len(),
{
    let r = set_entry(entries, key, value);
    if entries.len() == 0 {
        assert(r.drop_first() =~= Seq::<(Seq<char>, i64)>::empty());
        assert(find_weight(r.drop_first(), other) is None);
    } else if entries[0].0 == key {
        assert(r.drop_first() =~= entries.drop_first());
        assert(r[0].0 == key);
    } else {
        lemma_set_then_find(entries.drop_first(), key, value, other);
        assert(r.drop_first() =~= set_entry(entries.drop_first(), key, value));
    }
}

/// Gives the first entry named `key` the value `value`, or appends `(key, value)` when
/// no entry has that name.
pub(crate) fn set_named_score(weights: &mut Vec<(String, Score)>, key: &str, value: Score)
    ensures
        weight_entries(final(weights)@) == set_entry(weight_entries(old(weights)@), key@, value@),
{
    let ghost e = weight_entries(weights@);
    let k = String::from_str(key);
    let mut i: usize = 0;
    assert(e.take(0) + e.skip(0) =~= e);
    while i < weights.len()
        invariant
            i <= weights@.len(),
            k@ == key@,
            e == weight_entries(weights@),
            e == weight_entries(old(weights)@),
            set_entry(e, key@, value@) == e.take(i as int) + set_entry(e.skip(i as int), key@, value@),
        decreases weights.len() - i,
    {
        let rest = Ghost(e.skip(i as int));
        proof {
            assert(rest@.drop_first() =~= e.skip(i + 1));
            assert(rest@[0] == (weights@[i as int].0@, weights@[i as int].1@));
        }
        if weights[i].0 == k {
            weights.set(i, (k, value));
            proof {
                assert(weight_entries(weights@) =~= e.update(i as int, (key@, value@)));
                assert(e.take(i as int) + rest@.update(0, (key@, value@)) =~= e.update(i as int, (key@, value@)));
            }
            return;
        }
        proof {
            assert(e.take(i as int) + seq![e[i as int]] =~= e.take(i + 1));
            assert(e.take(i as int) + (seq![e[i as int]] + set_entry(e.skip(i + 1), key@, value@))
                =~= e.take(i + 1) + set_entry(e.skip(i + 1), key@, value@));
        }
        i += 1;
    }
    proof {
        assert(e.skip(i as int) =~= Seq::<(Seq<char>, i64)>::empty());
        assert(e.take(i as int) =~= e);
    }
    weights.push((k, value));
    assert(weight_entries(weights@) =~= e.push((key@, value@)));
}

/// The entries after setting each override in turn.
pub open spec fn apply_overrides(entries: Seq<(Seq<char>, i64)>, overrides: Seq<(Seq<char>, i64)>) -> Seq<(Seq<char>, i64)>
    decreases overrides.len(),
{
    if overrides.len() == 0 {
        entries
    } else {
        let last = overrides.last();
        set_entry(apply_overrides(entries, overrides.drop_last()), last.0, last.1)
    }
}

/// After setting overrides in turn, a name that some override sets reads the value of
/// the last override with that name, every override counting.
pub proof fn lemma_apply_overrides_last_wins(e: Seq<(Seq<char>, i64)>, overrides: Seq<(Seq<char>, i64)>, i: int)
    requires
        0 <= i < overrides.len(),
        forall|j: int| i < j < overrides.len() ==> (#[trigger] overrides[j]).0 != overrides[i].0,
    ensures
        find_weight(apply_overrides(e, overrides), overrides[i].0) == Some(overrides[i].1),
    decreases overrides.len(),
{
    let last = overrides.last();
    let prev = overrides.drop_last();
    if i == overrides.len() - 1 {
        lemma_set_then_find(apply_overrides(e, prev), last.0, last.1, last.0);
    } else {
        assert(prev[i] == overrides[i]);
        assert forall|j: int| i < j < prev.len() implies (#[trigger] prev[j]).0 != prev[i].0 by {
            assert(prev[j] == overrides[j]);
        }
        lemma_apply_overrides_last_wins(e, prev, i);
        assert(overrides[overrides.len() - 1].0 != overrides[i].0);
        lemma_set_then_find(apply_overrides(e, prev), last.0, last.1, overrides[i].0);
    }
}

/// After setting overrides in turn, a name that no override sets reads as before.
pub proof fn lemma_apply_overrides_untouched(e: Seq<(Seq<char>, i64)>, overrides: Seq<(Seq<char>, i64)>, key: Seq<char>)
    requires
        forall|j: int| 0 <= j < overrides.len() ==> (#[trigger] overrides[j]).0 != key,
    ensures
        find_weight(apply_overrides(e, overrides), key) == find_weight(e, key),
    decreases overrides.len(),
{
    if overrides.len() > 0 {
        let last = overrides.last();
        let prev = overrides.drop_last();
        assert forall|j: int| 0 <= j < prev.len() implies (#[trigger] prev[j]).0 != key by {
            assert(prev[j] == overrides[j]);
        }
        lemma_apply_overrides_untouched(e, prev, key);
        assert(overrides[overrides.len() - 1].0 != key);
        lemma_set_then_find(apply_overrides(e, prev), last.0, last.1, key);
    }
}

/// Sets each override in turn.
pub(crate) fn apply_named_overrides(weights: &mut Vec<(String, Score)>, overrides: &Vec<(String, Score)>)
    ensures
        weight_entries(final(weights)@) == apply_overrides(weight_entries(old(weights)@), weight_entries(overrides@)),
{
    let ghost start = weight_entries(weights@);
    let ghost ov = weight_entries(overrides@);
    let mut i: usize = 0;
    assert(ov.take(0) =~= Seq::<(Seq<char>, i64)>::empty());
    while i < overrides.len()
        invariant
            i <= overrides@.len(),
            ov == weight_entries(overrides@),
            start == weight_entries(old(weights)@),
            weight_entries(weights@) == apply_overrides(start, ov.take(i as int)),
        decreases overrides.len() - i,
    {
        proof {
            assert(ov.take(i + 1).drop_last() =~= ov.take(i as int));
            assert(ov.take(i + 1).last() == (overrides@[i as int].0@, overrides@[i as int].1@));
        }
        set_named_score(weights, overrides[i].0.as_str(), overrides[i].1);
        i += 1;
    }
    assert(ov.take(overrides@.len() as int) =~= ov);
}

/// The count a raw score stands for: its whole part, 0 when negative, at most
/// `usize::MAX`.
pub open spec fn score_count(raw: i64) -> int {
    let t = if raw >= 0 { raw / 1_000_000 } else { 0 };
    if t <= usize::MAX { t } else { usize::MAX as int }
}

/// The count a raw score stands for.
pub(crate) fn score_to_count(raw: i64) -> (r: usize)
    ensures
        r == score_count(raw),
{
    if raw < 0 {
        return 0;
    }
    let q: u64 = (raw / 1_000_000) as u64;
    if q > usize::MAX as u64 { usize::MAX } else { q as usize }
}

/// The tunable weights offered to editors: (key, label, description, type, raw
/// minimum, raw maximum, raw default).
pub open spec fn weights_schema_spec() -> Seq<(Seq<char>, Seq<char>, Seq<char>, ParamType, Option<i64>, Option<i64>, i64)> {
    seq![
        ("penalty_sfb_base"@, "SFB Base Penalty"@, "Basic cost for any Same Finger Bigram."@,
            ParamType::Float, Some(0i64), Some(MAX_SAFE_WEIGHT), DEFAULT_PENALTY_SFB_BASE),
        ("penalty_scissor"@, "Scissor Penalty"@, "Penalty for adjacent finger stretches."@,
            ParamType::Float, Some(0i64), Some(MAX_SAFE_WEIGHT), DEFAULT_PENALTY_SCISSOR),
        ("weight_vertical_travel"@, "Vertical Travel Weight"@, "Multiplier for finger movement distance."@,
            ParamType::Float, Some(0i64), Some(10_000_000i64), DEFAULT_WEIGHT_VERTICAL_TRAVEL),
    ]
}

impl ScoringWeights {
    /// The tunable weights offered to editors.
    pub fn schema() -> (r: Vec<ParameterMetadata>)
        ensures
            metadata_views(r@) == weights_schema_spec(),
    {
        let mut v: Vec<ParameterMetadata> = Vec::new();
        v.push(numeric_param("penalty_sfb_base", "SFB Base Penalty", "Basic cost for any Same Finger Bigram.",
            ParamType::Float, 0, MAX_SAFE_WEIGHT, DEFAULT_PENALTY_SFB_BASE));
        v.push(numeric_param("penalty_scissor", "Scissor Penalty", "Penalty for adjacent finger stretches.",
            ParamType::Float, 0, MAX_SAFE_WEIGHT, DEFAULT_PENALTY_SCISSOR));
        v.push(numeric_param("weight_vertical_travel", "Vertical Travel Weight", "Multiplier for finger movement distance.",
            ParamType::Float, 0, 10_000_000, DEFAULT_WEIGHT_VERTICAL_TRAVEL));
        assert(metadata_views(v@) =~= weights_schema_spec());
        v
    }

    /// The default weights with the given overrides set in turn, the given finger scale
    /// (exactly five values) and comfortable scissors; the result must validate.
    pub fn from_overrides(overrides: Vec<(String, Score)>, finger_penalty_scale: Vec<Score>, comfortable_scissors: String) -> (r: Result<ScoringWeights, String>)
        ensures
            finger_penalty_scale@.len() != 5 ==> (r matches Err(m)
                && m@ == "Expected 5 values, got "@ + decimal(finger_penalty_scale@.len() as int)),
            finger_penalty_scale@.len() == 5 ==> ({
                let e = apply_overrides(default_weight_entries(), weight_entries(overrides@));
                match r {
                    Ok(w) => weights_parts_error(e, finger_penalty_scale@) is None
                        && w.well_formed()
                        && weight_entries(w.weights@) == e
                        && w.finger_penalty_scale@ == finger_penalty_scale@
                        && w.comfortable_scissors == comfortable_scissors,
                    Err(m) => weights_parts_error(e, finger_penalty_scale@) == Some(m@),
                }
            }),
    {
        if finger_penalty_scale.len() != 5 {
            let mut m = String::from_str("Expected 5 values, got ");
            m.append(u64_to_decimal(finger_penalty_scale.len() as u64).as_str());
            return Err(m);
        }
        let mut w = ScoringWeights::default();
        proof { lemma_apply_overrides_distinct(default_weight_entries(), weight_entries(overrides@)); }
        apply_named_overrides(&mut w.weights, &overrides);
        let scale = [finger_penalty_scale[0], finger_penalty_scale[1], finger_penalty_scale[2], finger_penalty_scale[3], finger_penalty_scale[4]];
        assert(scale@ =~= finger_penalty_scale@);
        w.finger_penalty_scale = scale;
        w.comfortable_scissors = comfortable_scissors;
        match w.validate() {
            Ok(()) => Ok(w),
            Err(m) => Err(m),
        }
    }

    /// The weight named `key`, or `default` when there is none.
    pub fn get_weight(&self, key: &str, default: Score) -> (r: Score)
        ensures
            r@ == weight_or(weight_entries(self.weights@), key@, default@),
    {
        match find_weight_exec(&self.weights, key) {
            Some(s) => s,
            None => default,
        }
    }

    /// Sets the weight named `key` to `value`: the first entry of that name takes the
    /// value, or a new entry is appended when there is none.
    pub fn set_weight(&mut self, key: &str, value: Score)
        ensures
            weight_entries(final(self).weights@) == set_entry(weight_entries(old(self).weights@), key@, value@),
            final(self).finger_penalty_scale == old(self).finger_penalty_scale,
            final(self).comfortable_scissors == old(self).comfortable_scissors,
            old(self).well_formed() ==> final(self).well_formed(),
    {
        proof {
            if self.well_formed() {
                lemma_set_entry_distinct(weight_entries(self.weights@), key@, value@);
            }
        }
        set_named_score(&mut self.weights, key, value);
    }

    /// The `penalty_sfr_weak_finger` weight.
    pub fn get_penalty_sfr_weak_finger(&self) -> (r: Score)
        ensures
            r@ == weight_or(weight_entries(self.weights@), "penalty_sfr_weak_finger"@, DEFAULT_PENALTY_SFR_WEAK_FINGER),
    {
        self.get_weight("penalty_sfr_weak_finger", Score::from_scaled_i64(DEFAULT_PENALTY_SFR_WEAK_FINGER))
    }

    /// The `penalty_sfr_bad_row` weight.
    pub fn get_penalty_sfr_bad_row(&self) -> (r: Score)
        ensures
            r@ == weight_or(weight_entries(self.weights@), "penalty_sfr_bad_row"@, DEFAULT_PENALTY_SFR_BAD_ROW),
    {
        self.get_weight("penalty_sfr_bad_row", Score::from_scaled_i64(DEFAULT_PENALTY_SFR_BAD_ROW))
    }

    /// The `penalty_sfr_lat` weight.
    pub fn get_penalty_sfr_lat(&self) -> (r: Score)
        ensures
            r@ == weight_or(weight_entries(self.weights@), "penalty_sfr_lat"@, DEFAULT_PENALTY_SFR_LAT),
    {
        self.get_weight("penalty_sfr_lat", Score::from_scaled_i64(DEFAULT_PENALTY_SFR_LAT))
    }

    /// The `penalty_sfb_lateral` weight.
    pub fn get_penalty_sfb_lateral(&self) -> (r: Score)
        ensures
            r@ == weight_or(weight_entries(self.weights@), "penalty_sfb_lateral"@, DEFAULT_PENALTY_SFB_LATERAL),
    {
        self.get_weight("penalty_sfb_lateral", Score::from_scaled_i64(DEFAULT_PENALTY_SFB_LATERAL))
    }

    /// The `penalty_sfb_lateral_weak` weight.
    pub fn get_penalty_sfb_lateral_weak(&self) -> (r: Score)
        ensures
            r@ == weight_or(weight_entries(self.weights@), "penalty_sfb_lateral_weak"@, DEFAULT_PENALTY_SFB_LATERAL_WEAK),
    {
        self.get_weight("penalty_sfb_lateral_weak", Score::from_scaled_i64(DEFAULT_PENALTY_SFB_LATERAL_WEAK))
    }

    /// The `penalty_sfb_base` weight.
    pub fn get_penalty_sfb_base(&self) -> (r: Score)
        ensures
            r@ == weight_or(weight_entries(self.weights@), "penalty_sfb_base"@, DEFAULT_PENALTY_SFB_BASE),
    {
        self.get_weight("penalty_sfb_base", Score::from_scaled_i64(DEFAULT_PENALTY_SFB_BASE))
    }

    /// The `penalty_sfb_outward_adder` weight.
    pub fn get_penalty_sfb_outward_adder(&self) -> (r: Score)
        ensures
            r@ == weight_or(weight_entries(self.weights@), "penalty_sfb_outward_adder"@, DEFAULT_PENALTY_SFB_OUTWARD_ADDER),
    {
        self.get_weight("penalty_sfb_outward_adder", Score::from_scaled_i64(DEFAULT_PENALTY_SFB_OUTWARD_ADDER))
    }

    /// The `penalty_sfb_diagonal` weight.
    pub fn get_penalty_sfb_diagonal(&self) -> (r: Score)
        ensures
            r@ == weight_or(weight_entries(self.weights@), "penalty_sfb_diagonal"@, DEFAULT_PENALTY_SFB_DIAGONAL),
    {
        self.get_weight("penalty_sfb_diagonal", Score::from_scaled_i64(DEFAULT_PENALTY_SFB_DIAGONAL))
    }

    /// The `penalty_sfb_long` weight.
    pub fn get_penalty_sfb_long(&self) -> (r: Score)
        ensures
            r@ == weight_or(weight_entries(self.weights@), "penalty_sfb_long"@, DEFAULT_PENALTY_SFB_LONG),
    {
        self.get_weight("penalty_sfb_long", Score::from_scaled_i64(DEFAULT_PENALTY_SFB_LONG))
    }

    /// The `penalty_sfb_bottom` weight.
    pub fn get_penalty_sfb_bottom(&self) -> (r: Score)
        ensures
            r@ == weight_or(weight_entries(self.weights@), "penalty_sfb_bottom"@, DEFAULT_PENALTY_SFB_BOTTOM),
    {
        self.get_weight("penalty_sfb_bottom", Score::from_scaled_i64(DEFAULT_PENALTY_SFB_BOTTOM))
    }

    /// The `weight_weak_finger_sfb` weight.
    pub fn get_weight_weak_finger_sfb(&self) -> (r: Score)
        ensures
            r@ == weight_or(weight_entries(self.weights@), "weight_weak_finger_sfb"@, DEFAULT_WEIGHT_WEAK_FINGER_SFB),
    {
        self.get_weight("weight_weak_finger_sfb", Score::from_scaled_i64(DEFAULT_WEIGHT_WEAK_FINGER_SFB))
    }

    /// The `threshold_reach_stretch` weight.
    pub fn get_threshold_reach_stretch(&self) -> (r: Score)
        ensures
            r@ == weight_or(weight_entries(self.weights@), "threshold_reach_stretch"@, DEFAULT_THRESHOLD_REACH_STRETCH),
    {
        self.get_weight("threshold_reach_stretch", Score::from_scaled_i64(DEFAULT_THRESHOLD_REACH_STRETCH))
    }

    /// The `penalty_scissor` weight.
    pub fn get_penalty_scissor(&self) -> (r: Score)
        ensures
            r@ == weight_or(weight_entries(self.weights@), "penalty_scissor"@, DEFAULT_PENALTY_SCISSOR),
    {
        self.get_weight("penalty_scissor", Score::from_scaled_i64(DEFAULT_PENALTY_SCISSOR))
    }

    /// The `penalty_ring_pinky` weight.
    pub fn get_penalty_ring_pinky(&self) -> (r: Score)
        ensures
            r@ == weight_or(weight_entries(self.weights@), "penalty_ring_pinky"@, DEFAULT_PENALTY_RING_PINKY),
    {
        self.get_weight("penalty_ring_pinky", Score::from_scaled_i64(DEFAULT_PENALTY_RING_PINKY))
    }

    /// The `penalty_lateral` weight.
    pub fn get_penalty_lateral(&self) -> (r: Score)
        ensures
            r@ == weight_or(weight_entries(self.weights@), "penalty_lateral"@, DEFAULT_PENALTY_LATERAL),
    {
        self.get_weight("penalty_lateral", Score::from_scaled_i64(DEFAULT_PENALTY_LATERAL))
    }

    /// The `penalty_monogram_stretch` weight.
    pub fn get_penalty_monogram_stretch(&self) -> (r: Score)
        ensures
            r@ == weight_or(weight_entries(self.weights@), "penalty_monogram_stretch"@, DEFAULT_PENALTY_MONOGRAM_STRETCH),
    {
        self.get_weight("penalty_monogram_stretch", Score::from_scaled_i64(DEFAULT_PENALTY_MONOGRAM_STRETCH))
    }

    /// The `penalty_skip` weight.
    pub fn get_penalty_skip(&self) -> (r: Score)
        ensures
            r@ == weight_or(weight_entries(self.weights@), "penalty_skip"@, DEFAULT_PENALTY_SKIP),
    {
        self.get_weight("penalty_skip", Score::from_scaled_i64(DEFAULT_PENALTY_SKIP))
    }

    /// The `weight_vertical_travel` weight.
    pub fn get_weight_vertical_travel(&self) -> (r: Score)
        ensures
            r@ == weight_or(weight_entries(self.weights@), "weight_vertical_travel"@, DEFAULT_WEIGHT_VERTICAL_TRAVEL),
    {
        self.get_weight("weight_vertical_travel", Score::from_scaled_i64(DEFAULT_WEIGHT_VERTICAL_TRAVEL))
    }

    /// The `weight_lateral_travel` weight.
    pub fn get_weight_lateral_travel(&self) -> (r: Score)
        ensures
            r@ == weight_or(weight_entries(self.weights@), "weight_lateral_travel"@, DEFAULT_WEIGHT_LATERAL_TRAVEL),
    {
        self.get_weight("weight_lateral_travel", Score::from_scaled_i64(DEFAULT_WEIGHT_LATERAL_TRAVEL))
    }

    /// The `weight_finger_effort` weight.
    pub fn get_weight_finger_effort(&self) -> (r: Score)
        ensures
            r@ == weight_or(weight_entries(self.weights@), "weight_finger_effort"@, DEFAULT_WEIGHT_FINGER_EFFORT),
    {
        self.get_weight("weight_finger_effort", Score::from_scaled_i64(DEFAULT_WEIGHT_FINGER_EFFORT))
    }

    /// The `penalty_redirect` weight.
    pub fn get_penalty_redirect(&self) -> (r: Score)
        ensures
            r@ == weight_or(weight_entries(self.weights@), "penalty_redirect"@, DEFAULT_PENALTY_REDIRECT),
    {
        self.get_weight("penalty_redirect", Score::from_scaled_i64(DEFAULT_PENALTY_REDIRECT))
    }

    /// The `penalty_hand_run` weight.
    pub fn get_penalty_hand_run(&self) -> (r: Score)
        ensures
            r@ == weight_or(weight_entries(self.weights@), "penalty_hand_run"@, DEFAULT_PENALTY_HAND_RUN),
    {
        self.get_weight("penalty_hand_run", Score::from_scaled_i64(DEFAULT_PENALTY_HAND_RUN))
    }

    /// The `bonus_inward_roll` weight.
    pub fn get_bonus_inward_roll(&self) -> (r: Score)
        ensures
            r@ == weight_or(weight_entries(self.weights@), "bonus_inward_roll"@, DEFAULT_BONUS_INWARD_ROLL),
    {
        self.get_weight("bonus_inward_roll", Score::from_scaled_i64(DEFAULT_BONUS_INWARD_ROLL))
    }

    /// The `bonus_bigram_roll_in` weight.
    pub fn get_bonus_bigram_roll_in(&self) -> (r: Score)
        ensures
            r@ == weight_or(weight_entries(self.weights@), "bonus_bigram_roll_in"@, DEFAULT_BONUS_BIGRAM_ROLL_IN),
    {
        self.get_weight("bonus_bigram_roll_in", Score::from_scaled_i64(DEFAULT_BONUS_BIGRAM_ROLL_IN))
    }

    /// The `bonus_bigram_roll_out` weight.
    pub fn get_bonus_bigram_roll_out(&self) -> (r: Score)
        ensures
            r@ == weight_or(weight_entries(self.weights@), "bonus_bigram_roll_out"@, DEFAULT_BONUS_BIGRAM_ROLL_OUT),
    {
        self.get_weight("bonus_bigram_roll_out", Score::from_scaled_i64(DEFAULT_BONUS_BIGRAM_ROLL_OUT))
    }

    /// The `penalty_high_in_med` weight.
    pub fn get_penalty_high_in_med(&self) -> (r: Score)
        ensures
            r@ == weight_or(weight_entries(self.weights@), "penalty_high_in_med"@, DEFAULT_PENALTY_HIGH_IN_MED),
    {
        self.get_weight("penalty_high_in_med", Score::from_scaled_i64(DEFAULT_PENALTY_HIGH_IN_MED))
    }

    /// The `penalty_high_in_low` weight.
    pub fn get_penalty_high_in_low(&self) -> (r: Score)
        ensures
            r@ == weight_or(weight_entries(self.weights@), "penalty_high_in_low"@, DEFAULT_PENALTY_HIGH_IN_LOW),
    {
        self.get_weight("penalty_high_in_low", Score::from_scaled_i64(DEFAULT_PENALTY_HIGH_IN_LOW))
    }

    /// The `penalty_med_in_prime` weight.
    pub fn get_penalty_med_in_prime(&self) -> (r: Score)
        ensures
            r@ == weight_or(weight_entries(self.weights@), "penalty_med_in_prime"@, DEFAULT_PENALTY_MED_IN_PRIME),
    {
        self.get_weight("penalty_med_in_prime", Score::from_scaled_i64(DEFAULT_PENALTY_MED_IN_PRIME))
    }

    /// The `penalty_med_in_low` weight.
    pub fn get_penalty_med_in_low(&self) -> (r: Score)
        ensures
            r@ == weight_or(weight_entries(self.weights@), "penalty_med_in_low"@, DEFAULT_PENALTY_MED_IN_LOW),
    {
        self.get_weight("penalty_med_in_low", Score::from_scaled_i64(DEFAULT_PENALTY_MED_IN_LOW))
    }

    /// The `penalty_low_in_prime` weight.
    pub fn get_penalty_low_in_prime(&self) -> (r: Score)
        ensures
            r@ == weight_or(weight_entries(self.weights@), "penalty_low_in_prime"@, DEFAULT_PENALTY_LOW_IN_PRIME),
    {
        self.get_weight("penalty_low_in_prime", Score::from_scaled_i64(DEFAULT_PENALTY_LOW_IN_PRIME))
    }

    /// The `penalty_low_in_med` weight.
    pub fn get_penalty_low_in_med(&self) -> (r: Score)
        ensures
            r@ == weight_or(weight_entries(self.weights@), "penalty_low_in_med"@, DEFAULT_PENALTY_LOW_IN_MED),
    {
        self.get_weight("penalty_low_in_med", Score::from_scaled_i64(DEFAULT_PENALTY_LOW_IN_MED))
    }

    /// The `penalty_imbalance` weight.
    pub fn get_penalty_imbalance(&self) -> (r: Score)
        ensures
            r@ == weight_or(weight_entries(self.weights@), "penalty_imbalance"@, DEFAULT_PENALTY_IMBALANCE),
    {
        self.get_weight("penalty_imbalance", Score::from_scaled_i64(DEFAULT_PENALTY_IMBALANCE))
    }

    /// The `max_hand_imbalance` weight.
    pub fn get_max_hand_imbalance(&self) -> (r: Score)
        ensures
            r@ == weight_or(weight_entries(self.weights@), "max_hand_imbalance"@, DEFAULT_MAX_HAND_IMBALANCE),
    {
        self.get_weight("max_hand_imbalance", Score::from_scaled_i64(DEFAULT_MAX_HAND_IMBALANCE))
    }

    /// The `default_cost_ms` weight.
    pub fn get_default_cost_ms(&self) -> (r: Score)
        ensures
            r@ == weight_or(weight_entries(self.weights@), "default_cost_ms"@, DEFAULT_COST_MS),
    {
        self.get_weight("default_cost_ms", Score::from_scaled_i64(DEFAULT_COST_MS))
    }

    /// The `trigram_coverage` weight.
    pub fn get_trigram_coverage(&self) -> (r: Score)
        ensures
            r@ == weight_or(weight_entries(self.weights@), "trigram_coverage"@, DEFAULT_TRIGRAM_COVERAGE),
    {
        self.get_weight("trigram_coverage", Score::from_scaled_i64(DEFAULT_TRIGRAM_COVERAGE))
    }

    /// The row threshold for long same-finger bigrams: the whole part of its weight,
    /// or 0 when that does not fit an `i8`.
    pub fn get_threshold_sfb_long_row_diff(&self) -> (r: i8)
        ensures
            ({
                let v = crate::types::scoring::trunc_div(
                    weight_or(weight_entries(self.weights@), "threshold_sfb_long_row_diff"@, DEFAULT_THRESHOLD_SFB_LONG_ROW_DIFF_SCORE) as int,
                    1_000_000,
                );
                r == (if -128 <= v <= 127 { v as i8 } else { 0i8 })
            }),
    {
        let val = self.get_weight("threshold_sfb_long_row_diff", Score::from_scaled_i64(DEFAULT_THRESHOLD_SFB_LONG_ROW_DIFF_SCORE));
        whole_part_i8(val.raw())
    }

    /// The row threshold for scissors: the whole part of its weight, or 0 when that
    /// does not fit an `i8`.
    pub fn get_threshold_scissor_row_diff(&self) -> (r: i8)
        ensures
            ({
                let v = crate::types::scoring::trunc_div(
                    weight_or(weight_entries(self.weights@), "threshold_scissor_row_diff"@, DEFAULT_THRESHOLD_SCISSOR_ROW_DIFF_SCORE) as int,
                    1_000_000,
                );
                r == (if -128 <= v <= 127 { v as i8 } else { 0i8 })
            }),
    {
        let val = self.get_weight("threshold_scissor_row_diff", Score::from_scaled_i64(DEFAULT_THRESHOLD_SCISSOR_ROW_DIFF_SCORE));
        whole_part_i8(val.raw())
    }

    /// The number of trigrams loaded: the whole part of its weight, 0 when negative,
    /// and at most `usize::MAX`.
    pub fn get_loader_trigram_limit(&self) -> (r: usize)
        ensures
            r == score_count(weight_or(weight_entries(self.weights@), "loader_trigram_limit"@, DEFAULT_LOADER_TRIGRAM_LIMIT_SCORE)),
    {
        let val = self.get_weight("loader_trigram_limit", Score::from_scaled_i64(DEFAULT_LOADER_TRIGRAM_LIMIT_SCORE));
        score_to_count(val.raw())
    }

    /// How far the hand balance may stray from even: the maximum hand imbalance less
    /// one half, and never below zero.
    pub fn allowed_hand_balance_deviation(&self) -> (r: Score)
        ensures
            ({
                let m = weight_or(weight_entries(self.weights@), "max_hand_imbalance"@, DEFAULT_MAX_HAND_IMBALANCE);
                r@ == (if m > 500_000 { m - 500_000 } else { 0 })
            }),
    {
        let raw = self.get_max_hand_imbalance().raw();
        if raw > 500_000 {
            Score::from_scaled_i64(raw - 500_000)
        } else {
            Score::from_scaled_i64(0)
        }
    }

    /// The finger penalty multipliers.
    pub fn get_finger_penalty_scale(&self) -> (r: [Score; 5])
        ensures
            r == self.finger_penalty_scale,
    {
        self.finger_penalty_scale
    }

    /// The comfortable scissor finger pairs, parsed from their list.
    pub fn get_comfortable_scissors(&self) -> (r: Vec<(u8, u8)>)
        ensures
            r@ == crate::config::lists::digit_pairs(crate::config::lists::trimmed_piece_bytes(
                crate::config::lists::split_pieces(self.comfortable_scissors@, ','),
            )),
    {
        crate::config::lists::comfortable_scissors(self.comfortable_scissors.as_str())
    }
}

/// The whole part of a raw score (rounded toward zero), or 0 when it does not fit an `i8`.
fn whole_part_i8(raw: i64) -> (r: i8)
    ensures
        ({
            let v = crate::types::scoring::trunc_div(raw as int, 1_000_000);
            r == (if -128 <= v <= 127 { v as i8 } else { 0i8 })
        }),
{
    let v: i64 = if raw >= 0 { raw / 1_000_000 } else { -((-(raw as i128)) / 1_000_000) as i64 };
    assert(v == crate::types::scoring::trunc_div(raw as int, 1_000_000));
    if -128 <= v && v <= 127 { v as i8 } else { 0 }
}

impl Validator for ScoringWeights {
    /// Checks the trigram limit, every entry in list order, then the finger scale.
    fn validate(&self) -> (r: Result<(), String>)
        ensures
            match r {
                Ok(()) => weights_error(*self) is None,
                Err(m) => weights_error(*self) == Some(m@),
            },
    {
        let ghost entries = weight_entries(self.weights@);
        match find_weight_exec(&self.weights, "loader_trigram_limit") {
            Some(l) => {
                let raw = l.raw();
                let lim: i64 = if raw >= 0 { raw / 1_000_000 } else { 0 };
                if lim > MAX_LOADER_TRIGRAM_LIMIT as i64 {
                    let mut m = String::from_str("loader_trigram_limit exceeds safety maximum (");
                    m.append(u64_to_decimal(MAX_LOADER_TRIGRAM_LIMIT as u64).as_str());
                    m.append(")");
                    return Err(m);
                }
            },
            None => {},
        }
        let bonus = chars_of("bonus");
        let ghost rest = match first_entry_error(entries, 0) {
            Some(m) => Some(m),
            None => first_scale_error(self.finger_penalty_scale@, 0),
        };
        assert(weights_error(*self) == rest);
        let mut i: usize = 0;
        while i < self.weights.len()
            invariant
                i <= self.weights@.len(),
                bonus@ == "bonus"@,
                entries == weight_entries(self.weights@),
                first_entry_error(entries, 0) == first_entry_error(entries, i as int),
                weights_error(*self) == rest,
                rest == (match first_entry_error(entries, 0) {
                    Some(m) => Some(m),
                    None => first_scale_error(self.finger_penalty_scale@, 0),
                }),
            decreases self.weights.len() - i,
        {
            let key = &self.weights[i].0;
            let val = self.weights[i].1;
            assert(entries[i as int] == (key@, val@));
            if val.raw() < 0 && !contains_substring(&chars_of(key.as_str()), &bonus) {
                let mut m = String::from_str("Penalty weight '");
                m.append(key.as_str());
                m.append("' cannot be negative");
                assert(entry_error(entries[i as int]) == Some(m@));
                return Err(m);
            }
            if val.raw() > MAX_SAFE_WEIGHT {
                let mut m = String::from_str("Weight '");
                m.append(key.as_str());
                m.append("' exceeds safety maximum (");
                m.append(Score::from_scaled_i64(MAX_SAFE_WEIGHT).display_string().as_str());
                m.append(")");
                assert(entry_error(entries[i as int]) == Some(m@));
                return Err(m);
            }
            assert(entry_error(entries[i as int]) is None);
            i += 1;
        }
        let mut k: usize = 0;
        while k < 5
            invariant
                k <= 5,
                self.finger_penalty_scale@.len() == 5,
                first_scale_error(self.finger_penalty_scale@, 0) == first_scale_error(self.finger_penalty_scale@, k as int),
                weights_error(*self) == first_scale_error(self.finger_penalty_scale@, 0),
            decreases 5 - k,
        {
            if self.finger_penalty_scale[k].raw() < 0 {
                let mut m = String::from_str("finger_penalty_scale[");
                m.append(u64_to_decimal(k as u64).as_str());
                m.append("] cannot be negative");
                return Err(m);
            }
            k += 1;
        }
        Ok(())
    }
}

} // verus!
