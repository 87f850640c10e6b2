use keyforge_model::config::weights::{
    DEFAULT_BONUS_BIGRAM_ROLL_IN,
    DEFAULT_BONUS_BIGRAM_ROLL_OUT,
    DEFAULT_BONUS_INWARD_ROLL,
    DEFAULT_COST_MS,
    DEFAULT_FINGER_PENALTY_SCALE_ARRAY,
    DEFAULT_LOADER_TRIGRAM_LIMIT,
    DEFAULT_MAX_HAND_IMBALANCE,
    DEFAULT_PENALTY_HAND_RUN,
    DEFAULT_PENALTY_HIGH_IN_LOW,
    DEFAULT_PENALTY_HIGH_IN_MED,
    DEFAULT_PENALTY_IMBALANCE,
    DEFAULT_PENALTY_LATERAL,
    DEFAULT_PENALTY_LOW_IN_MED,
    DEFAULT_PENALTY_LOW_IN_PRIME,
    DEFAULT_PENALTY_MED_IN_LOW,
    DEFAULT_PENALTY_MED_IN_PRIME,
    DEFAULT_PENALTY_MONOGRAM_STRETCH,
    DEFAULT_PENALTY_REDIRECT,
    DEFAULT_PENALTY_RING_PINKY,
    DEFAULT_PENALTY_SCISSOR,
    DEFAULT_PENALTY_SFB_BASE,
    DEFAULT_PENALTY_SFB_BOTTOM,
    DEFAULT_PENALTY_SFB_DIAGONAL,
    DEFAULT_PENALTY_SFB_LATERAL,
    DEFAULT_PENALTY_SFB_LATERAL_WEAK,
    DEFAULT_PENALTY_SFB_LONG,
    DEFAULT_PENALTY_SFB_OUTWARD_ADDER,
    DEFAULT_PENALTY_SFR_BAD_ROW,
    DEFAULT_PENALTY_SFR_LAT,
    DEFAULT_PENALTY_SFR_WEAK_FINGER,
    DEFAULT_PENALTY_SKIP,
    DEFAULT_THRESHOLD_REACH_STRETCH,
    DEFAULT_THRESHOLD_SCISSOR_ROW_DIFF,
    DEFAULT_THRESHOLD_SFB_LONG_ROW_DIFF,
    DEFAULT_TRIGRAM_COVERAGE,
    DEFAULT_WEIGHT_FINGER_EFFORT,
    DEFAULT_WEIGHT_LATERAL_TRAVEL,
    DEFAULT_WEIGHT_VERTICAL_TRAVEL,
    DEFAULT_WEIGHT_WEAK_FINGER_SFB,
    MAX_LOADER_TRIGRAM_LIMIT,
    MAX_SAFE_WEIGHT,
};
use keyforge_model::config::ScoringWeights;
use keyforge_model::types::Score;
use keyforge_model::validator::Validator;

fn s(raw: i64) -> Score {
    Score::from_scaled_i64(raw)
}

#[test]
fn test_scoring_weights_validation() {
    let mut w = ScoringWeights::default();
    assert!(w.validate().is_ok());

    // 1. Negative penalty
    w.set_weight("penalty_sfb_base", s(-1_000_000));
    assert!(w.validate().is_err());

    // 2. Weight overflow
    w.set_weight("penalty_sfb_base", s(MAX_SAFE_WEIGHT * 2));
    assert!(w.validate().is_err());

    // 3. Negative finger scale
    w = ScoringWeights::default();
    w.finger_penalty_scale[0] = s(-500_000);
    assert!(w.validate().is_err());

    // 4. Trigram limit safety
    w = ScoringWeights::default();
    w.set_weight(
        "loader_trigram_limit",
        s((MAX_LOADER_TRIGRAM_LIMIT as i64 + 1) * 1_000_000),
    );
    assert!(w.validate().is_err());
}

#[test]
fn test_scoring_weights_getters_all() {
    let w = ScoringWeights::default();
    assert_eq!(w.get_penalty_sfr_weak_finger(), s(DEFAULT_PENALTY_SFR_WEAK_FINGER));
    assert_eq!(w.get_penalty_sfr_bad_row(), s(DEFAULT_PENALTY_SFR_BAD_ROW));
    assert_eq!(w.get_penalty_sfr_lat(), s(DEFAULT_PENALTY_SFR_LAT));
    assert_eq!(w.get_penalty_sfb_lateral(), s(DEFAULT_PENALTY_SFB_LATERAL));
    assert_eq!(w.get_penalty_sfb_lateral_weak(), s(DEFAULT_PENALTY_SFB_LATERAL_WEAK));
    assert_eq!(w.get_penalty_sfb_base(), s(DEFAULT_PENALTY_SFB_BASE));
    assert_eq!(w.get_penalty_sfb_outward_adder(), s(DEFAULT_PENALTY_SFB_OUTWARD_ADDER));
    assert_eq!(w.get_penalty_sfb_diagonal(), s(DEFAULT_PENALTY_SFB_DIAGONAL));
    assert_eq!(w.get_penalty_sfb_long(), s(DEFAULT_PENALTY_SFB_LONG));
    assert_eq!(w.get_penalty_sfb_bottom(), s(DEFAULT_PENALTY_SFB_BOTTOM));
    assert_eq!(w.get_weight_weak_finger_sfb(), s(DEFAULT_WEIGHT_WEAK_FINGER_SFB));
    assert_eq!(w.get_threshold_sfb_long_row_diff(), DEFAULT_THRESHOLD_SFB_LONG_ROW_DIFF);
    assert_eq!(w.get_threshold_scissor_row_diff(), DEFAULT_THRESHOLD_SCISSOR_ROW_DIFF);
    assert_eq!(w.get_threshold_reach_stretch(), s(DEFAULT_THRESHOLD_REACH_STRETCH));
    assert_eq!(w.get_penalty_scissor(), s(DEFAULT_PENALTY_SCISSOR));
    assert_eq!(w.get_penalty_ring_pinky(), s(DEFAULT_PENALTY_RING_PINKY));
    assert_eq!(w.get_penalty_lateral(), s(DEFAULT_PENALTY_LATERAL));
    assert_eq!(w.get_penalty_monogram_stretch(), s(DEFAULT_PENALTY_MONOGRAM_STRETCH));
    assert_eq!(w.get_penalty_skip(), s(DEFAULT_PENALTY_SKIP));
    assert_eq!(w.get_penalty_redirect(), s(DEFAULT_PENALTY_REDIRECT));
    assert_eq!(w.get_penalty_hand_run(), s(DEFAULT_PENALTY_HAND_RUN));
    assert_eq!(w.get_bonus_inward_roll(), s(DEFAULT_BONUS_INWARD_ROLL));
    assert_eq!(w.get_bonus_bigram_roll_in(), s(DEFAULT_BONUS_BIGRAM_ROLL_IN));
    assert_eq!(w.get_bonus_bigram_roll_out(), s(DEFAULT_BONUS_BIGRAM_ROLL_OUT));
    assert_eq!(w.get_penalty_high_in_med(), s(DEFAULT_PENALTY_HIGH_IN_MED));
    assert_eq!(w.get_penalty_high_in_low(), s(DEFAULT_PENALTY_HIGH_IN_LOW));
    assert_eq!(w.get_penalty_med_in_prime(), s(DEFAULT_PENALTY_MED_IN_PRIME));
    assert_eq!(w.get_penalty_med_in_low(), s(DEFAULT_PENALTY_MED_IN_LOW));
    assert_eq!(w.get_penalty_low_in_prime(), s(DEFAULT_PENALTY_LOW_IN_PRIME));
    assert_eq!(w.get_penalty_low_in_med(), s(DEFAULT_PENALTY_LOW_IN_MED));
    assert_eq!(w.get_penalty_imbalance(), s(DEFAULT_PENALTY_IMBALANCE));
    assert_eq!(w.get_max_hand_imbalance(), s(DEFAULT_MAX_HAND_IMBALANCE));
    assert_eq!(w.get_weight_vertical_travel(), s(DEFAULT_WEIGHT_VERTICAL_TRAVEL));
    assert_eq!(w.get_weight_lateral_travel(), s(DEFAULT_WEIGHT_LATERAL_TRAVEL));
    assert_eq!(w.get_weight_finger_effort(), s(DEFAULT_WEIGHT_FINGER_EFFORT));
    assert_eq!(w.get_default_cost_ms(), s(DEFAULT_COST_MS));
    assert_eq!(w.get_loader_trigram_limit(), DEFAULT_LOADER_TRIGRAM_LIMIT);
    assert_eq!(w.get_trigram_coverage(), s(DEFAULT_TRIGRAM_COVERAGE));
    let scale = w.get_finger_penalty_scale();
    for i in 0..5 {
        assert_eq!(scale[i], s(DEFAULT_FINGER_PENALTY_SCALE_ARRAY[i]));
    }
    assert_eq!(
        w.allowed_hand_balance_deviation(),
        s(DEFAULT_MAX_HAND_IMBALANCE - 500_000)
    );

    let scissors = w.get_comfortable_scissors();
    assert!(!scissors.is_empty());
}

#[test]
fn weights_set_then_get_reads_back() {
    let mut w = ScoringWeights::default();
    let before = w.weights.len();
    w.set_weight("penalty_skip", s(7_000_000));
    assert_eq!(w.get_penalty_skip(), s(7_000_000));
    assert_eq!(w.get_penalty_redirect(), s(DEFAULT_PENALTY_REDIRECT));
    assert_eq!(w.weights.len(), before);
    w.set_weight("custom_weight", s(3_000_000));
    assert_eq!(w.weights.len(), before + 1);
    assert_eq!(w.get_weight("custom_weight", s(0)), s(3_000_000));
    assert_eq!(w.get_weight("absent", s(42)), s(42));
}

#[test]
fn weights_validation_messages() {
    let mut w = ScoringWeights::default();
    w.set_weight("penalty_sfb_base", s(-1_000_000));
    assert_eq!(
        w.validate().unwrap_err(),
        "Penalty weight 'penalty_sfb_base' cannot be negative"
    );
    w.set_weight("penalty_sfb_base", s(MAX_SAFE_WEIGHT + 1));
    assert_eq!(
        w.validate().unwrap_err(),
        "Weight 'penalty_sfb_base' exceeds safety maximum (100000000.0000)"
    );
    let mut w = ScoringWeights::default();
    w.set_weight("bonus_inward_roll", s(-5_000_000));
    assert!(w.validate().is_ok());
    w.finger_penalty_scale[3] = s(-1);
    assert_eq!(
        w.validate().unwrap_err(),
        "finger_penalty_scale[3] cannot be negative"
    );
    let mut w = ScoringWeights::default();
    w.set_weight("loader_trigram_limit", s(50_001_000_000));
    assert_eq!(
        w.validate().unwrap_err(),
        "loader_trigram_limit exceeds safety maximum (50000)"
    );
    w.set_weight("loader_trigram_limit", s(50_000_999_999));
    assert!(w.validate().is_ok());
}

#[test]
fn weights_thresholds_and_limits() {
    let mut w = ScoringWeights::default();
    w.set_weight("threshold_sfb_long_row_diff", s(-3_700_000));
    assert_eq!(w.get_threshold_sfb_long_row_diff(), -3);
    w.set_weight("threshold_scissor_row_diff", s(500_000_000));
    assert_eq!(w.get_threshold_scissor_row_diff(), 0);
    w.set_weight("loader_trigram_limit", s(-2_000_000));
    assert_eq!(w.get_loader_trigram_limit(), 0);
    w.set_weight("loader_trigram_limit", s(12_900_000));
    assert_eq!(w.get_loader_trigram_limit(), 12);
    w.set_weight("max_hand_imbalance", s(400_000));
    assert_eq!(w.allowed_hand_balance_deviation(), s(0));
}

#[test]
fn test_scoring_weights_config_conversion() {
    let w = ScoringWeights::from_overrides(
        vec![("penalty_sfb_base".to_string(), s(600_000_000))],
        vec![s(0), s(1_000_000), s(1_000_000), s(1_000_000), s(1_000_000)],
        "12,23".to_string(),
    )
    .unwrap();
    assert_eq!(w.get_penalty_sfb_base(), s(600_000_000));
    assert_eq!(
        w.finger_penalty_scale,
        [s(0), s(1_000_000), s(1_000_000), s(1_000_000), s(1_000_000)]
    );
    assert_eq!(w.comfortable_scissors, "12,23");
}

#[test]
fn weights_from_overrides_errors() {
    let e = ScoringWeights::from_overrides(vec![], vec![s(0); 4], String::new()).unwrap_err();
    assert_eq!(e, "Expected 5 values, got 4");
    let e = ScoringWeights::from_overrides(
        vec![("penalty_skip".to_string(), s(-1))],
        vec![s(0); 5],
        String::new(),
    )
    .unwrap_err();
    assert_eq!(e, "Penalty weight 'penalty_skip' cannot be negative");
}

#[test]
fn test_scoring_weights_schema() {
    let s = ScoringWeights::schema();
    assert!(!s.is_empty());
    assert_eq!(s[0].key, "penalty_sfb_base");
    assert_eq!(s[2].max, Some(Score::from_scaled_i64(10_000_000)));
}

#[test]
fn weight_names_stay_distinct() {
    let mut w = ScoringWeights::default();
    w.set_weight("penalty_skip", s(1));
    w.set_weight("brand_new", s(2));
    let mut names: Vec<&String> = w.weights.iter().map(|e| &e.0).collect();
    let n = names.len();
    names.sort();
    names.dedup();
    assert_eq!(names.len(), n);
}
