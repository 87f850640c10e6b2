use keyforge_model::config::definitions::{DEFAULT_CRITICAL_BIGRAMS, DEFAULT_TIER_HIGH};
use keyforge_model::config::LayoutDefinitions;
use keyforge_model::types::Score;
use keyforge_model::validator::Validator;

#[test]
fn test_layout_definitions_validation() {
    let mut def = LayoutDefinitions::default();
    assert!(def.validate().is_ok());

    // 1. Empty high tier
    def.tier_high_chars = "".into();
    assert!(def.validate().is_err());

    // 2. Negative finger repeat scale
    def.tier_high_chars = "abc".into();
    def.finger_repeat_scale[0] = Score::from_scaled_i64(-1_000_000);
    assert!(def.validate().is_err());
}

#[test]
fn layout_definitions_messages_and_bigrams() {
    let mut def = LayoutDefinitions::default();
    assert_eq!(def.tier_high_chars, DEFAULT_TIER_HIGH);
    assert_eq!(def.critical_bigrams, DEFAULT_CRITICAL_BIGRAMS);
    let bigrams = def.get_critical_bigrams();
    assert_eq!(bigrams.len(), 8);
    assert_eq!(bigrams[0], *b"th");
    assert_eq!(bigrams[7], *b"ou");
    def.critical_bigrams = " ab , c,def,gh".into();
    assert_eq!(def.get_critical_bigrams(), vec![*b"ab", *b"gh"]);
    def.finger_repeat_scale[4] = Score::from_scaled_i64(-1);
    assert_eq!(def.validate().unwrap_err(), "finger_repeat_scale[4] cannot be negative");
    def.tier_high_chars = String::new();
    assert_eq!(def.validate().unwrap_err(), "tier_high_chars cannot be empty");
}
