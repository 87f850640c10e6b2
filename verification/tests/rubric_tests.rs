use keyforge_model::error::ForgeError;
use keyforge_model::rubric::{RawRubric, Rubric};
use keyforge_model::types::Score;

#[test]
fn test_rubric_modification() {
    let mut raw = RawRubric::default();
    let sc = |v: i64| Score::from_scaled_i64(v);
    raw.sfb_base = sc(1_000_000_000);
    raw.finger_effort[4] = sc(5_000_000);

    let r = Rubric::from(raw);
    assert_eq!(r.sfb_base(), sc(1_000_000_000));
    assert_eq!(r.finger_effort()[4], sc(5_000_000));
}

#[test]
fn test_rubric_validation() {
    let mut raw = RawRubric::default();
    let sc = |v: i64| Score::from_scaled_i64(v);
    assert!(Rubric::from(raw.clone()).validate().is_ok());

    raw.trigram_coverage = Score::from_scaled_i64(2_000_000);
    assert!(Rubric::from(raw.clone()).validate().is_err());
    raw.trigram_coverage = Score::from_scaled_i64(-100_000);
    assert!(Rubric::from(raw.clone()).validate().is_err());

    raw.trigram_coverage = sc(990_000);

    raw.trigram_limit = 0;
    assert!(Rubric::from(raw.clone()).validate().is_err());
    raw.trigram_limit = 100;

    raw.sfb_base = Score::from_scaled_i64(-10_000_000);
    assert!(Rubric::from(raw.clone()).validate().is_err());

    raw.sfb_base = sc(400_000_000);
    raw.sfb_lateral = Score::from_scaled_i64(-1_000_000);
    assert!(Rubric::from(raw).validate().is_err());
}

#[test]
fn test_rubric_lifecycle() {
    let r = Rubric::default();
    assert!(r.sfb_base() > Score::zero());
    assert!(r.travel_lat() > Score::zero());
    assert!(r.travel_vert() > Score::zero());
    assert_eq!(r.finger_effort().len(), 5);
    let raw: RawRubric = r.clone().into();
    let recovered = Rubric::from(raw);
    assert_eq!(r.sfb_base(), recovered.sfb_base());
    assert_eq!(r.finger_effort(), recovered.finger_effort());
}

#[test]
fn rubric_validation_messages() {
    let mut raw = RawRubric::default();
    raw.trigram_coverage = Score::from_scaled_i64(-100_000);
    match Rubric::from(raw.clone()).validate() {
        Err(ForgeError::InvalidData(m)) => {
            assert_eq!(m, "Trigram coverage must be between 0.0 and 1.0, found -0.1000")
        }
        other => panic!("unexpected {other:?}"),
    }
    raw.trigram_coverage = Score::from_scaled_i64(1_000_000);
    assert!(Rubric::from(raw.clone()).validate().is_ok());
    raw.trigram_limit = 0;
    match Rubric::from(raw.clone()).validate() {
        Err(ForgeError::InvalidData(m)) => assert_eq!(m, "Trigram limit must be greater than 0"),
        other => panic!("unexpected {other:?}"),
    }
    raw.trigram_limit = 1;
    raw.redirect = Score::from_scaled_i64(-1);
    match Rubric::from(raw).validate() {
        Err(ForgeError::InvalidData(m)) => assert_eq!(m, "Penalty redirect must be non-negative, found -0.0000"),
        other => panic!("unexpected {other:?}"),
    }
}

#[test]
fn rubric_builder_sets_fields() {
    let r = Rubric::builder()
        .finger_effort([1, 2, 3, 4, 5])
        .travel_lat(7)
        .sfb_long(9)
        .threshold_scissor_row_diff(3)
        .trigram_limit(42)
        .roll_out_bonus(-5)
        .build();
    assert_eq!(r.finger_effort()[0], Score::from_scaled_i64(1));
    assert_eq!(r.finger_effort()[4], Score::from_scaled_i64(5));
    assert_eq!(r.travel_lat(), Score::from_scaled_i64(7));
    assert_eq!(r.sfb_long(), Score::from_scaled_i64(9));
    assert_eq!(r.threshold_scissor_row_diff(), 3);
    assert_eq!(r.threshold_sfb_long_row_diff(), 2);
    assert_eq!(r.trigram_limit(), 42);
    assert_eq!(r.roll_out_bonus(), Score::from_scaled_i64(-5));
    assert_eq!(r.sfb_base(), Score::from_scaled_i64(400_000_000));
    assert!(r.validate().is_ok());
}

#[test]
fn score_display_four_decimals() {
    assert_eq!(Score::from_scaled_i64(1_234_567).display_string(), "1.2346");
    assert_eq!(Score::from_scaled_i64(2_000_000).display_string(), "2.0000");
    assert_eq!(Score::from_scaled_i64(-100_000).display_string(), "-0.1000");
    assert_eq!(Score::from_scaled_i64(49).display_string(), "0.0000");
    assert_eq!(Score::from_scaled_i64(50).display_string(), "0.0001");
}
