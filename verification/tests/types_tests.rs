use keyforge_model::geometry::KeyNode;
use keyforge_model::types::{
    ColIndex, Finger, FingerIndex, Hand, HandIndex, KeyCode, KeyIndex, Movement, RowIndex, Score,
    SpaceHandPreference, SpatialUnit, TrigramFlow,
};
use keyforge_model::validator::Validator;

fn create_test_key(index: u16, hand: u8, finger: u8, row: i8, col: i8) -> KeyNode {
    KeyNode::builder()
        .index(KeyIndex::new(index))
        .hand(HandIndex::new(hand))
        .finger(FingerIndex::new_unchecked(finger))
        .row(RowIndex::new(row))
        .col(ColIndex::new(col))
        .x(SpatialUnit::new(col as i32 * 1000))
        .y(SpatialUnit::new(row as i32 * 1000))
        .build()
}

#[test]
fn test_score_saturation() {
    let max = Score::max_value();
    let added = max + Score::from_scaled_i64(100);
    assert_eq!(added, Score::max_value(), "Score should saturate at MAX");

    let min = Score::min_value();
    let subbed = min - Score::from_scaled_i64(100);
    assert_eq!(subbed, Score::min_value(), "Score should saturate at MIN");
}

#[test]
fn types_test_score_checked_ops() {
    let max = Score::max_value();
    assert!(max.checked_add(Score::from_scaled_i64(1)).is_none());
    assert!(Score::min_value().checked_sub(Score::from_scaled_i64(1)).is_none());
}

#[test]
fn mod_test_score_checked_ops() {
    let max = Score::max_value();
    assert!(max.checked_add(Score::from_scaled_i64(1)).is_none());
    assert!(Score::min_value().checked_sub(Score::from_scaled_i64(1)).is_none());
}

#[test]
fn score_checked_ops_in_range() {
    assert_eq!(Score::from_scaled_i64(2).checked_add(Score::from_scaled_i64(3)), Some(Score::from_scaled_i64(5)));
    assert_eq!(Score::from_scaled_i64(2).checked_mul(4), Some(Score::from_scaled_i64(8)));
    assert!(Score::max_value().checked_mul(2).is_none());
}

#[test]
fn test_score_overflow_saturation() {
    let max = Score::max_value();
    assert_eq!(max + Score::from_scaled_i64(1), Score::max_value());
    assert_eq!(Score::min_value() - Score::from_scaled_i64(1), Score::min_value());
    assert_eq!(max * 2, Score::max_value());
}

#[test]
fn mod_test_hand_index_try_from() {
    assert!(HandIndex::try_from(0u8).is_ok());
    assert!(HandIndex::try_from(1u8).is_ok());
    assert!(HandIndex::try_from(2u8).is_err());
}

#[test]
fn types_test_score_extended() {
    assert_eq!(Score::zero().raw(), 0);
    assert_eq!(Score::max_value().raw(), i64::MAX);
    assert_eq!(Score::min_value().raw(), i64::MIN);
    let s = Score::from_scaled_i64(100);
    assert_eq!(s.raw(), 100);
    let s1 = Score::from_scaled_i64(100);
    let s2 = Score::from_scaled_i64(50);
    assert_eq!((s1 + s2).raw(), 150);
    assert_eq!((s1 - s2).raw(), 50);
    assert_eq!((-s1).raw(), -100);
    assert_eq!((s1 * 2).raw(), 200);
}

#[test]
fn types_test_hand_index_try_from() {
    assert!(HandIndex::try_from(0u8).is_ok());
    assert!(HandIndex::try_from(1u8).is_ok());
    assert!(HandIndex::try_from(2u8).is_err());
    assert_eq!(HandIndex::try_from(7u8).unwrap_err(), "Invalid HandIndex: 7");
    assert_eq!(FingerIndex::try_from(5u8).unwrap_err(), "Invalid FingerIndex: 5");
}

#[test]
fn types_test_basic_types_coverage() {
    let ki = KeyIndex(10);
    assert_eq!(ki.display_string(), "10");
    assert_eq!(usize::from(ki), 10);
    assert_eq!(KeyIndex::from(10usize), ki);

    let kc = KeyCode(97);
    assert_eq!(kc.display_string(), "97");
    assert_eq!(u16::from(kc), 97);
    assert_eq!(KeyCode::from(97u16), kc);

    let hi = HandIndex::left();
    assert_eq!(hi.as_u8(), 0);
    assert_eq!(hi.as_usize(), 0);
    assert!(hi.is_left());
    assert!(!hi.is_right());
    assert!(HandIndex::right().is_right());
    assert_eq!(HandIndex::default(), HandIndex::left());

    let fi = FingerIndex::index_finger();
    assert_eq!(fi.as_u8(), 1);
    assert_eq!(fi.as_usize(), 1);
    assert_eq!(fi.distance(FingerIndex::pinky()), 3);
    assert_eq!(fi.diff(FingerIndex::pinky()), -3);
    assert!(!fi.is_weak());
    assert!(FingerIndex::ring().is_weak());
    assert_eq!(FingerIndex::default(), FingerIndex::index_finger());
    assert!(FingerIndex::try_from(1u8).is_ok());
    assert!(FingerIndex::try_from(5u8).is_err());

    assert_eq!(RowIndex::new(5) - RowIndex::new(2), 3);
    assert_eq!(ColIndex::new(5) - ColIndex::new(2), 3);
    assert_eq!(RowIndex::default().raw(), 0);
    assert_eq!(ColIndex::default().raw(), 0);

    assert_eq!(SpaceHandPreference::default(), SpaceHandPreference::Bilateral);
}

#[test]
fn mod_test_basic_types_coverage() {
    let ki = KeyIndex(10);
    assert_eq!(ki.display_string(), "10");
    assert_eq!(usize::from(ki), 10);
    assert_eq!(KeyIndex::from(10usize), ki);

    let kc = KeyCode(97);
    assert_eq!(kc.display_string(), "97");
    assert_eq!(u16::from(kc), 97);
    assert_eq!(KeyCode::from(97u16), kc);

    let hi = HandIndex::left();
    assert_eq!(hi.raw(), 0);
    assert_eq!(hi.as_usize(), 0);
    assert!(hi.is_left());
    assert!(!hi.is_right());
    assert!(HandIndex::right().is_right());
    assert_eq!(HandIndex::default(), HandIndex::left());

    let fi = FingerIndex::index_finger();
    assert_eq!(fi.raw(), 1);
    assert_eq!(fi.as_usize(), 1);
    assert_eq!(fi.distance(FingerIndex::pinky()), 3);
    assert_eq!(fi.diff(FingerIndex::pinky()), -3);
    assert!(!fi.is_weak());
    assert!(FingerIndex::ring().is_weak());
    assert_eq!(FingerIndex::default(), FingerIndex::index_finger());
    assert!(FingerIndex::try_from(1u8).is_ok());
    assert!(FingerIndex::try_from(5u8).is_err());

    assert_eq!(RowIndex::new(5) - RowIndex::new(2), 3);
    assert_eq!(ColIndex::new(5) - ColIndex::new(2), 3);
    assert_eq!(RowIndex::default().raw(), 0);
    assert_eq!(ColIndex::default().raw(), 0);

    assert_eq!(SpaceHandPreference::default(), SpaceHandPreference::Bilateral);
}

#[test]
fn mod_test_score_extended() {
    assert_eq!(Score::zero().raw(), 0);
    assert_eq!(Score::max_value().raw(), i64::MAX);
    assert_eq!(Score::min_value().raw(), i64::MIN);
    let s = Score::from_scaled_i64(100);
    assert_eq!(s.raw(), 100);
    let s1 = Score::from_scaled_i64(100);
    let s2 = Score::from_scaled_i64(50);
    assert_eq!((s1 + s2).raw(), 150);
    assert_eq!((s1 - s2).raw(), 50);
    assert_eq!((-s1).raw(), -100);
    assert_eq!((s1 * 2).raw(), 200);
}

#[test]
fn row_and_col_offsets_saturate() {
    assert_eq!((RowIndex::new(120) + 10).raw(), 127);
    assert_eq!((ColIndex::new(-120) + -10).raw(), -128);
    assert_eq!(RowIndex::new(-100) - RowIndex::new(100), -128);
    assert_eq!(RowIndex::new(5).display_string(), "r5");
    assert_eq!(ColIndex::new(-3).display_string(), "c-3");
}

#[test]
fn test_movement_scissor() {
    let k1 = create_test_key(0, 0, 1, 0, 0);
    let k2 = create_test_key(1, 0, 2, 2, 1);
    let m = Movement::from_keys(&k1, &k2);

    assert!(m.is_scissor(2));
    assert!(!m.is_scissor(3));

    let k3 = create_test_key(2, 0, 1, 2, 0);
    let m2 = Movement::from_keys(&k1, &k3);
    assert!(!m2.is_scissor(1));
}

#[test]
fn test_movement_sfb() {
    let k1 = create_test_key(0, 0, 1, 0, 0);
    let k2 = create_test_key(1, 0, 1, 1, 0);
    let m = Movement::from_keys(&k1, &k2);
    assert!(m.is_sfb());

    let k3 = create_test_key(2, 0, 2, 1, 1);
    let m2 = Movement::from_keys(&k1, &k3);
    assert!(!m2.is_sfb());
}

#[test]
fn test_trigram_flow_redirect() {
    let k1 = create_test_key(0, 0, 1, 0, 0);
    let k2 = create_test_key(1, 0, 2, 0, 1);
    let k3 = create_test_key(2, 0, 1, 0, 0);

    let flow = TrigramFlow::from_keys(&k1, &k2, &k3);
    assert!(flow.is_redirect());

    let k4 = create_test_key(3, 0, 3, 0, 2);
    let flow2 = TrigramFlow::from_keys(&k1, &k2, &k4);
    assert!(!flow2.is_redirect());
}

#[test]
fn test_trigram_flow_rolls() {
    let k1 = create_test_key(0, 0, 4, 0, 0);
    let k2 = create_test_key(1, 0, 3, 0, 1);
    let k3 = create_test_key(2, 0, 2, 0, 2);

    let flow = TrigramFlow::from_keys(&k1, &k2, &k3);
    assert!(flow.is_roll_in());
    assert!(!flow.is_roll_out());

    let k4 = create_test_key(3, 1, 4, 0, 5);
    let k5 = create_test_key(4, 1, 3, 0, 4);
    let k6 = create_test_key(5, 1, 2, 0, 3);

    let flow2 = TrigramFlow::from_keys(&k4, &k5, &k6);
    assert!(flow2.is_roll_in());

    let k7 = create_test_key(6, 0, 0, 0, 0);
    let k8 = create_test_key(7, 0, 1, 0, 1);
    let k9 = create_test_key(8, 0, 2, 0, 2);

    let flow3 = TrigramFlow::from_keys(&k7, &k8, &k9);
    assert!(flow3.is_roll_out());
}

#[test]
fn movement_and_flow_validation() {
    let k1 = create_test_key(0, 0, 1, 0, 0);
    let k2 = create_test_key(1, 1, 1, 0, 1);
    let m = Movement::from_keys(&k1, &k2);
    assert!(m.validate().is_ok());
    assert!(!m.is_same_hand());
    assert_eq!(m.dist_sq(), 1_000_000);
    assert_eq!(m.manhattan(), 1000);
    let flow = TrigramFlow::from_keys(&k1, &k2, &k1);
    assert!(flow.validate().is_ok());
    let broken = TrigramFlow { m1: Movement::from_keys(&k1, &k2), m2: Movement::from_keys(&k1, &k2) };
    assert_eq!(broken.validate().unwrap_err(), "TrigramFlow movements must be contiguous (h1.end != h2.start)");
    assert_eq!(Hand::from(HandIndex::new(1)), Hand::Right);
    assert_eq!(Finger::from(FingerIndex::new_unchecked(4)), Finger::Pinky);
}

#[test]
fn row_and_col_parse() {
    assert_eq!("r3".parse::<RowIndex>().unwrap(), RowIndex::new(3));
    assert_eq!("-2".parse::<RowIndex>().unwrap(), RowIndex::new(-2));
    assert_eq!("r+7".parse::<RowIndex>().unwrap(), RowIndex::new(7));
    assert!("r".parse::<RowIndex>().is_err());
    assert!("r128".parse::<RowIndex>().is_err());
    assert!("c3".parse::<RowIndex>().is_err());
    assert_eq!("c-128".parse::<ColIndex>().unwrap(), ColIndex::new(-128));
    assert_eq!("12".parse::<ColIndex>().unwrap(), ColIndex::new(12));
    assert!("c 1".parse::<ColIndex>().is_err());
}

#[test]
fn score_normalized_adds_half_the_divisor() {
    let s = Score::from_scaled_i64(-5);
    assert_eq!(s.normalized(1, 2), Ok(Score::from_scaled_i64(-2)));
    assert_eq!(Score::from_scaled_i64(5).normalized(1, 2), Ok(Score::from_scaled_i64(3)));
    assert_eq!(Score::from_scaled_i64(7).normalized(100_000, 1_000), Ok(Score::from_scaled_i64(700)));
    assert_eq!(
        Score::from_scaled_i64(1).normalized(1, 0),
        Err("Division by zero in normalization".to_string())
    );
    assert!(Score::max_value().normalized(2, 1).is_err());
}
