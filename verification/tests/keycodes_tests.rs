use keyforge_model::asset::{Asset, AssetCategory};
use keyforge_model::keycodes::{qmk_to_ascii, KeycodeDefinition, KeycodeRegistry};
use keyforge_model::types::KeyCode;
use keyforge_model::validator::Validator;

fn def(code: u16, id: &str, label: &str) -> KeycodeDefinition {
    KeycodeDefinition { code: KeyCode(code), id: id.into(), label: label.into(), aliases: vec![] }
}

#[test]
fn test_keycode_definition_validation() {
    let valid = KeycodeDefinition { code: KeyCode(10), id: "KC_A".into(), label: "A".into(), aliases: vec![] };
    assert!(valid.validate().is_ok());

    let empty_id = KeycodeDefinition { code: KeyCode(10), id: " ".into(), label: "A".into(), aliases: vec![] };
    assert!(empty_id.validate().is_err());

    let empty_label = KeycodeDefinition { code: KeyCode(10), id: "KC_A".into(), label: String::new(), aliases: vec![] };
    assert!(empty_label.validate().is_err());
}

#[test]
fn keycode_definition_error_messages() {
    assert_eq!(def(10, " ", "A").validate().unwrap_err(), "Keycode 10 has empty ID");
    assert_eq!(def(11, "KC_B", "").validate().unwrap_err(), "Keycode 11 (KC_B) has empty label");
}

#[test]
fn test_keycode_definition_display() {
    let d = KeycodeDefinition { code: KeyCode(10), id: "KC_A".into(), label: "A".into(), aliases: vec![] };
    assert_eq!(d.display_string(), "KC_A: 10 (A)");
}

#[test]
fn test_keycode_registry_normalization() {
    let defs = vec![
        KeycodeDefinition { code: KeyCode(65), id: "A".into(), label: "A".into(), aliases: vec![] },
        KeycodeDefinition { code: KeyCode(97), id: "a_lower".into(), label: "a".into(), aliases: vec![] },
        KeycodeDefinition { code: KeyCode(4), id: "KC_A_QMK".into(), label: "A".into(), aliases: vec![] },
    ];
    let reg = KeycodeRegistry::new(defs);
    assert_eq!(reg.definitions.len(), 1);
    assert_eq!(reg.definitions[0].code.0, 97);
}

#[test]
fn registry_normalization_keeps_first_and_order() {
    // 66 ('B') becomes 'b' (98) and shadows the later 98; 30 is QMK '1' (49).
    let defs = vec![def(30, "KC_1", "1"), def(66, "X", "X"), def(98, "b", "b"), def(200, "Y", "Y")];
    let reg = KeycodeRegistry::new(defs);
    let codes: Vec<u16> = reg.definitions.iter().map(|d| d.code.0).collect();
    assert_eq!(codes, vec![49, 98, 200]);
    assert_eq!(reg.definitions[1].id, "X");
}

#[test]
fn registry_keeps_codes_above_ascii() {
    // Only A to Z are lower-cased: 321 (whose low byte is 'A') stays as it is.
    let reg = KeycodeRegistry::new(vec![def(321, "X", "X"), def(97, "a", "a")]);
    let codes: Vec<u16> = reg.definitions.iter().map(|d| d.code.0).collect();
    assert_eq!(codes, vec![321, 97]);
    assert_eq!(reg.get_code("x"), Some(KeyCode(321)));
}

#[test]
fn test_keycode_registry_lookups() {
    let reg = KeycodeRegistry::new_with_defaults();
    assert_eq!(reg.get_code("KC_NO"), Some(KeyCode(0)));
    assert_eq!(reg.get_code("kc_no"), Some(KeyCode(0)));
    assert_eq!(reg.get_code("NONEXISTENT"), None);

    assert_eq!(reg.get_label(KeyCode(0)), " ");
    assert_eq!(reg.get_label(KeyCode(999)), "[999]");
}

#[test]
fn registry_lookup_by_label_alias_and_last_wins() {
    let reg = KeycodeRegistry::new_with_defaults();
    assert_eq!(reg.get_code("xxxxxxx"), Some(KeyCode(0)));
    assert_eq!(reg.get_code("kc_trns"), Some(KeyCode(1)));
    assert_eq!(reg.get_code("_______"), Some(KeyCode(1)));
    assert_eq!(reg.get_label(KeyCode(1)), "\u{25bd}");
    // Two definitions share the label "SAME": the later one wins the name lookup.
    let reg = KeycodeRegistry::new(vec![def(200, "FIRST", "same"), def(201, "SECOND", "same")]);
    assert_eq!(reg.get_code("Same"), Some(KeyCode(201)));
    assert_eq!(reg.get_code("first"), Some(KeyCode(200)));
}

#[test]
fn test_keycode_asset_and_conversions() {
    let reg = KeycodeRegistry::new_with_defaults();
    assert_eq!(KeycodeRegistry::category(), AssetCategory::Keycodes);

    let mut reg_clone = reg.clone();
    assert!(reg_clone.post_load().is_ok());

    let defs: Vec<KeycodeDefinition> = reg.clone().into();
    assert_eq!(defs.len(), reg.definitions.len());

    let reg_from: KeycodeRegistry = defs.into();
    assert_eq!(reg_from.definitions.len(), reg.definitions.len());
}

#[test]
fn test_qmk_to_ascii_mapping_exhaustive() {
    assert_eq!(qmk_to_ascii(39), Some(48));
    assert_eq!(qmk_to_ascii(40), Some(10));
    assert_eq!(qmk_to_ascii(41), Some(27));
    assert_eq!(qmk_to_ascii(42), Some(8));
    assert_eq!(qmk_to_ascii(43), Some(9));
    assert_eq!(qmk_to_ascii(44), Some(32));
    assert_eq!(qmk_to_ascii(45), Some(45));
    assert_eq!(qmk_to_ascii(46), Some(61));
    assert_eq!(qmk_to_ascii(47), Some(91));
    assert_eq!(qmk_to_ascii(48), Some(93));
    assert_eq!(qmk_to_ascii(49), Some(92));
    assert_eq!(qmk_to_ascii(51), Some(59));
    assert_eq!(qmk_to_ascii(52), Some(39));
    assert_eq!(qmk_to_ascii(53), Some(96));
    assert_eq!(qmk_to_ascii(54), Some(44));
    assert_eq!(qmk_to_ascii(55), Some(46));
    assert_eq!(qmk_to_ascii(56), Some(47));
    assert_eq!(qmk_to_ascii(100), None);
}

#[test]
fn qmk_letters_and_digits() {
    assert_eq!(qmk_to_ascii(4), Some(97));
    assert_eq!(qmk_to_ascii(29), Some(122));
    assert_eq!(qmk_to_ascii(30), Some(49));
    assert_eq!(qmk_to_ascii(38), Some(57));
    assert_eq!(qmk_to_ascii(50), None);
    assert_eq!(qmk_to_ascii(3), None);
}

#[test]
fn test_keycode_registry_validation_duplicates() {
    let mut reg = KeycodeRegistry::default();
    reg.definitions.push(KeycodeDefinition { code: KeyCode(10), id: "A".into(), label: "A".into(), aliases: vec![] });
    reg.definitions.push(KeycodeDefinition { code: KeyCode(11), id: "a".into(), label: "B".into(), aliases: vec![] });
    assert!(reg.validate().is_err(), "Should fail on duplicate ID (case-insensitive)");

    let mut reg = KeycodeRegistry::default();
    reg.definitions.push(KeycodeDefinition { code: KeyCode(10), id: "A".into(), label: "A".into(), aliases: vec![] });
    reg.definitions.push(KeycodeDefinition { code: KeyCode(10), id: "B".into(), label: "B".into(), aliases: vec![] });
    assert!(reg.validate().is_err(), "Should fail on duplicate Code");
}

#[test]
fn registry_validation_messages() {
    let mut reg = KeycodeRegistry::default();
    reg.definitions.push(def(10, "A", "A"));
    reg.definitions.push(def(11, "a", "B"));
    assert_eq!(reg.validate().unwrap_err(), "Duplicate Key ID: a");
    let mut reg = KeycodeRegistry::default();
    reg.definitions.push(def(10, "A", "A"));
    reg.definitions.push(def(10, "B", "B"));
    assert_eq!(reg.validate().unwrap_err(), "Duplicate KeyCode: 10");
    let mut reg = KeycodeRegistry::default();
    reg.definitions.push(def(10, "A", "A"));
    reg.definitions.push(def(10, " ", "B"));
    assert_eq!(reg.validate().unwrap_err(), "Keycode 10 has empty ID");
}

#[test]
fn get_code_upper_matches_stored_names_exactly() {
    let reg = KeycodeRegistry::new_with_defaults();
    assert_eq!(reg.get_code_upper("KC_NO"), Some(KeyCode(0)));
    assert_eq!(reg.get_code_upper("kc_no"), None);
}

#[test]
fn registry_has_no_upper_case_letter_codes() {
    let reg = KeycodeRegistry::new(vec![def(65, "A", "A"), def(90, "Z", "Z"), def(321, "X", "X"), def(5, "KC_B", "b")]);
    let codes: Vec<u16> = reg.definitions.iter().map(|d| d.code.0).collect();
    assert_eq!(codes, vec![97, 122, 321, 98]);
    assert!(codes.iter().all(|c| !(65..=90).contains(c)));
}
