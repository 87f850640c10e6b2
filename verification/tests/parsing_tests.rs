use keyforge_model::parsing::{parse_function_call, parse_key, parse_key_upper, split_args_safe, KeyAction};

#[test]
fn test_key_action_parsing() {
    assert_eq!(parse_key("KC_A"), KeyAction::Simple("KC_A".to_string()));
    assert_eq!(parse_key("TRNS"), KeyAction::Transparent);

    match parse_key("MO(1)") {
        KeyAction::LayerMomentary(1) => {}
        _ => panic!("Failed to parse MO(1)"),
    }

    match parse_key("LT(2, KC_SPC)") {
        KeyAction::LayerTap { layer: 2, key } => assert_eq!(*key, KeyAction::Simple("KC_SPC".to_string())),
        _ => panic!("Failed to parse LT"),
    }

    match parse_key("MT(MOD_LCTL, LT(1, A))") {
        KeyAction::ModTap { mod_name, key } => {
            assert_eq!(mod_name, "MOD_LCTL");
            match *key {
                KeyAction::LayerTap { layer: 1, key: inner_key } => {
                    assert_eq!(*inner_key, KeyAction::Simple("KC_A".to_string()));
                }
                _ => panic!("Failed to parse nested LT"),
            }
        }
        _ => panic!("Failed to parse nested ModTap"),
    }
}

#[test]
fn test_key_action_parsing_extended() {
    assert_eq!(parse_key("NO"), KeyAction::NoOp);
    assert_eq!(parse_key("CW"), KeyAction::CapsWord);
    assert_eq!(parse_key("SK(MOD_LSFT)"), KeyAction::StickyMod("MOD_LSFT".to_string()));
    assert_eq!(parse_key("TG(3)"), KeyAction::LayerToggle(3));
    assert_eq!(parse_key("TO(4)"), KeyAction::LayerOn(4));

    match parse_key("LSFT_T(KC_Z)") {
        KeyAction::ModTap { mod_name, key } => {
            assert_eq!(mod_name, "LSFT");
            assert_eq!(*key, KeyAction::Simple("KC_Z".to_string()));
        }
        _ => panic!("Failed to parse MOD_T"),
    }

    assert!(matches!(parse_key("INVALID("), KeyAction::Raw(_)));
    assert!(matches!(parse_key("X".repeat(101).as_str()), KeyAction::Raw(_)));
    assert!(matches!(parse_key("LT(1)"), KeyAction::Raw(_)));
    assert!(matches!(parse_key("MT(MOD_LSFT)"), KeyAction::Raw(_)));

    let dot = parse_key(".");
    assert_eq!(dot, KeyAction::Simple(".".into()));

    let mt = parse_key("LSFT_T(Z)");
    assert!(matches!(mt, KeyAction::ModTap { mod_name, .. } if mod_name == "LSFT"));

    assert!(split_args_safe("no_comma").is_none());

    let res = split_args_safe("MOD(A,B),C");
    assert_eq!(res, Some(("MOD(A,B)".to_string(), "C".to_string())));
}

#[test]
fn parse_key_case_insensitive_and_trimmed() {
    assert_eq!(parse_key("  mo(2) "), KeyAction::LayerMomentary(2));
    assert_eq!(parse_key("trns"), KeyAction::Transparent);
    assert_eq!(parse_key("a"), KeyAction::Simple("KC_A".into()));
    assert_eq!(parse_key("xxx"), KeyAction::NoOp);
    assert_eq!(parse_key("caps_word"), KeyAction::CapsWord);
    assert_eq!(parse_key("osm(mod_lctl)"), KeyAction::StickyMod("MOD_LCTL".into()));
    assert_eq!(parse_key(""), KeyAction::Simple("KC_".into()));
}

#[test]
fn parse_key_layer_edges() {
    assert_eq!(parse_key("MO(255)"), KeyAction::LayerMomentary(255));
    assert!(matches!(parse_key("MO(256)"), KeyAction::Raw(_)));
    assert_eq!(parse_key("MO(+7)"), KeyAction::LayerMomentary(7));
    assert!(matches!(parse_key("MO( 7)"), KeyAction::Raw(_)));
    assert!(matches!(parse_key("MO(-1)"), KeyAction::Raw(_)));
    assert_eq!(
        parse_key("LT( 3 , esc)"),
        KeyAction::LayerTap { layer: 3, key: Box::new(KeyAction::Simple("KC_ESC".into())) }
    );
    // Repeated "_T" suffixes are all removed from the modifier name.
    assert_eq!(
        parse_key("A_T_T(B)"),
        KeyAction::ModTap { mod_name: "A".into(), key: Box::new(KeyAction::Simple("KC_B".into())) }
    );
    assert_eq!(parse_key("KC-1"), KeyAction::Simple("KC-1".into()));
    // 100 bytes is still interpreted; 101 is not.
    assert_eq!(parse_key(&"A".repeat(100)), KeyAction::Simple(format!("KC_{}", "A".repeat(100))));
}

#[test]
fn function_call_split() {
    assert_eq!(parse_function_call(" MO (1)"), Some(("MO".to_string(), "1".to_string())));
    assert_eq!(parse_function_call("X(a(b))"), Some(("X".to_string(), "a(b)".to_string())));
    assert_eq!(parse_function_call("X(a"), None);
    assert_eq!(parse_function_call("noparen)"), None);
    assert_eq!(split_args_safe("a,b,c"), Some(("a".to_string(), "b,c".to_string())));
    assert_eq!(split_args_safe(")(,x"), Some((")(".to_string(), "x".to_string())));
    assert_eq!(split_args_safe("(,)"), None);
    assert_eq!(split_args_safe(",x"), Some(("".to_string(), "x".to_string())));
}

#[test]
fn parse_key_upper_uses_the_given_upper_form() {
    let chars = |s: &str| s.chars().collect::<Vec<char>>();
    // Keywords and calls are read from the upper form; the fallback keeps the token.
    assert_eq!(parse_key_upper(&chars("trns"), &chars("TRNS"), 3), KeyAction::Transparent);
    assert_eq!(parse_key_upper(&chars("mo(4)"), &chars("MO(4)"), 3), KeyAction::LayerMomentary(4));
    assert_eq!(parse_key_upper(&chars("a"), &chars("A"), 3), KeyAction::Simple("KC_A".to_string()));
    assert_eq!(parse_key_upper(&chars("x(1)"), &chars("X(1)"), 3), KeyAction::Raw("x(1)".to_string()));
    // With no nesting left, the key of a call stays raw.
    match parse_key_upper(&chars("lt(1, b)"), &chars("LT(1, B)"), 0) {
        KeyAction::LayerTap { layer: 1, key } => assert_eq!(*key, KeyAction::Raw("B".to_string())),
        other => panic!("unexpected {other:?}"),
    }
}
