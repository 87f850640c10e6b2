use keyforge_model::config::utils::split_key_val;
use keyforge_model::config::source::ASSET_COST_MATRIX;
use keyforge_model::config::{CorsConfig, CostMatrixSource, EngineConfig, KeyConstraint};
use keyforge_model::types::KeyIndex;
use keyforge_model::validator::Validator;

#[test]
fn test_key_constraint_creation() {
    let c = KeyConstraint::new(KeyIndex::new(0), "KC_A".to_string());
    assert_eq!(c.index.raw(), 0);
    assert_eq!(c.key, "KC_A");
}

#[test]
fn test_key_constraint_parsing() {
    let c: KeyConstraint = "10:KC_B".parse().unwrap();
    assert_eq!(c.index.raw(), 10);
    assert_eq!(c.key, "KC_B");

    assert!("invalid".parse::<KeyConstraint>().is_err());
    assert!("abc:KC_A".parse::<KeyConstraint>().is_err());
}

#[test]
fn key_constraint_errors_and_edges() {
    assert_eq!(
        KeyConstraint::parse("1:2:3").unwrap_err(),
        "Invalid constraint format. Expected 'index:key'"
    );
    assert_eq!(KeyConstraint::parse("70000:KC_A").unwrap_err(), "Invalid index in constraint");
    assert_eq!(KeyConstraint::parse(":KC_A").unwrap_err(), "Invalid index in constraint");
    let c = KeyConstraint::parse("+7:").unwrap();
    assert_eq!(c.index.raw(), 7);
    assert_eq!(c.key, "");
    assert_eq!(c.validate().unwrap_err(), "Constraint key cannot be empty");
    let c = KeyConstraint::parse("65535:X").unwrap();
    assert_eq!(c.index.raw(), 65535);
    assert!(c.validate().is_ok());
}

#[test]
fn test_cost_matrix_source() {
    let default = CostMatrixSource::default();
    assert!(matches!(default, CostMatrixSource::Predefined(_)));
    assert_eq!(default.display_string(), ASSET_COST_MATRIX);
}

#[test]
fn engine_and_cors_config() {
    let e = EngineConfig::default();
    assert_eq!(e.l1d_size, 32 * 1024);
    assert_eq!(e.l2_size, 256 * 1024);
    assert_eq!(e.l3_size, 8 * 1024 * 1024);
    assert!(e.use_prefetch);
    assert!(e.validate().is_ok());
    let zero = EngineConfig { l1d_size: 0, ..e };
    assert_eq!(zero.validate().unwrap_err(), "L1D size cannot be zero");
    let cors = CorsConfig { allowed_origins: "*".into() };
    assert!(cors.validate().is_ok());
    assert_eq!(CorsConfig::default().allowed_origins, "");
}

#[test]
fn split_key_val_cases() {
    assert_eq!(
        split_key_val("a=1.0"),
        Ok(("a".to_string(), "1.0".to_string()))
    );
    assert_eq!(
        split_key_val("key=0.5=x"),
        Ok(("key".to_string(), "0.5=x".to_string()))
    );
    assert_eq!(split_key_val("a="), Ok(("a".to_string(), String::new())));
    assert_eq!(
        split_key_val("invalid"),
        Err("invalid KEY=VALUE: no '=' found in 'invalid'".to_string())
    );
    assert_eq!(
        split_key_val("=3"),
        Err("invalid KEY=VALUE: empty key".to_string())
    );
}
