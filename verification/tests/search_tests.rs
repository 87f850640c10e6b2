use keyforge_model::config::search::{
    DEFAULT_OPT_LIMIT_FAST, DEFAULT_OPT_LIMIT_SLOW, DEFAULT_REHEATS, DEFAULT_REHEAT_FACTOR,
    DEFAULT_SEARCH_EPOCHS, DEFAULT_SEARCH_PATIENCE, DEFAULT_SEARCH_PATIENCE_THRESHOLD,
    DEFAULT_SEARCH_STEPS, DEFAULT_TEMP_MAX, DEFAULT_TEMP_MIN, MAX_OPT_LIMIT_FAST,
    MAX_SEARCH_EPOCHS, MAX_SEARCH_STEPS, MAX_TEMP,
};
use keyforge_model::config::{SearchConfig, SearchParams};
use keyforge_model::types::Score;
use keyforge_model::validator::Validator;

fn s(raw: i64) -> Score {
    Score::from_scaled_i64(raw)
}

fn count(n: usize) -> Score {
    Score::from_scaled_i64(n as i64 * 1_000_000)
}

fn annealing(
    steps: usize,
    start: i64,
    end: i64,
    seed: u64,
    patience: usize,
    reheats: usize,
    factor: i64,
    include_thumbs: bool,
) -> SearchConfig {
    SearchConfig::Annealing {
        steps,
        start_temp: s(start),
        end_temp: s(end),
        seed,
        patience,
        reheats,
        reheat_factor: s(factor),
        include_thumbs,
    }
}

#[test]
fn search_test_search_config_validation() {
    let c = SearchConfig::default();
    assert!(c.validate().is_ok());

    let invalid_steps = annealing(0, 100_000_000, 10_000, 42, 500, 3, 500_000, false);
    assert!(invalid_steps.validate().is_err());

    let invalid_temp = annealing(100, -1_000_000, 10_000, 42, 500, 3, 500_000, false);
    assert!(invalid_temp.validate().is_err());
}

#[test]
fn search_test_search_config_validation_extended() {
    let c = annealing(100, 10_000_000, -1_000_000, 0, 10, 0, 500_000, false);
    assert!(c.validate().is_err());

    let c = annealing(100, 10_000_000, 100_000, 0, 10, 1, 0, false);
    assert!(c.validate().is_err());

    assert!(!SearchConfig::default().include_thumbs());
    assert!(annealing(100, 10_000_000, 100_000, 0, 10, 1, 500_000, true).include_thumbs());
}

#[test]
fn config_test_search_config_validation() {
    let c = SearchConfig::default();
    assert!(c.validate().is_ok());
    let invalid_steps = annealing(0, 100_000_000, 10_000, 42, 500, 3, 500_000, false);
    assert!(invalid_steps.validate().is_err());
    let invalid_temp = annealing(100, -1_000_000, 10_000, 42, 500, 3, 500_000, false);
    assert!(invalid_temp.validate().is_err());
}

#[test]
fn config_test_search_config_validation_extended() {
    let c = annealing(100, 10_000_000, -1_000_000, 0, 10, 0, 500_000, false);
    assert!(c.validate().is_err());
    let c = annealing(100, 10_000_000, 100_000, 0, 10, 1, 0, false);
    assert!(c.validate().is_err());
    assert!(!SearchConfig::default().include_thumbs());
    assert!(annealing(100, 10_000_000, 100_000, 0, 10, 1, 500_000, true).include_thumbs());
}

#[test]
fn tests_test_search_config_validation() {
    let config = annealing(0, 100_000_000, 10_000, 0, 100, 0, 500_000, false);
    assert!(config.validate().is_err());
}

#[test]
fn search_config_messages() {
    let msg = |c: SearchConfig| c.validate().unwrap_err().message();
    assert_eq!(
        msg(annealing(0, 1, 1, 0, 0, 0, 1, false)),
        "Invalid Data: Steps must be > 0"
    );
    assert_eq!(
        msg(annealing(1, -1, 1, 0, 0, 0, 1, false)),
        "Invalid Data: Start temp must be >= 0"
    );
    assert_eq!(
        msg(annealing(1, 0, -1, 0, 0, 0, 1, false)),
        "Invalid Data: End temp must be >= 0"
    );
    assert_eq!(
        msg(annealing(1, 0, 0, 0, 0, 0, -3, false)),
        "Invalid Data: Reheat factor must be > 0"
    );
    assert!(annealing(1, 0, 0, 0, 0, 0, 1, false).validate().is_ok());
}

#[test]
fn test_search_params_getters() {
    let p = SearchParams::default();
    assert_eq!(p.get_search_epochs(), DEFAULT_SEARCH_EPOCHS);
    assert_eq!(p.get_search_steps(), DEFAULT_SEARCH_STEPS);
    assert_eq!(p.get_search_patience(), DEFAULT_SEARCH_PATIENCE);
    assert_eq!(
        p.get_search_patience_threshold(),
        s(DEFAULT_SEARCH_PATIENCE_THRESHOLD)
    );
    assert_eq!(p.get_temp_min(), s(DEFAULT_TEMP_MIN));
    assert_eq!(p.get_temp_max(), s(DEFAULT_TEMP_MAX));
    assert_eq!(p.get_opt_limit_fast(), DEFAULT_OPT_LIMIT_FAST);
    assert_eq!(p.get_opt_limit_slow(), DEFAULT_OPT_LIMIT_SLOW);
    assert_eq!(p.get_reheats(), DEFAULT_REHEATS);
    assert_eq!(p.get_reheat_factor(), s(DEFAULT_REHEAT_FACTOR));

    let empty = SearchParams {
        params: Vec::new(),
        seed: None,
        include_thumbs: false,
    };
    assert_eq!(empty.get_search_epochs(), DEFAULT_SEARCH_EPOCHS);
    assert_eq!(empty.get_search_steps(), DEFAULT_SEARCH_STEPS);
    assert_eq!(empty.get_opt_limit_fast(), DEFAULT_OPT_LIMIT_FAST);
    assert_eq!(empty.get_reheats(), DEFAULT_REHEATS);
}

#[test]
fn test_search_params_validation_extended() {
    let mut p = SearchParams::default();

    p.set_param("search_epochs", count(MAX_SEARCH_EPOCHS + 1));
    assert!(p.validate().is_err());

    p = SearchParams::default();
    p.set_param("search_steps", count(MAX_SEARCH_STEPS + 1));
    assert!(p.validate().is_err());

    p = SearchParams::default();
    p.set_param("opt_limit_fast", s(0));
    assert!(p.validate().is_err());

    p = SearchParams::default();
    p.set_param("opt_limit_fast", count(MAX_OPT_LIMIT_FAST + 1));
    assert!(p.validate().is_err());

    p = SearchParams::default();
    p.set_param("opt_limit_fast", count(1000));
    p.set_param("opt_limit_slow", count(500));
    assert!(p.validate().is_err());

    p = SearchParams::default();
    p.set_param("temp_max", s(MAX_TEMP + 1_000_000));
    assert!(p.validate().is_err());

    p = SearchParams::default();
    p.set_param("temp_min", s(10));
    assert!(p.validate().is_err());

    p = SearchParams::default();
    p.set_param("temp_min", s(10_000_000));
    p.set_param("temp_max", s(5_000_000));
    assert!(p.validate().is_err());
}

#[test]
fn test_search_params_schema() {
    let schema = SearchParams::schema();
    assert!(!schema.is_empty());
    assert!(schema.iter().any(|m| m.key == "search_epochs"));
}

#[test]
fn test_search_params_validation_errors() {
    let mut p = SearchParams::default();

    p.set_param("search_epochs", s(0));
    assert!(p.validate().is_err());
    p.set_param("search_epochs", count(10));

    p.set_param("search_steps", s(0));
    assert!(p.validate().is_err());
    p.set_param("search_steps", count(100));

    p.set_param("temp_max", s(-1_000_000));
    assert!(p.validate().is_err());
    p.set_param("temp_max", count(100));

    p.set_param("search_patience_threshold", count(2));
    assert!(p.validate().is_err());
}

#[test]
fn search_params_messages() {
    let err = |p: &SearchParams| p.validate().unwrap_err();
    let mut p = SearchParams::default();
    assert!(p.validate().is_ok());
    p.set_param("search_epochs", count(MAX_SEARCH_EPOCHS + 1));
    assert_eq!(err(&p), "search_epochs exceeds limit (1000000)");
    p.set_param("search_epochs", s(999_999));
    assert_eq!(err(&p), "search_epochs must be > 0");
    let mut p = SearchParams::default();
    p.set_param("search_steps", count(MAX_SEARCH_STEPS + 1));
    assert_eq!(err(&p), "search_steps exceeds limit (5000000)");
    let mut p = SearchParams::default();
    p.set_param("opt_limit_fast", count(MAX_OPT_LIMIT_FAST + 1));
    assert_eq!(err(&p), "opt_limit_fast exceeds limit (10000)");
    let mut p = SearchParams::default();
    p.set_param("opt_limit_slow", count(99));
    assert_eq!(err(&p), "opt_limit_slow must be >= opt_limit_fast");
    let mut p = SearchParams::default();
    p.set_param("temp_min", s(-1));
    assert_eq!(err(&p), "Temperature cannot be negative");
    let mut p = SearchParams::default();
    p.set_param("temp_max", s(MAX_TEMP + 1));
    assert_eq!(err(&p), "temp_max exceeds limit (1000)");
    let mut p = SearchParams::default();
    p.set_param("temp_min", s(99));
    assert_eq!(err(&p), "temp_min too low (underflow risk)");
    let mut p = SearchParams::default();
    p.set_param("temp_min", s(DEFAULT_TEMP_MAX));
    assert_eq!(err(&p), "temp_min must be < temp_max");
    let mut p = SearchParams::default();
    p.set_param("search_patience_threshold", s(1_000_001));
    assert_eq!(err(&p), "search_patience_threshold must be between 0.0 and 1.0");
    p.set_param("search_patience_threshold", s(1_000_000));
    assert!(p.validate().is_ok());
}

#[test]
fn test_search_params_config_conversion() {
    let p = SearchParams::from_overrides(vec![("temp_max".to_string(), count(50))], true).unwrap();
    assert_eq!(p.get_temp_max(), count(50));
    assert!(p.include_thumbs);
    assert!(p.seed.is_none());
    let e = SearchParams::from_overrides(vec![("reheats".to_string(), s(1)), ("search_epochs".to_string(), s(0))], false)
        .unwrap_err();
    assert_eq!(e, "search_epochs must be > 0");
}
