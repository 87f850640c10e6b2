use keyforge_model::asset::{Asset, AssetCategory};
use keyforge_model::error::ForgeError;
use keyforge_model::geometry::KeyboardDefinition;
use keyforge_model::keycodes::KeycodeRegistry;

#[derive(Debug)]
struct MockAsset;

impl Asset for MockAsset {
    fn category() -> AssetCategory {
        AssetCategory::Keyboard
    }
}

#[derive(Debug)]
struct DummyAsset;

impl Asset for DummyAsset {
    fn category() -> AssetCategory {
        AssetCategory::Rubric
    }
}

#[test]
fn test_asset_post_load_default() {
    let mut asset = MockAsset;
    assert!(asset.post_load().is_ok());
}

#[test]
fn test_asset_default_extension() {
    assert_eq!(MockAsset::default_extension(), "json");
}

#[test]
fn test_asset_category_as_str() {
    assert_eq!(AssetCategory::Keyboard.as_str(), "keyboards");
    assert_eq!(AssetCategory::CostModel.as_str(), "weights");
    assert_eq!(AssetCategory::Keycodes.as_str(), "config");
    assert_eq!(AssetCategory::Corpus.as_str(), "corpora");
    assert_eq!(AssetCategory::Rubric.as_str(), "rubrics");
}

#[test]
fn test_asset_category_derive() {
    let c = AssetCategory::Keyboard;
    let c2 = c;
    assert_eq!(c, c2);
    assert_eq!(AssetCategory::Rubric.as_str(), "rubrics");
}

#[test]
fn test_dummy_asset_extension() {
    assert_eq!(DummyAsset::default_extension(), "json");
    assert_eq!(DummyAsset::category(), AssetCategory::Rubric);
}

#[test]
fn keyboard_definition_post_load_reports_invalid_data() {
    let mut def = KeyboardDefinition::generate_test(0);
    match def.post_load() {
        Err(ForgeError::InvalidData(m)) => {
            assert_eq!(m, "Invalid home row r0: no keys found on this row and no keys marked is_home")
        }
        other => panic!("unexpected {other:?}"),
    }
    let mut ok = KeyboardDefinition::generate_test(3);
    assert!(ok.post_load().is_ok());
    assert_eq!(KeyboardDefinition::category(), AssetCategory::Keyboard);
    assert_eq!(KeycodeRegistry::category(), AssetCategory::Keycodes);
}
