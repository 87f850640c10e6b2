use keyforge_model::geometry::{KeyNode, KeyboardDefinition, KeyboardGeometry, F32_ONE_BITS};
use keyforge_model::types::{FingerIndex, HandIndex, KeyIndex, RowIndex, SpatialUnit};
use keyforge_model::validator::Validator;

fn geometry_with(keys: Vec<KeyNode>, prime: Vec<u16>, med: Vec<u16>, low: Vec<u16>) -> KeyboardGeometry {
    KeyboardGeometry::new(
        keys,
        prime.into_iter().map(KeyIndex).collect(),
        med.into_iter().map(KeyIndex).collect(),
        low.into_iter().map(KeyIndex).collect(),
        RowIndex::new(0),
    )
}

#[test]
fn generated_test_keyboard() {
    let d = KeyboardDefinition::generate_test(12);
    assert_eq!(d.meta.name, "Test-12");
    assert_eq!(d.meta.author, "system");
    assert_eq!(d.geometry.keys.len(), 12);
    assert_eq!(d.geometry.keys[3].label, "K03");
    assert_eq!(d.geometry.keys[11].label, "K11");
    assert_eq!(d.geometry.keys[11].x.raw(), 11_000);
    assert_eq!(d.geometry.keys[11].col.raw(), 11);
    assert_eq!(d.geometry.keys[5].w_bits, F32_ONE_BITS);
    assert_eq!(d.geometry.prime_slots.len(), 12);
    assert_eq!(d.geometry.prime_slots[7], KeyIndex(7));
    assert!(d.layouts.is_empty());
    assert!(d.validate().is_ok());
}

#[test]
fn geometry_hash_is_sha256_hex_of_fields() {
    let d = KeyboardDefinition::generate_test(2);
    assert_eq!(
        d.geometry.calculate_hash(),
        "d2994c7458e2dd90e61ba09f4760280c0d6f5e608fd0aa02d96ef8879adf7ed4"
    );
    assert_eq!(
        KeyboardGeometry::default().calculate_hash(),
        "6e340b9cffb37a989ca544e6bb780a2c78901d3fb33738768511a30617afa01d"
    );
    let moved = d.geometry.clone().with_thresholds(5, 6);
    assert_eq!(moved.calculate_hash(), d.geometry.calculate_hash());
    assert_eq!(moved.threshold_sfb_long_row_diff(), 5);
    assert_eq!(moved.threshold_scissor_row_diff(), 6);
}

#[test]
fn geometry_validation_errors_in_order() {
    let key = |i: u16| KeyNode { index: KeyIndex(i), ..Default::default() };
    let off_row = KeyNode { row: RowIndex::new(3), ..Default::default() };
    let g = KeyboardGeometry { home_row: RowIndex::new(-2), ..geometry_with(vec![off_row], vec![0], vec![], vec![]) };
    assert_eq!(
        g.validate().unwrap_err(),
        "Invalid home row r-2: no keys found on this row and no keys marked is_home"
    );
    let many: Vec<KeyNode> = (0..201).map(|i| key(i as u16)).collect();
    let g = geometry_with(many, vec![], vec![], vec![]);
    assert_eq!(g.validate().unwrap_err(), "Too many keys: 201 (Max: 200)");
    let g = geometry_with(vec![key(0), key(1)], vec![0], vec![0, 1], vec![]);
    assert_eq!(g.validate().unwrap_err(), "Prime and Med slots overlap");
    let g = geometry_with(vec![key(0), key(1)], vec![0], vec![], vec![0]);
    assert_eq!(g.validate().unwrap_err(), "Prime and Low slots overlap");
    let g = geometry_with(vec![key(0), key(1)], vec![], vec![1], vec![1]);
    assert_eq!(g.validate().unwrap_err(), "Med and Low slots overlap");
    let g = geometry_with(vec![key(0), key(1)], vec![0, 0], vec![], vec![]);
    assert_eq!(g.validate().unwrap_err(), "Slot definition incomplete. Covered 1/2 keys.");
    let g = geometry_with(vec![key(0), key(1)], vec![0], vec![5], vec![]);
    assert_eq!(g.validate().unwrap_err(), "Slot index 5 out of bounds (keys: 2)");
    let flat = KeyNode { h_bits: 0x8000_0000, ..Default::default() };
    let g = geometry_with(vec![key(0), flat], vec![0, 1], vec![], vec![]);
    assert_eq!(g.validate().unwrap_err(), "Key #1 has invalid dimensions");
    let bad_hand = KeyNode { hand: HandIndex::new(2), ..Default::default() };
    let g = geometry_with(vec![bad_hand], vec![0], vec![], vec![]);
    assert_eq!(g.validate().unwrap_err(), "Key #0 has invalid hand index 2");
    let bad_finger = KeyNode { finger: FingerIndex::new_unchecked(7), ..Default::default() };
    let g = geometry_with(vec![bad_finger], vec![0], vec![], vec![]);
    assert_eq!(g.validate().unwrap_err(), "Key #0 has invalid finger index 7");
    // NaN width is not "<= 0.0".
    let nan = KeyNode { w_bits: 0x7fc0_0000, ..Default::default() };
    let g = geometry_with(vec![nan], vec![0], vec![], vec![]);
    assert!(g.validate().is_ok());
}

#[test]
fn definition_name_limit() {
    let mut d = KeyboardDefinition::generate_test(1);
    d.meta.name = "n".repeat(100);
    assert!(d.validate().is_ok());
    d.meta.name = "n".repeat(101);
    assert_eq!(d.validate().unwrap_err(), "Keyboard name too long (max 100)");
    let imported = KeyboardDefinition::from_geometry(KeyboardGeometry::default(), "Board");
    assert_eq!(imported.meta.name, "Board");
    assert_eq!(imported.meta.kb_type, "imported");
}

#[test]
fn key_node_builder_defaults() {
    let k = KeyNode::builder().x(SpatialUnit::new(5)).build();
    assert_eq!(k.w_bits, F32_ONE_BITS);
    assert_eq!(k.finger.as_u8(), 1);
    assert_eq!(k.x().raw(), 5);
    let d = KeyNode::default();
    assert_eq!(d.finger.as_u8(), 0);
    assert_eq!(d.point().x.raw(), 0);
}
