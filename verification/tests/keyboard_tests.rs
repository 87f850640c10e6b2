use keyforge_model::error::ForgeError;
use keyforge_model::geometry::KeyNode;
use keyforge_model::keyboard::Keyboard;
use keyforge_model::types::{FingerIndex, HandIndex, KeyIndex, RowIndex, SpatialUnit};

#[test]
fn test_keyboard_spatial_precomputation() {
    let keys = vec![
        KeyNode {
            index: KeyIndex(0),
            x: SpatialUnit::new(0),
            y: SpatialUnit::new(0),
            hand: HandIndex::new(0),
            finger: FingerIndex::index_finger(),
            ..Default::default()
        },
        KeyNode {
            index: KeyIndex(1),
            x: SpatialUnit::new(3000),
            y: SpatialUnit::new(4000),
            hand: HandIndex::new(0),
            finger: FingerIndex::middle(),
            ..Default::default()
        },
    ];
    let kb = Keyboard::new(keys, RowIndex::new(0), "test".into()).unwrap();

    assert_eq!(kb.spatial_cache.len(), 4);
    assert_eq!(kb.spatial_cache[1].dist_sq(), 25_000_000);
}

#[test]
fn keyboard_origins_prefer_home_keys() {
    let mk = |x: i32, row: i8, finger: u8, home: bool| KeyNode {
        x: SpatialUnit::new(x),
        row: RowIndex::new(row),
        finger: FingerIndex::new_unchecked(finger),
        is_home: home,
        ..Default::default()
    };
    let keys = vec![mk(1, 2, 1, false), mk(2, 0, 1, false), mk(3, 5, 1, true), mk(4, 5, 3, false)];
    let kb = Keyboard::new(keys, RowIndex::new(0), "ortho".into()).unwrap();
    assert_eq!(kb.finger_origins.len(), 1);
    assert_eq!(kb.finger_origins[0].len(), 4);
    assert_eq!(kb.finger_origins[0][1].x.raw(), 3);
    assert_eq!(kb.finger_origins[0][3].x.raw(), 4);
    assert_eq!(kb.finger_origins[0][2].x.raw(), 0);
    assert_eq!(kb.count(), 4);
    assert_eq!(kb.spatial_cache[3 * 4 + 0].dx, -3);
    let row_only = vec![mk(7, 2, 0, false), mk(8, 0, 0, false)];
    let kb = Keyboard::new(row_only, RowIndex::new(0), "x".into()).unwrap();
    assert_eq!(kb.finger_origins[0][0].x.raw(), 8);
}

#[test]
fn keyboard_needs_keys() {
    match Keyboard::new(vec![], RowIndex::new(0), "x".into()) {
        Err(ForgeError::InvalidData(m)) => assert_eq!(m, "Keyboard must have at least one key"),
        other => panic!("unexpected {other:?}"),
    }
}
