use keyforge_model::geometry::kle::{kle_geometry, KleItem};
use keyforge_model::types::{HandIndex, SpatialUnit};

fn key(label: &str) -> KleItem {
    KleItem::Key(label.to_string())
}

fn props(x: Option<i32>, y: Option<i32>, r_bits: Option<u32>, rx: Option<i32>, ry: Option<i32>) -> KleItem {
    KleItem::Props {
        x: x.map(SpatialUnit::new),
        y: y.map(SpatialUnit::new),
        r_bits,
        rx: rx.map(SpatialUnit::new),
        ry: ry.map(SpatialUnit::new),
    }
}

#[test]
fn kle_walk_places_keys_in_reading_order() {
    // [["A", "B", {"x": 1}, "C"]]
    let rows = vec![Some(vec![key("A"), key("B"), props(Some(1000), None, None, None, None), key("C")])];
    let geom = kle_geometry(&rows);
    assert_eq!(geom.keys.len(), 3);
    assert_eq!(geom.keys[0].hand, HandIndex::left());
    assert_eq!(geom.keys[1].hand, HandIndex::left());
    assert_eq!(geom.keys[2].hand, HandIndex::right());
    assert_eq!(geom.keys[2].x, SpatialUnit::new(3000));
    assert_eq!(geom.keys[2].col.raw(), 3);
    assert_eq!(geom.keys[2].index.raw(), 2);
    assert_eq!(geom.keys[2].label, "C");
    assert_eq!(geom.home_row.raw(), 1);
}

#[test]
fn kle_walk_rotation_and_rows() {
    // [[{"r": 15, "rx": 5, "ry": 5}, "A"], "not a row", ["B", {"y": 0.5}, "C", 7, "D", "E", "F", "G"]]
    let rows = vec![
        Some(vec![props(None, None, Some(15.0f32.to_bits()), Some(5000), Some(5000)), key("A")]),
        None,
        Some(vec![
            key("B"),
            props(None, Some(500), None, None, None),
            key("C"),
            KleItem::Other,
            key("D"),
            key("E"),
            key("F"),
            key("G"),
        ]),
    ];
    let geom = kle_geometry(&rows);
    assert_eq!(geom.keys.len(), 7);
    let a = &geom.keys[0];
    assert_eq!(f32::from_bits(a.r_bits), 15.0);
    assert_eq!(a.rx, SpatialUnit::new(5000));
    assert_eq!(a.ry, SpatialUnit::new(5000));
    let b = &geom.keys[1];
    assert_eq!(b.y, SpatialUnit::new(1000));
    assert_eq!(b.x, SpatialUnit::new(0));
    assert_eq!(b.row.raw(), 1);
    assert_eq!(f32::from_bits(b.r_bits), 15.0);
    let c = &geom.keys[2];
    assert_eq!(c.y, SpatialUnit::new(1500));
    assert_eq!(c.row.raw(), 1);
    let g = &geom.keys[6];
    assert_eq!(g.x, SpatialUnit::new(5000));
    assert_eq!(g.hand, HandIndex::right());
    assert_eq!(a.hand, HandIndex::left());
    // The third row ends at x = 6, so keys from x = 3 on are on the right.
    assert_eq!(geom.keys[3].hand, HandIndex::left());
    assert_eq!(geom.keys[4].hand, HandIndex::right());
    assert_eq!(geom.keys[5].hand, HandIndex::right());
    assert_eq!(f32::from_bits(g.w_bits), 1.0);
}

#[test]
fn kle_export_writes_the_header() {
    let g = kle_geometry(&vec![]);
    assert_eq!(keyforge_model::geometry::kle::to_kle_json(&g), Ok("{\"meta\": {}}".to_string()));
}
