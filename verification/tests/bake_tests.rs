use keyforge_model::cost_model::{bake_costs, preferred_model_key, FingerCosts, HandCosts, BAKED_LEN};
use keyforge_model::types::RowIndex;

fn cell(h: usize, f: usize, z: usize, r: usize) -> usize {
    ((h * 5 + f) * 3 + z) * 8 + r
}

fn bits(v: f32) -> u32 {
    v.to_bits()
}

#[test]
fn bake_fills_reach_zones_and_thumbs() {
    let hands = vec![
        HandCosts {
            name: "left_hand".to_string(),
            fingers: vec![
                (
                    "index".to_string(),
                    FingerCosts::Standard {
                        base: vec![(RowIndex::new(1), bits(1.5)), (RowIndex::new(9), bits(9.0))],
                        inner: vec![(RowIndex::new(2), bits(2.5))],
                        outer: vec![(RowIndex::new(-1), bits(7.0))],
                    },
                ),
                (
                    "thumb".to_string(),
                    FingerCosts::Thumb(vec![("pos_2".to_string(), bits(3.0)), ("pos_9".to_string(), bits(4.0))]),
                ),
                ("sixth".to_string(), FingerCosts::Thumb(vec![("pos_1".to_string(), bits(5.0))])),
            ],
        },
        HandCosts { name: "third_hand".to_string(), fingers: vec![] },
    ];
    let t = bake_costs(&hands, bits(100.0));
    assert_eq!(t.len(), BAKED_LEN);
    assert_eq!(t[cell(0, 1, 0, 1)], bits(1.5));
    assert_eq!(t[cell(0, 1, 1, 2)], bits(2.5));
    assert_eq!(t[cell(0, 0, 0, 1)], bits(3.0));
    assert_eq!(t[cell(0, 0, 0, 0)], bits(100.0));
    assert_eq!(t[cell(1, 1, 0, 1)], bits(100.0));
    let set: usize = t.iter().filter(|&&c| c != bits(100.0)).count();
    assert_eq!(set, 3);
}

#[test]
fn bake_universal_hand_is_copied_to_the_right() {
    let hands = vec![HandCosts {
        name: "universal_hand".to_string(),
        fingers: vec![(
            "pinky".to_string(),
            FingerCosts::Standard { base: vec![(RowIndex::new(0), bits(8.0))], inner: vec![], outer: vec![] },
        )],
    }];
    let t = bake_costs(&hands, bits(100.0));
    assert_eq!(t[cell(0, 4, 0, 0)], bits(8.0));
    assert_eq!(t[cell(1, 4, 0, 0)], bits(8.0));
    let right_only = vec![
        hands[0].clone(),
        HandCosts {
            name: "right_hand".to_string(),
            fingers: vec![(
                "pinky".to_string(),
                FingerCosts::Standard { base: vec![(RowIndex::new(0), bits(6.0))], inner: vec![], outer: vec![] },
            )],
        },
    ];
    let t = bake_costs(&right_only, bits(100.0));
    assert_eq!(t[cell(0, 4, 0, 0)], bits(8.0));
    assert_eq!(t[cell(1, 4, 0, 0)], bits(6.0));
}

#[test]
fn preferred_model_choice() {
    let one = vec!["ortho".to_string()];
    assert_eq!(preferred_model_key(&one), Some("ortho".to_string()));
    let several = vec!["ortho".to_string(), "model_a_row_staggered".to_string()];
    assert_eq!(preferred_model_key(&several), Some("model_a_row_staggered".to_string()));
    let other = vec!["b".to_string(), "a".to_string()];
    assert_eq!(preferred_model_key(&other), Some("b".to_string()));
    assert_eq!(preferred_model_key(&Vec::new()), None);
}
