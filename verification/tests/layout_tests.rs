use keyforge_model::layout::{standard_layouts, to_codes, Layout, LayoutError, RawLayout, QWERTY};
use keyforge_model::types::{KeyCode, KeyIndex};

#[test]
fn test_layout_basic_methods() {
    let keys = vec![KeyCode::new(65), KeyCode::new(66)];
    let layout = Layout::new_unchecked(keys.clone());
    assert_eq!(layout.len(), 2);
    assert!(!layout.is_empty());
    assert_eq!(layout.keys(), keys.as_slice());

    let empty = Layout::new_unchecked(vec![]);
    assert!(empty.is_empty());
    assert_eq!(empty.len(), 0);
}

#[test]
fn test_layout_mutations() {
    let mut layout = Layout::new_unchecked(vec![KeyCode::new(65), KeyCode::new(66)]);

    layout.swap(KeyIndex::new(0), KeyIndex::new(1)).unwrap();
    assert_eq!(layout.get(KeyIndex::new(0)).unwrap(), KeyCode::new(66));
    assert_eq!(layout.get(KeyIndex::new(1)).unwrap(), KeyCode::new(65));

    layout.set(KeyIndex::new(0), KeyCode::new(67)).unwrap();
    assert_eq!(layout.get(KeyIndex::new(0)).unwrap(), KeyCode::new(67));

    assert!(layout.swap(KeyIndex::new(0), KeyIndex::new(2)).is_err());
    assert!(layout.set(KeyIndex::new(2), KeyCode::new(68)).is_err());
}

#[test]
fn test_layout_validity() {
    for n in [0usize, 1, 7, 49] {
        let key_codes: Vec<KeyCode> = (0..n as u16).map(|v| KeyCode::new(v % 100)).collect();
        let raw = RawLayout { keys: key_codes };
        assert!(Layout::try_from(raw).is_ok());
    }
}

#[test]
fn swap_twice_restores_and_errors_name_the_index() {
    let start = Layout::new_unchecked(vec![KeyCode(1), KeyCode(2), KeyCode(3)]);
    let mut l = start.clone();
    l.swap(KeyIndex(0), KeyIndex(2)).unwrap();
    assert_eq!(l.keys(), &[KeyCode(3), KeyCode(2), KeyCode(1)]);
    l.swap(KeyIndex(0), KeyIndex(2)).unwrap();
    assert_eq!(l, start);
    assert_eq!(l.swap(KeyIndex(9), KeyIndex(8)).unwrap_err(), LayoutError::IndexOutOfBounds(9));
    assert_eq!(l.swap(KeyIndex(1), KeyIndex(8)).unwrap_err(), LayoutError::IndexOutOfBounds(8));
    assert_eq!(l, start);
    assert_eq!(l.get(KeyIndex(3)), None);
    assert_eq!(LayoutError::IndexOutOfBounds(9).message(), "Index out of bounds: 9");
    assert_eq!(LayoutError::InvalidLength(4).message(), "Invalid layout length: 4");
    assert_eq!(LayoutError::DuplicateKeys.message(), "Layout contains duplicate keys");
    let raw: RawLayout = l.clone().into();
    assert_eq!(raw.keys, vec![KeyCode(1), KeyCode(2), KeyCode(3)]);
    let back = Layout::try_from(vec![KeyCode(4)]).unwrap();
    assert_eq!(back.len(), 1);
}

#[test]
fn test_layout_validation_duplicates() {
    let keys = vec![KeyCode(65), KeyCode(66), KeyCode(65)];
    let layout = Layout::try_from(keys);
    assert!(layout.is_err(), "Layout should reject duplicates");
}

#[test]
fn test_layout_validation_valid() {
    let keys = vec![KeyCode(65), KeyCode(66), KeyCode(67)];
    let layout = Layout::try_from(keys);
    assert!(layout.is_ok(), "Layout should accept unique keys");
}

#[test]
fn raw_layouts_keep_duplicates() {
    let raw = RawLayout { keys: vec![KeyCode(7), KeyCode(7)] };
    let l = Layout::try_from(raw).unwrap();
    assert_eq!(l.keys(), &[KeyCode(7), KeyCode(7)]);
    assert_eq!(Layout::try_from(vec![KeyCode(7), KeyCode(7)]).unwrap_err(), LayoutError::DuplicateKeys);
}

#[test]
fn standard_layout_matching() {
    let qwerty = Layout::new_unchecked(to_codes(QWERTY));
    assert_eq!(qwerty.len(), 30);
    assert_eq!(qwerty.keys()[0], KeyCode(113));
    let stds = standard_layouts();
    assert_eq!(stds[0].0, "Qwerty");
    assert_eq!(qwerty.matches_against(&stds[0].1), (30, 30));
    let (len, m) = qwerty.matches_against(&stds[1].1);
    assert_eq!(len, 30);
    assert!(m < 30);
    assert_eq!(to_codes("\u{1F600}a"), vec![KeyCode(0), KeyCode(97)]);
}

#[test]
fn test_layout_identification() {
    let qwerty_str = keyforge_model::layout::QWERTY;
    let keys: Vec<KeyCode> = qwerty_str
        .chars()
        .map(|c| KeyCode::new(u16::try_from(u32::from(c)).unwrap_or(0)))
        .collect();
    let layout = Layout::new_unchecked(keys);

    let id = layout.identify();
    assert!(id.is_some());
    let id = id.expect("Identification failed");
    assert_eq!(id.name, "Qwerty");
    assert!(id.similarity > keyforge_model::types::Score::from_scaled_i64(900_000));
    assert_eq!(id.distance, 0);
}

#[test]
fn layout_identification_edge_cases() {
    assert!(Layout::new_unchecked(vec![]).identify().is_none());
    let zeros = Layout::new_unchecked(vec![KeyCode::new(0); 30]);
    assert!(zeros.identify().is_none());
    let colemak = Layout::new_unchecked(keyforge_model::layout::to_codes(keyforge_model::layout::COLEMAK));
    let id = colemak.identify().unwrap();
    assert_eq!(id.name, "Colemak");
    assert_eq!(id.distance, 0);
    // A prefix is compared on its own length only.
    let dv = keyforge_model::layout::to_codes(keyforge_model::layout::DVORAK);
    let part = Layout::new_unchecked(dv[..4].to_vec());
    let id = part.identify().unwrap();
    assert_eq!(id.name, "Dvorak");
    assert_eq!(id.similarity, keyforge_model::types::Score::from_scaled_i64(1_000_000));
}
