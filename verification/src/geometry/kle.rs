//! Keyboard-layout-editor (KLE) rows as a geometry.
//!
//! A KLE document is an array of rows; each row holds key labels and property objects.
//! Property objects move the cursor (`x`, `y`) or set the rotation (`r`, `rx`, `ry`)
//! of the keys after them; each key takes the cursor position and moves the cursor one
//! key unit right; each row ends one unit lower, back at the left edge. A key belongs to
//! the left hand when it starts in the left half of its row, that is left of half the
//! cursor position where the row ends. Positions are kept in thousandths of a key unit
//! and the rotation angle as its `f32` bit pattern.

use vstd::prelude::*;
use vstd::string::*;
use crate::geometry::{KeyNode, KeyboardGeometry, F32_ONE_BITS};
use crate::types::geometry::sat_i8;
use crate::types::scoring::{clamp_i64, trunc_div};
use crate::types::{ColIndex, FingerIndex, HandIndex, KeyIndex, RowIndex, SpatialUnit};

verus! {

/// One entry of a KLE row.
#[derive(Debug, Clone)]
pub enum KleItem {
    /// A property object; each property is present or not.
    Props {
        /// Horizontal cursor move, in thousandths of a key unit.
        x: Option<SpatialUnit>,
        /// Vertical cursor move, in thousandths of a key unit.
        y: Option<SpatialUnit>,
        /// Rotation angle in degrees, as an `f32` bit pattern.
        r_bits: Option<u32>,
        /// Rotation centre, horizontal.
        rx: Option<SpatialUnit>,
        /// Rotation centre, vertical.
        ry: Option<SpatialUnit>,
    },
    /// A key, by its label.
    Key(String),
    /// Anything else (ignored).
    Other,
}

/// A key placed by the walk, as plain values.
pub struct KlePlaced {
    pub label: Seq<char>,
    pub x: int,
    pub y: int,
    pub r_bits: u32,
    pub rx: i32,
    pub ry: i32,
    /// Where the cursor stood at the end of the key's row (0 while the row is read).
    pub row_end: int,
}

/// The cursor, the current rotation and the keys placed so far.
pub struct KleState {
    pub x: int,
    pub y: int,
    pub r_bits: u32,
    pub rx: i32,
    pub ry: i32,
    pub keys: Seq<KlePlaced>,
}

/// The state before the first row.
pub open spec fn kle_start() -> KleState {
    KleState { x: 0, y: 0, r_bits: 0, rx: 0, ry: 0, keys: Seq::empty() }
}

/// The state after one row entry.
pub open spec fn kle_item(st: KleState, item: KleItem) -> KleState {
    match item {
        KleItem::Props { x, y, r_bits, rx, ry } => KleState {
            x: match x { Some(d) => clamp_i64(st.x + d@) as int, None => st.x },
            y: match y { Some(d) => clamp_i64(st.y + d@) as int, None => st.y },
            r_bits: match r_bits { Some(b) => b, None => st.r_bits },
            rx: match rx { Some(v) => v@, None => st.rx },
            ry: match ry { Some(v) => v@, None => st.ry },
            keys: st.keys,
        },
        KleItem::Key(label) => KleState {
            x: clamp_i64(st.x + 1000) as int,
            keys: st.keys.push(KlePlaced { label: label@, x: st.x, y: st.y, r_bits: st.r_bits, rx: st.rx, ry: st.ry, row_end: 0 }),
            ..st
        },
        KleItem::Other => st,
    }
}

/// The state after the entries of a row.
pub open spec fn kle_items(st: KleState, items: Seq<KleItem>) -> KleState
    decreases items.len(),
{
    if items.len() == 0 {
        st
    } else {
        kle_item(kle_items(st, items.drop_last()), items.last())
    }
}

/// The state at the end of a row whose keys start at position `from`: those keys learn
/// where the row ends, and the cursor goes back to the left edge, one unit lower.
pub open spec fn kle_finish_row(st: KleState, from: int) -> KleState {
    KleState {
        x: 0,
        y: clamp_i64(st.y + 1000) as int,
        keys: Seq::new(st.keys.len(), |k: int| if k >= from { KlePlaced { row_end: st.x, ..st.keys[k] } } else { st.keys[k] }),
        ..st
    }
}

/// The rows of a document as plain sequences; an entry that is not an array is `None`.
pub open spec fn kle_rows_view(rows: Seq<Option<Vec<KleItem>>>) -> Seq<Option<Seq<KleItem>>> {
    rows.map_values(|o: Option<Vec<KleItem>>| match o {
        Some(v) => Some(v@),
        None => None,
    })
}

/// The state after the rows; entries that are not arrays are skipped.
pub open spec fn kle_rows(st: KleState, rows: Seq<Option<Seq<KleItem>>>) -> KleState
    decreases rows.len(),
{
    if rows.len() == 0 {
        st
    } else {
        let prev = kle_rows(st, rows.drop_last());
        match rows.last() {
            Some(items) => kle_finish_row(kle_items(prev, items), prev.keys.len() as int),
            None => prev,
        }
    }
}

/// A position in thousandths as a spatial unit: 0 when it does not fit an `i32`.
pub open spec fn fit_i32(v: int) -> int {
    if i32::MIN <= v <= i32::MAX { v } else { 0 }
}

/// The key node built for the `i`-th placed key: a 1x1 key at the placed position with
/// the placed rotation, on the left hand when it starts in the left half of its row,
/// assigned to finger 0, in the row and column given by the whole parts of its position.
pub open spec fn kle_node_matches(k: KeyNode, p: KlePlaced, i: int) -> bool {
    &&& k.index.0 == (if i <= 65535 { i } else { 65535 })
    &&& k.label@ == p.label
    &&& k.x@ == fit_i32(p.x)
    &&& k.y@ == fit_i32(p.y)
    &&& k.w_bits == F32_ONE_BITS
    &&& k.h_bits == F32_ONE_BITS
    &&& k.r_bits == p.r_bits
    &&& k.rx@ == p.rx
    &&& k.ry@ == p.ry
    &&& k.hand@ == (if 2 * p.x < p.row_end { 0u8 } else { 1u8 })
    &&& k.finger@ == 0
    &&& k.row@ == sat_i8(trunc_div(p.y, 1000))
    &&& k.col@ == sat_i8(trunc_div(p.x, 1000))
    &&& !k.is_home
    &&& !k.is_stretch
}

/// Adds two positions, saturating at the `i64` bounds.
fn add_clamped(a: i64, b: i64) -> (r: i64)
    ensures
        r == clamp_i64(a + b),
{
    let s = a as i128 + b as i128;
    if s > i64::MAX as i128 {
        i64::MAX
    } else if s < i64::MIN as i128 {
        i64::MIN
    } else {
        s as i64
    }
}

/// The whole key units of a position (rounded toward zero), saturated to `i8`.
fn whole_units_i8(v: i64) -> (r: i8)
    ensures
        r == sat_i8(trunc_div(v as int, 1000)),
{
    let q: i64 = if v >= 0 { v / 1000 } else { -((-(v as i128)) / 1000) as i64 };
    assert(q == trunc_div(v as int, 1000));
    if q > 127 {
        127
    } else if q < -128 {
        -128
    } else {
        q as i8
    }
}

/// The key node for a key placed at `(x, y)` as the `n`-th key.
fn kle_node(n: usize, label: &String, x: i64, y: i64, r_bits: u32, rx: SpatialUnit, ry: SpatialUnit, row_end: i64) -> (k: KeyNode)
    ensures
        kle_node_matches(k, KlePlaced { label: label@, x: x as int, y: y as int, r_bits, rx: rx@, ry: ry@, row_end: row_end as int }, n as int),
{
    let xu: i32 = if i32::MIN as i64 <= x && x <= i32::MAX as i64 { x as i32 } else { 0 };
    let yu: i32 = if i32::MIN as i64 <= y && y <= i32::MAX as i64 { y as i32 } else { 0 };
    KeyNode {
        index: KeyIndex(if n <= 65535 { n as u16 } else { 65535 }),
        label: label.clone(),
        x: SpatialUnit::new(xu),
        y: SpatialUnit::new(yu),
        w_bits: F32_ONE_BITS,
        h_bits: F32_ONE_BITS,
        hand: if 2 * (x as i128) < row_end as i128 { HandIndex::left() } else { HandIndex::right() },
        finger: FingerIndex::new_unchecked(0),
        row: RowIndex::new(whole_units_i8(y)),
        col: ColIndex::new(whole_units_i8(x)),
        is_home: false,
        is_stretch: false,
        r_bits,
        rx,
        ry,
    }
}

/// How a key waiting for the end of its row was placed.
pub open spec fn pending_matches(e: (String, i64, i64, u32, SpatialUnit, SpatialUnit), p: KlePlaced) -> bool {
    e.0@ == p.label && e.1 == p.x && e.2 == p.y && e.3 == p.r_bits && e.4@ == p.rx && e.5@ == p.ry
}

/// Lays out the rows of a KLE document as a geometry: the keys in reading order, no
/// slot tiers, home row 1.
pub fn kle_geometry(rows: &Vec<Option<Vec<KleItem>>>) -> (r: KeyboardGeometry)
    ensures
        ({
            let st = kle_rows(kle_start(), kle_rows_view(rows@));
            &&& r.keys@.len() == st.keys.len()
            &&& forall|i: int| 0 <= i < st.keys.len() ==> kle_node_matches(#[trigger] r.keys@[i], st.keys[i], i)
        }),
        r.prime_slots@.len() == 0,
        r.med_slots@.len() == 0,
        r.low_slots@.len() == 0,
        r.home_row@ == 1,
{
    let ghost rv = kle_rows_view(rows@);
    let mut keys: Vec<KeyNode> = Vec::new();
    let mut x: i64 = 0;
    let mut y: i64 = 0;
    let mut r_bits: u32 = 0;
    let mut rx = SpatialUnit::new(0);
    let mut ry = SpatialUnit::new(0);
    let mut i: usize = 0;
    assert(rv.take(0) =~= Seq::<Option<Seq<KleItem>>>::empty());
    while i < rows.len()
        invariant
            i <= rows@.len(),
            rv == kle_rows_view(rows@),
            ({
                let st = kle_rows(kle_start(), rv.take(i as int));
                &&& st.x == x && st.y == y && st.r_bits == r_bits && st.rx == rx@ && st.ry == ry@
                &&& keys@.len() == st.keys.len()
                &&& forall|j: int| 0 <= j < st.keys.len() ==> kle_node_matches(#[trigger] keys@[j], st.keys[j], j)
            }),
        decreases rows.len() - i,
    {
        proof {
            assert(rv.take(i + 1).drop_last() =~= rv.take(i as int));
            assert(rv.take(i + 1).last() == rv[i as int]);
        }
        match &rows[i] {
            None => {},
            Some(items) => {
                let ghost start = kle_rows(kle_start(), rv.take(i as int));
                assert(rv[i as int] == Some(items@));
                let before = keys.len();
                let mut pending: Vec<(String, i64, i64, u32, SpatialUnit, SpatialUnit)> = Vec::new();
                let mut j: usize = 0;
                assert(items@.take(0) =~= Seq::<KleItem>::empty());
                while j < items.len()
                    invariant
                        j <= items@.len(),
                        before == keys@.len(),
                        before == start.keys.len(),
                        forall|k: int| 0 <= k < before ==> kle_node_matches(#[trigger] keys@[k], start.keys[k], k),
                        ({
                            let st = kle_items(start, items@.take(j as int));
                            &&& st.x == x && st.y == y && st.r_bits == r_bits && st.rx == rx@ && st.ry == ry@
                            &&& st.keys.len() == before + pending@.len()
                            &&& forall|k: int| 0 <= k < before ==> #[trigger] st.keys[k] == start.keys[k]
                            &&& forall|k: int| 0 <= k < pending@.len() ==> pending_matches(#[trigger] pending@[k], st.keys[before + k])
                        }),
                    decreases items.len() - j,
                {
                    proof {
                        assert(items@.take(j + 1).drop_last() =~= items@.take(j as int));
                        assert(items@.take(j + 1).last() == items@[j as int]);
                    }
                    let ghost prev = kle_items(start, items@.take(j as int));
                    match &items[j] {
                        KleItem::Props { x: dx, y: dy, r_bits: rb, rx: nrx, ry: nry } => {
                            match dx {
                                Some(d) => { x = add_clamped(x, d.raw() as i64); },
                                None => {},
                            }
                            match dy {
                                Some(d) => { y = add_clamped(y, d.raw() as i64); },
                                None => {},
                            }
                            match rb {
                                Some(b) => { r_bits = *b; },
                                None => {},
                            }
                            match nrx {
                                Some(v) => { rx = *v; },
                                None => {},
                            }
                            match nry {
                                Some(v) => { ry = *v; },
                                None => {},
                            }
                        },
                        KleItem::Key(label) => {
                            let ghost old_pending = pending@;
                            pending.push((label.clone(), x, y, r_bits, rx, ry));
                            proof {
                                let after = kle_items(start, items@.take(j + 1));
                                assert(after.keys == prev.keys.push(KlePlaced { label: label@, x: prev.x, y: prev.y, r_bits: prev.r_bits, rx: prev.rx, ry: prev.ry, row_end: 0 }));
                                assert forall|k: int| 0 <= k < pending@.len() implies pending_matches(#[trigger] pending@[k], after.keys[before + k]) by {
                                    if k < old_pending.len() {
                                        assert(pending@[k] == old_pending[k]);
                                        assert(after.keys[before + k] == prev.keys[before + k]);
                                    }
                                }
                                assert forall|k: int| 0 <= k < before implies #[trigger] after.keys[k] == start.keys[k] by {
                                    assert(after.keys[k] == prev.keys[k]);
                                }
                            }
                            x = add_clamped(x, 1000);
                        },
                        KleItem::Other => {},
                    }
                    j += 1;
                }
                assert(items@.take(items@.len() as int) =~= items@);
                let ghost st = kle_items(start, items@);
                let ghost fin = kle_finish_row(st, before as int);
                let row_end = x;
                let mut m: usize = 0;
                while m < pending.len()
                    invariant
                        m <= pending@.len(),
                        st.keys.len() == before + pending@.len(),
                        st.x == row_end,
                        fin == kle_finish_row(st, before as int),
                        forall|k: int| 0 <= k < before ==> #[trigger] st.keys[k] == start.keys[k],
                        forall|k: int| 0 <= k < pending@.len() ==> pending_matches(#[trigger] pending@[k], st.keys[before + k]),
                        keys@.len() == before + m,
                        forall|k: int| 0 <= k < before + m ==> kle_node_matches(#[trigger] keys@[k], fin.keys[k], k),
                    decreases pending.len() - m,
                {
                    let e = &pending[m];
                    let node = kle_node(keys.len(), &e.0, e.1, e.2, e.3, e.4, e.5, row_end);
                    let ghost old_keys = keys@;
                    keys.push(node);
                    proof {
                        assert(pending_matches(pending@[m as int], st.keys[before + m]));
                        assert(fin.keys[before + m] == KlePlaced { row_end: st.x, ..st.keys[before + m] });
                        assert forall|k: int| 0 <= k < before + m + 1 implies kle_node_matches(#[trigger] keys@[k], fin.keys[k], k) by {
                            if k < before + m {
                                assert(keys@[k] == old_keys[k]);
                            }
                        }
                    }
                    m += 1;
                }
                proof {
                    assert forall|k: int| 0 <= k < fin.keys.len() implies kle_node_matches(#[trigger] keys@[k], fin.keys[k], k) by {
                        if k < before {
                            assert(fin.keys[k] == st.keys[k]);
                        }
                    }
                }
                x = 0;
                y = add_clamped(y, 1000);
            },
        }
        i += 1;
    }
    assert(rv.take(rows@.len() as int) =~= rv);
    KeyboardGeometry::new(keys, Vec::new(), Vec::new(), Vec::new(), RowIndex::new(1))
}

/// Writes a geometry as KLE JSON; only the metadata header is written.
pub fn to_kle_json(_geo: &KeyboardGeometry) -> (r: Result<String, String>)
    ensures
        r matches Ok(t) && t@ == "{\"meta\": {}}"@,
{
    Ok(String::from_str("{\"meta\": {}}"))
}

} // verus!
