//! Physical keyboard geometry: key positions, finger assignments and slot tiers.
//!
//! Key dimensions and rotation are single-precision IEEE 754 values in the
//! interchange formats; here they are carried as their bit patterns
//! (`f32::to_bits`), which is also how they enter the geometry hash.

pub mod digest;
pub mod kle;

use std::collections::HashMap;
use vstd::prelude::*;
use vstd::string::*;
use crate::constants::{
    DEFAULT_THRESHOLD_SCISSOR_ROW_DIFF, DEFAULT_THRESHOLD_SFB_LONG_ROW_DIFF, MAX_KEYBOARD_KEYS,
    MAX_KEYBOARD_NAME_LEN,
};
use crate::text::{chars_of, decimal, u64_to_decimal, u128_to_decimal, i64_to_decimal, utf8_len_exceeds};
use crate::types::{ColIndex, Finger, FingerIndex, Hand, HandIndex, KeyIndex, RowIndex, SpatialUnit, Point};
use crate::validator::Validator;

verus! {

/// Bit pattern of the single-precision value 1.0.
pub const F32_ONE_BITS: u32 = 0x3f80_0000;

/// Whether the single-precision value with bit pattern `bits` compares `<= 0.0`
/// under IEEE 754 (true for both zeros and every negative non-NaN value; false for NaN).
pub open spec fn f32_bits_le_zero(bits: u32) -> bool {
    let magnitude = bits % 0x8000_0000;
    ||| magnitude == 0
    ||| (bits >= 0x8000_0000 && magnitude <= 0x7f80_0000)
}

/// IEEE 754 `<= 0.0` on a single-precision bit pattern.
pub fn f32_bits_is_le_zero(bits: u32) -> (r: bool)
    ensures
        r == f32_bits_le_zero(bits),
{
    let magnitude = bits % 0x8000_0000;
    magnitude == 0 || (bits >= 0x8000_0000 && magnitude <= 0x7f80_0000)
}

/// Represents a single physical key on the keyboard.
#[derive(Debug, Clone, PartialEq)]
pub struct KeyNode {
    /// Unique index of the key in the layout.
    pub index: KeyIndex,
    /// Descriptive label for the key (e.g., "K01", "Thumb").
    pub label: String,
    /// X-coordinate of the key center.
    pub x: SpatialUnit,
    /// Y-coordinate of the key center.
    pub y: SpatialUnit,
    /// Width of the key in keyboard units, as an `f32` bit pattern (default 1.0).
    pub w_bits: u32,
    /// Height of the key in keyboard units, as an `f32` bit pattern (default 1.0).
    pub h_bits: u32,
    /// Which hand is responsible for this key.
    pub hand: HandIndex,
    /// Which finger is responsible for this key.
    pub finger: FingerIndex,
    /// Row index (logical).
    pub row: RowIndex,
    /// Column index (logical).
    pub col: ColIndex,
    /// Whether this key is part of the "home" position.
    pub is_home: bool,
    /// Whether this key requires a stretch to reach.
    pub is_stretch: bool,
    /// Rotation angle in degrees, as an `f32` bit pattern.
    pub r_bits: u32,
    /// Rotation center X.
    pub rx: SpatialUnit,
    /// Rotation center Y.
    pub ry: SpatialUnit,
}

/// The default key: index 0 at the origin, 1x1, left hand, thumb, row and column 0.
pub open spec fn is_default_key(k: KeyNode) -> bool {
    &&& k.index.0 == 0
    &&& k.label@.len() == 0
    &&& k.x@ == 0
    &&& k.y@ == 0
    &&& k.w_bits == F32_ONE_BITS
    &&& k.h_bits == F32_ONE_BITS
    &&& k.hand@ == 0
    &&& k.finger@ == 0
    &&& k.row@ == 0
    &&& k.col@ == 0
    &&& !k.is_home
    &&& !k.is_stretch
    &&& k.r_bits == 0
    &&& k.rx@ == 0
    &&& k.ry@ == 0
}

/// What an untouched builder builds: like the default key, but with each field at its
/// type's default, so the finger is the index finger.
pub open spec fn is_default_builder_key(k: KeyNode) -> bool {
    &&& k.index.0 == 0
    &&& k.label@.len() == 0
    &&& k.x@ == 0
    &&& k.y@ == 0
    &&& k.w_bits == F32_ONE_BITS
    &&& k.h_bits == F32_ONE_BITS
    &&& k.hand@ == 0
    &&& k.finger@ == 1
    &&& k.row@ == 0
    &&& k.col@ == 0
    &&& !k.is_home
    &&& !k.is_stretch
    &&& k.r_bits == 0
    &&& k.rx@ == 0
    &&& k.ry@ == 0
}

impl Default for KeyNode {
    fn default() -> (r: Self)
        ensures
            is_default_key(r),
    {
        KeyNode {
            index: KeyIndex::new(0),
            label: String::new(),
            x: SpatialUnit::new(0),
            y: SpatialUnit::new(0),
            w_bits: F32_ONE_BITS,
            h_bits: F32_ONE_BITS,
            hand: HandIndex::new(0),
            finger: FingerIndex::new_unchecked(0),
            row: RowIndex::new(0),
            col: ColIndex::new(0),
            is_home: false,
            is_stretch: false,
            r_bits: 0,
            rx: SpatialUnit::new(0),
            ry: SpatialUnit::new(0),
        }
    }
}

impl KeyNode {
    /// Returns the X-coordinate.
    pub fn x(&self) -> (r: SpatialUnit)
        ensures
            r == self.x,
    {
        self.x
    }

    /// Returns the Y-coordinate.
    pub fn y(&self) -> (r: SpatialUnit)
        ensures
            r == self.y,
    {
        self.y
    }

    /// Returns the width as an `f32` bit pattern.
    pub fn w_bits(&self) -> (r: u32)
        ensures
            r == self.w_bits,
    {
        self.w_bits
    }

    /// Returns the height as an `f32` bit pattern.
    pub fn h_bits(&self) -> (r: u32)
        ensures
            r == self.h_bits,
    {
        self.h_bits
    }

    /// Returns the rotation center X.
    pub fn rx(&self) -> (r: SpatialUnit)
        ensures
            r == self.rx,
    {
        self.rx
    }

    /// Returns the rotation center Y.
    pub fn ry(&self) -> (r: SpatialUnit)
        ensures
            r == self.ry,
    {
        self.ry
    }

    /// Returns the hand.
    pub fn hand(&self) -> (r: HandIndex)
        ensures
            r == self.hand,
    {
        self.hand
    }

    /// Returns the finger.
    pub fn finger(&self) -> (r: FingerIndex)
        ensures
            r == self.finger,
    {
        self.finger
    }

    /// Returns the row.
    pub fn row(&self) -> (r: RowIndex)
        ensures
            r == self.row,
    {
        self.row
    }

    /// Returns the point (X, Y).
    pub fn point(&self) -> (r: Point)
        ensures
            r.x == self.x,
            r.y == self.y,
    {
        Point::new(self.x, self.y)
    }

    /// Returns a builder for `KeyNode`.
    pub fn builder() -> (r: KeyNodeBuilder)
        ensures
            is_default_builder_key(r.spec_built()),
    {
        KeyNodeBuilder::default()
    }
}

/// Builder for `KeyNode`.
#[derive(Debug, Clone)]
pub struct KeyNodeBuilder {
    index: KeyIndex,
    label: String,
    x: SpatialUnit,
    y: SpatialUnit,
    w_bits: Option<u32>,
    h_bits: Option<u32>,
    hand: HandIndex,
    finger: FingerIndex,
    row: RowIndex,
    col: ColIndex,
    is_home: bool,
    is_stretch: bool,
    r_bits: u32,
    rx: SpatialUnit,
    ry: SpatialUnit,
}

impl KeyNodeBuilder {
    /// The key this builder would build.
    pub closed spec fn spec_built(self) -> KeyNode {
        KeyNode {
            index: self.index,
            label: self.label,
            x: self.x,
            y: self.y,
            w_bits: match self.w_bits { Some(b) => b, None => F32_ONE_BITS },
            h_bits: match self.h_bits { Some(b) => b, None => F32_ONE_BITS },
            hand: self.hand,
            finger: self.finger,
            row: self.row,
            col: self.col,
            is_home: self.is_home,
            is_stretch: self.is_stretch,
            r_bits: self.r_bits,
            rx: self.rx,
            ry: self.ry,
        }
    }

    /// Sets the key index.
    pub fn index(self, index: KeyIndex) -> (r: Self)
        ensures
            r.spec_built() == (KeyNode { index, ..self.spec_built() }),
    {
        KeyNodeBuilder { index, ..self }
    }

    /// Sets the label.
    pub fn label(self, label: String) -> (r: Self)
        ensures
            r.spec_built() == (KeyNode { label, ..self.spec_built() }),
    {
        KeyNodeBuilder { label, ..self }
    }

    /// Sets the X coordinate.
    pub fn x(self, x: SpatialUnit) -> (r: Self)
        ensures
            r.spec_built() == (KeyNode { x, ..self.spec_built() }),
    {
        KeyNodeBuilder { x, ..self }
    }

    /// Sets the Y coordinate.
    pub fn y(self, y: SpatialUnit) -> (r: Self)
        ensures
            r.spec_built() == (KeyNode { y, ..self.spec_built() }),
    {
        KeyNodeBuilder { y, ..self }
    }

    /// Sets the width (an `f32` bit pattern).
    pub fn w_bits(self, w_bits: u32) -> (r: Self)
        ensures
            r.spec_built() == (KeyNode { w_bits, ..self.spec_built() }),
    {
        KeyNodeBuilder { w_bits: Some(w_bits), ..self }
    }

    /// Sets the height (an `f32` bit pattern).
    pub fn h_bits(self, h_bits: u32) -> (r: Self)
        ensures
            r.spec_built() == (KeyNode { h_bits, ..self.spec_built() }),
    {
        KeyNodeBuilder { h_bits: Some(h_bits), ..self }
    }

    /// Sets the hand.
    pub fn hand(self, hand: HandIndex) -> (r: Self)
        ensures
            r.spec_built() == (KeyNode { hand, ..self.spec_built() }),
    {
        KeyNodeBuilder { hand, ..self }
    }

    /// Sets the finger.
    pub fn finger(self, finger: FingerIndex) -> (r: Self)
        ensures
            r.spec_built() == (KeyNode { finger, ..self.spec_built() }),
    {
        KeyNodeBuilder { finger, ..self }
    }

    /// Sets the row.
    pub fn row(self, row: RowIndex) -> (r: Self)
        ensures
            r.spec_built() == (KeyNode { row, ..self.spec_built() }),
    {
        KeyNodeBuilder { row, ..self }
    }

    /// Sets the column.
    pub fn col(self, col: ColIndex) -> (r: Self)
        ensures
            r.spec_built() == (KeyNode { col, ..self.spec_built() }),
    {
        KeyNodeBuilder { col, ..self }
    }

    /// Sets home row status.
    pub fn is_home(self, is_home: bool) -> (r: Self)
        ensures
            r.spec_built() == (KeyNode { is_home, ..self.spec_built() }),
    {
        KeyNodeBuilder { is_home, ..self }
    }

    /// Sets stretch status.
    pub fn is_stretch(self, is_stretch: bool) -> (r: Self)
        ensures
            r.spec_built() == (KeyNode { is_stretch, ..self.spec_built() }),
    {
        KeyNodeBuilder { is_stretch, ..self }
    }

    /// Sets the rotation (an `f32` bit pattern).
    pub fn r_bits(self, r_bits: u32) -> (r: Self)
        ensures
            r.spec_built() == (KeyNode { r_bits, ..self.spec_built() }),
    {
        KeyNodeBuilder { r_bits, ..self }
    }

    /// Sets rotation center X.
    pub fn rx(self, rx: SpatialUnit) -> (r: Self)
        ensures
            r.spec_built() == (KeyNode { rx, ..self.spec_built() }),
    {
        KeyNodeBuilder { rx, ..self }
    }

    /// Sets rotation center Y.
    pub fn ry(self, ry: SpatialUnit) -> (r: Self)
        ensures
            r.spec_built() == (KeyNode { ry, ..self.spec_built() }),
    {
        KeyNodeBuilder { ry, ..self }
    }

    /// Builds the `KeyNode`; an unset width or height is 1.0.
    pub fn build(self) -> (r: KeyNode)
        ensures
            r == self.spec_built(),
    {
        KeyNode {
            index: self.index,
            label: self.label,
            x: self.x,
            y: self.y,
            w_bits: match self.w_bits { Some(b) => b, None => F32_ONE_BITS },
            h_bits: match self.h_bits { Some(b) => b, None => F32_ONE_BITS },
            hand: self.hand,
            finger: self.finger,
            row: self.row,
            col: self.col,
            is_home: self.is_home,
            is_stretch: self.is_stretch,
            r_bits: self.r_bits,
            rx: self.rx,
            ry: self.ry,
        }
    }
}

impl Default for KeyNodeBuilder {
    fn default() -> (r: Self)
        ensures
            is_default_builder_key(r.spec_built()),
    {
        KeyNodeBuilder {
            index: KeyIndex::new(0),
            label: String::new(),
            x: SpatialUnit::new(0),
            y: SpatialUnit::new(0),
            w_bits: None,
            h_bits: None,
            hand: HandIndex::default(),
            finger: FingerIndex::default(),
            row: RowIndex::new(0),
            col: ColIndex::new(0),
            is_home: false,
            is_stretch: false,
            r_bits: 0,
            rx: SpatialUnit::new(0),
            ry: SpatialUnit::new(0),
        }
    }
}

/// Metadata describing a keyboard definition.
#[derive(Debug, Clone)]
pub struct KeyboardMeta {
    /// Display name of the keyboard.
    pub name: String,
    /// Author of the definition.
    pub author: String,
    /// Version string.
    pub version: String,
    /// Additional notes or description.
    pub notes: String,
    /// Type of keyboard (e.g. "split", "ortho").
    pub kb_type: String,
}

impl Default for KeyboardMeta {
    fn default() -> (r: Self)
        ensures
            r.name@.len() == 0,
            r.author@.len() == 0,
            r.version@.len() == 0,
            r.notes@.len() == 0,
            r.kb_type@.len() == 0,
    {
        KeyboardMeta {
            name: String::new(),
            author: String::new(),
            version: String::new(),
            notes: String::new(),
            kb_type: String::new(),
        }
    }
}

/// Collection of keys and slot tiers defining the keyboard geometry.
#[derive(Debug, Clone)]
pub struct KeyboardGeometry {
    /// List of physical keys.
    pub keys: Vec<KeyNode>,
    /// Indices of keys that are "prime" (highest efficiency).
    pub prime_slots: Vec<KeyIndex>,
    /// Indices of keys that are "med" (medium efficiency).
    pub med_slots: Vec<KeyIndex>,
    /// Indices of keys that are "low" (lowest efficiency).
    pub low_slots: Vec<KeyIndex>,
    /// Logical index of the home row.
    pub home_row: RowIndex,
    /// Row difference threshold for "long" same-finger bigrams.
    pub threshold_sfb_long_row_diff: i8,
    /// Row difference threshold for scissors.
    pub threshold_scissor_row_diff: i8,
}

impl Default for KeyboardGeometry {
    fn default() -> (r: Self)
        ensures
            r.keys@.len() == 0,
            r.prime_slots@.len() == 0,
            r.med_slots@.len() == 0,
            r.low_slots@.len() == 0,
            r.home_row@ == 0,
            r.threshold_sfb_long_row_diff == DEFAULT_THRESHOLD_SFB_LONG_ROW_DIFF,
            r.threshold_scissor_row_diff == DEFAULT_THRESHOLD_SCISSOR_ROW_DIFF,
    {
        KeyboardGeometry {
            keys: Vec::new(),
            prime_slots: Vec::new(),
            med_slots: Vec::new(),
            low_slots: Vec::new(),
            home_row: RowIndex::new(0),
            threshold_sfb_long_row_diff: DEFAULT_THRESHOLD_SFB_LONG_ROW_DIFF,
            threshold_scissor_row_diff: DEFAULT_THRESHOLD_SCISSOR_ROW_DIFF,
        }
    }
}

/// The key indices of a slot list.
pub open spec fn slot_ids(slots: Seq<KeyIndex>) -> Seq<u16> {
    slots.map_values(|k: KeyIndex| k.0)
}

/// The distinct key indices of a slot list.
pub open spec fn slot_set(slots: Seq<KeyIndex>) -> Set<u16> {
    slot_ids(slots).to_set()
}

/// Some key is marked as a home key.
pub open spec fn any_home_key(keys: Seq<KeyNode>) -> bool {
    exists|i: int| 0 <= i < keys.len() && (#[trigger] keys[i]).is_home
}

/// Some key lies on row `row`.
pub open spec fn any_on_row(keys: Seq<KeyNode>, row: RowIndex) -> bool {
    exists|i: int| 0 <= i < keys.len() && (#[trigger] keys[i]).row == row
}

/// The first position at or after `k` whose slot index is not below `n`.
pub open spec fn first_out_of_bounds(slots: Seq<KeyIndex>, n: nat, k: int) -> Option<int>
    decreases slots.len() - k,
{
    if k < 0 || k >= slots.len() {
        None
    } else if slots[k].0 >= n {
        Some(k)
    } else {
        first_out_of_bounds(slots, n, k + 1)
    }
}

/// What is wrong with key number `i`, if anything: non-positive (or negative-zero)
/// width or height, a hand index above 1, or a finger index above 4, in that order.
pub open spec fn key_error(i: int, k: KeyNode) -> Option<Seq<char>> {
    if f32_bits_le_zero(k.w_bits) || f32_bits_le_zero(k.h_bits) {
        Some("Key #"@ + decimal(i) + " has invalid dimensions"@)
    } else if k.hand@ > 1 {
        Some("Key #"@ + decimal(i) + " has invalid hand index "@ + decimal(k.hand@ as int))
    } else if k.finger@ > 4 {
        Some("Key #"@ + decimal(i) + " has invalid finger index "@ + decimal(k.finger@ as int))
    } else {
        None
    }
}

/// The first key error at or after position `k`.
pub open spec fn first_key_error(keys: Seq<KeyNode>, k: int) -> Option<Seq<char>>
    decreases keys.len() - k,
{
    if k < 0 || k >= keys.len() {
        None
    } else {
        match key_error(k, keys[k]) {
            Some(m) => Some(m),
            None => first_key_error(keys, k + 1),
        }
    }
}

/// A key is well formed when its width and height are positive, its hand is the left
/// or the right hand, and its finger is one of thumb to pinky.
pub open spec fn key_well_formed(k: KeyNode) -> bool {
    &&& !f32_bits_le_zero(k.w_bits)
    &&& !f32_bits_le_zero(k.h_bits)
    &&& k.hand@ <= Hand::Right.spec_index()
    &&& k.finger@ <= Finger::Pinky.spec_index()
}

/// A key has no error exactly when it is well formed: every finger from thumb to
/// pinky and both hands are accepted, and nothing beyond them.
pub proof fn lemma_key_error_iff(i: int, k: KeyNode)
    ensures
        key_error(i, k) is None <==> key_well_formed(k),
{
}

/// The keys of a list have no error from position `k` on exactly when every one of
/// them is well formed.
pub proof fn lemma_first_key_error_iff(keys: Seq<KeyNode>, k: int)
    requires
        0 <= k <= keys.len(),
    ensures
        first_key_error(keys, k) is None <==> forall|i: int| k <= i < keys.len() ==> #[trigger] key_well_formed(keys[i]),
    decreases keys.len() - k,
{
    if k < keys.len() {
        lemma_key_error_iff(k, keys[k]);
        lemma_first_key_error_iff(keys, k + 1);
        if first_key_error(keys, k) is None {
            assert forall|i: int| k <= i < keys.len() implies #[trigger] key_well_formed(keys[i]) by {
                if i > k {
                    assert(k + 1 <= i < keys.len());
                }
            }
        }
    }
}

/// The first problem found with a geometry, in the order the checks are made:
/// a home row with neither home keys nor keys on it, too many keys, overlapping
/// slot tiers, slot tiers that do not cover the keys exactly, a slot index out of
/// bounds, and finally a malformed key.
pub open spec fn geometry_error(g: KeyboardGeometry) -> Option<Seq<char>> {
    let keys = g.keys@;
    let n = keys.len();
    let prime = slot_set(g.prime_slots@);
    let med = slot_set(g.med_slots@);
    let low = slot_set(g.low_slots@);
    let all = g.prime_slots@ + g.med_slots@ + g.low_slots@;
    if !any_home_key(keys) && !any_on_row(keys, g.home_row) {
        Some("Invalid home row r"@ + decimal(g.home_row@ as int)
            + ": no keys found on this row and no keys marked is_home"@)
    } else if n > MAX_KEYBOARD_KEYS {
        Some("Too many keys: "@ + decimal(n as int) + " (Max: "@ + decimal(MAX_KEYBOARD_KEYS as int) + ")"@)
    } else if !prime.disjoint(med) {
        Some("Prime and Med slots overlap"@)
    } else if !prime.disjoint(low) {
        Some("Prime and Low slots overlap"@)
    } else if !med.disjoint(low) {
        Some("Med and Low slots overlap"@)
    } else if prime.len() + med.len() + low.len() != n {
        Some("Slot definition incomplete. Covered "@ + decimal((prime.len() + med.len() + low.len()) as int)
            + "/"@ + decimal(n as int) + " keys."@)
    } else {
        match first_out_of_bounds(all, n, 0) {
            Some(p) => Some("Slot index "@ + decimal(all[p].0 as int) + " out of bounds (keys: "@
                + decimal(n as int) + ")"@),
            None => first_key_error(keys, 0),
        }
    }
}

/// The key indices named by any of the three slot tiers.
pub open spec fn slot_union(g: KeyboardGeometry) -> Set<u16> {
    slot_set(g.prime_slots@) + slot_set(g.med_slots@) + slot_set(g.low_slots@)
}

proof fn lemma_no_out_of_bounds(slots: Seq<KeyIndex>, n: nat, k: int)
    requires
        0 <= k,
        first_out_of_bounds(slots, n, k) is None,
    ensures
        forall|j: int| k <= j < slots.len() ==> (#[trigger] slots[j]).0 < n,
    decreases slots.len() - k,
{
    if k < slots.len() {
        lemma_no_out_of_bounds(slots, n, k + 1);
    }
}

proof fn lemma_slot_set_bounded(slots: Seq<KeyIndex>, n: nat)
    requires
        forall|j: int| 0 <= j < slots.len() ==> (#[trigger] slots[j]).0 < n,
    ensures
        forall|x: u16| slot_set(slots).contains(x) ==> x < n,
{
    assert forall|x: u16| slot_set(slots).contains(x) implies x < n by {
        let j = choose|j: int| 0 <= j < slot_ids(slots).len() && slot_ids(slots)[j] == x;
        assert(slots[j].0 == x);
    }
}

/// A geometry that passes validation assigns every key to exactly one slot tier: the
/// tiers are pairwise disjoint, and together they name exactly the indices below the
/// number of keys.
pub proof fn lemma_valid_geometry_partitions_keys(g: KeyboardGeometry)
    requires
        geometry_error(g) is None,
    ensures
        slot_set(g.prime_slots@).disjoint(slot_set(g.med_slots@)),
        slot_set(g.prime_slots@).disjoint(slot_set(g.low_slots@)),
        slot_set(g.med_slots@).disjoint(slot_set(g.low_slots@)),
        forall|i: u16| slot_union(g).contains(i) <==> (i as int) < g.keys@.len(),
{
    let n = g.keys@.len();
    let p = slot_set(g.prime_slots@);
    let m = slot_set(g.med_slots@);
    let l = slot_set(g.low_slots@);
    let all = g.prime_slots@ + g.med_slots@ + g.low_slots@;
    vstd::seq_lib::seq_to_set_is_finite(slot_ids(g.prime_slots@));
    vstd::seq_lib::seq_to_set_is_finite(slot_ids(g.med_slots@));
    vstd::seq_lib::seq_to_set_is_finite(slot_ids(g.low_slots@));
    // Every slot index is below n.
    lemma_no_out_of_bounds(all, n, 0);
    assert forall|j: int| 0 <= j < g.prime_slots@.len() implies (#[trigger] g.prime_slots@[j]).0 < n by {
        assert(all[j] == g.prime_slots@[j]);
    }
    assert forall|j: int| 0 <= j < g.med_slots@.len() implies (#[trigger] g.med_slots@[j]).0 < n by {
        assert(all[g.prime_slots@.len() + j] == g.med_slots@[j]);
    }
    assert forall|j: int| 0 <= j < g.low_slots@.len() implies (#[trigger] g.low_slots@[j]).0 < n by {
        assert(all[g.prime_slots@.len() + g.med_slots@.len() + j] == g.low_slots@[j]);
    }
    lemma_slot_set_bounded(g.prime_slots@, n);
    lemma_slot_set_bounded(g.med_slots@, n);
    lemma_slot_set_bounded(g.low_slots@, n);
    // The union has n elements.
    vstd::set_lib::lemma_set_disjoint_lens(p, m);
    assert((p + m).disjoint(l));
    vstd::set_lib::lemma_set_disjoint_lens(p + m, l);
    let u = slot_union(g);
    assert(u.len() == n);
    // Viewed as integers, the union is exactly 0..n.
    let f = |x: u16| x as int;
    let ui = u.map(f);
    assert(vstd::relations::injective_on(f, u));
    vstd::set_lib::lemma_map_size(u, ui, f);
    vstd::set_lib::lemma_int_range(0, n as int);
    let range = vstd::set_lib::set_int_range(0, n as int);
    assert forall|i: int| ui.contains(i) implies range.contains(i) by {
        let x = choose|x: u16| u.contains(x) && f(x) == i;
    }
    vstd::set_lib::lemma_subset_equality(ui, range);
    assert forall|i: u16| u.contains(i) <==> (i as int) < n by {
        if (i as int) < n {
            assert(range.contains(i as int));
            assert(ui.contains(i as int));
            let x = choose|x: u16| u.contains(x) && f(x) == i as int;
            assert(x == i);
        }
    }
}

/// Some key satisfies `is_home`.
fn has_home_key(keys: &Vec<KeyNode>) -> (r: bool)
    ensures
        r == any_home_key(keys@),
{
    let mut i: usize = 0;
    while i < keys.len()
        invariant
            i <= keys@.len(),
            forall|j: int| 0 <= j < i ==> !(#[trigger] keys@[j]).is_home,
        decreases keys.len() - i,
    {
        if keys[i].is_home {
            return true;
        }
        i += 1;
    }
    false
}

/// Some key lies on `row`.
fn has_key_on_row(keys: &Vec<KeyNode>, row: RowIndex) -> (r: bool)
    ensures
        r == any_on_row(keys@, row),
{
    let mut i: usize = 0;
    while i < keys.len()
        invariant
            i <= keys@.len(),
            forall|j: int| 0 <= j < i ==> (#[trigger] keys@[j]).row != row,
        decreases keys.len() - i,
    {
        if keys[i].row == row {
            return true;
        }
        i += 1;
    }
    false
}

/// Number of distinct key indices in a slot list.
fn count_distinct(slots: &Vec<KeyIndex>) -> (r: usize)
    ensures
        r == slot_set(slots@).len(),
        r <= slots@.len(),
{
    let mut count: usize = 0;
    let mut i: usize = 0;
    proof {
        assert(slot_ids(slots@.take(0)).to_set() =~= Set::<u16>::empty());
    }
    while i < slots.len()
        invariant
            i <= slots@.len(),
            count <= i,
            count == slot_set(slots@.take(i as int)).len(),
        decreases slots.len() - i,
    {
        let v = slots[i].0;
        let mut seen = false;
        let mut j: usize = 0;
        while j < i
            invariant
                j <= i < slots@.len(),
                seen <==> exists|k: int| 0 <= k < j && (#[trigger] slots@[k]).0 == v,
                v == slots@[i as int].0,
            decreases i - j,
        {
            if slots[j].0 == v {
                seen = true;
            }
            j += 1;
        }
        proof {
            let prev = slot_ids(slots@.take(i as int));
            let next = slot_ids(slots@.take(i + 1));
            assert(next =~= prev + seq![v]);
            Seq::<u16>::lemma_to_set_insert_commutes(prev, v);
            vstd::seq_lib::seq_to_set_is_finite(prev);
            if seen {
                let k = choose|k: int| 0 <= k < i && (#[trigger] slots@[k]).0 == v;
                assert(prev[k] == v);
                assert(prev.to_set().contains(v));
                assert(prev.to_set().insert(v) =~= prev.to_set());
            } else {
                assert(!prev.to_set().contains(v)) by {
                    if prev.contains(v) {
                        let k = choose|k: int| 0 <= k < prev.len() && prev[k] == v;
                        assert(slots@[k].0 == v);
                    }
                }
            }
        }
        if !seen {
            count += 1;
        }
        i += 1;
    }
    assert(slots@.take(slots@.len() as int) =~= slots@);
    count
}

/// Whether the two slot lists share a key index.
fn slots_overlap(a: &Vec<KeyIndex>, b: &Vec<KeyIndex>) -> (r: bool)
    ensures
        r == !slot_set(a@).disjoint(slot_set(b@)),
{
    let mut i: usize = 0;
    while i < a.len()
        invariant
            i <= a@.len(),
            forall|p: int, q: int| 0 <= p < i && 0 <= q < b@.len() ==> (#[trigger] a@[p]).0 != (#[trigger] b@[q]).0,
        decreases a.len() - i,
    {
        let mut j: usize = 0;
        while j < b.len()
            invariant
                i < a@.len(),
                j <= b@.len(),
                forall|p: int, q: int| 0 <= p < i && 0 <= q < b@.len() ==> (#[trigger] a@[p]).0 != (#[trigger] b@[q]).0,
                forall|q: int| 0 <= q < j ==> a@[i as int].0 != (#[trigger] b@[q]).0,
            decreases b.len() - j,
        {
            if a[i].0 == b[j].0 {
                proof {
                    assert(slot_ids(a@)[i as int] == a@[i as int].0);
                    assert(slot_ids(b@)[j as int] == b@[j as int].0);
                    assert(slot_set(a@).contains(a@[i as int].0));
                    assert(slot_set(b@).contains(a@[i as int].0));
                }
                return true;
            }
            j += 1;
        }
        i += 1;
    }
    proof {
        assert forall|x: u16| slot_set(a@).contains(x) implies !slot_set(b@).contains(x) by {
            let p = choose|p: int| 0 <= p < slot_ids(a@).len() && slot_ids(a@)[p] == x;
            if slot_set(b@).contains(x) {
                let q = choose|q: int| 0 <= q < slot_ids(b@).len() && slot_ids(b@)[q] == x;
                assert(a@[p].0 == b@[q].0);
            }
        }
    }
    false
}

/// The first position at or after `k` whose index is not below `n`, as an exec scan.
fn find_out_of_bounds(slots: &Vec<KeyIndex>, n: usize) -> (r: Option<usize>)
    ensures
        match r {
            Some(p) => first_out_of_bounds(slots@, n as nat, 0) == Some(p as int) && p < slots@.len(),
            None => first_out_of_bounds(slots@, n as nat, 0) is None,
        },
{
    let mut i: usize = 0;
    while i < slots.len()
        invariant
            i <= slots@.len(),
            first_out_of_bounds(slots@, n as nat, 0) == first_out_of_bounds(slots@, n as nat, i as int),
        decreases slots.len() - i,
    {
        if (slots[i].0 as usize) >= n {
            return Some(i);
        }
        i += 1;
    }
    None
}

/// The three slot tiers, one after another.
fn concat_slots(a: &Vec<KeyIndex>, b: &Vec<KeyIndex>, c: &Vec<KeyIndex>) -> (r: Vec<KeyIndex>)
    ensures
        r@ == a@ + b@ + c@,
{
    let mut out: Vec<KeyIndex> = Vec::new();
    let mut i: usize = 0;
    while i < a.len()
        invariant
            i <= a@.len(),
            out@ == a@.take(i as int),
        decreases a.len() - i,
    {
        out.push(a[i]);
        i += 1;
        assert(out@ =~= a@.take(i as int));
    }
    assert(a@.take(a@.len() as int) =~= a@);
    let mut j: usize = 0;
    while j < b.len()
        invariant
            j <= b@.len(),
            out@ == a@ + b@.take(j as int),
        decreases b.len() - j,
    {
        out.push(b[j]);
        j += 1;
        assert(out@ =~= a@ + b@.take(j as int));
    }
    assert(b@.take(b@.len() as int) =~= b@);
    let mut k: usize = 0;
    while k < c.len()
        invariant
            k <= c@.len(),
            out@ == a@ + b@ + c@.take(k as int),
        decreases c.len() - k,
    {
        out.push(c[k]);
        k += 1;
        assert(out@ =~= a@ + b@ + c@.take(k as int));
    }
    assert(c@.take(c@.len() as int) =~= c@);
    out
}

/// The error of key number `i`, as computed by `key_error`.
fn check_key(i: usize, k: &KeyNode) -> (r: Option<String>)
    ensures
        match r {
            Some(m) => key_error(i as int, *k) == Some(m@),
            None => key_error(i as int, *k) is None,
        },
{
    if f32_bits_is_le_zero(k.w_bits) || f32_bits_is_le_zero(k.h_bits) {
        let mut m = String::from_str("Key #");
        m.append(u64_to_decimal(i as u64).as_str());
        m.append(" has invalid dimensions");
        return Some(m);
    }
    if k.hand.as_u8() > 1 {
        let mut m = String::from_str("Key #");
        m.append(u64_to_decimal(i as u64).as_str());
        m.append(" has invalid hand index ");
        m.append(u64_to_decimal(k.hand.as_u8() as u64).as_str());
        return Some(m);
    }
    if k.finger.as_u8() > 4 {
        let mut m = String::from_str("Key #");
        m.append(u64_to_decimal(i as u64).as_str());
        m.append(" has invalid finger index ");
        m.append(u64_to_decimal(k.finger.as_u8() as u64).as_str());
        return Some(m);
    }
    None
}

impl KeyboardGeometry {
    /// Creates a geometry with the default thresholds.
    pub fn new(
        keys: Vec<KeyNode>,
        prime_slots: Vec<KeyIndex>,
        med_slots: Vec<KeyIndex>,
        low_slots: Vec<KeyIndex>,
        home_row: RowIndex,
    ) -> (r: Self)
        ensures
            r.keys == keys,
            r.prime_slots == prime_slots,
            r.med_slots == med_slots,
            r.low_slots == low_slots,
            r.home_row == home_row,
            r.threshold_sfb_long_row_diff == DEFAULT_THRESHOLD_SFB_LONG_ROW_DIFF,
            r.threshold_scissor_row_diff == DEFAULT_THRESHOLD_SCISSOR_ROW_DIFF,
    {
        KeyboardGeometry {
            keys,
            prime_slots,
            med_slots,
            low_slots,
            home_row,
            threshold_sfb_long_row_diff: DEFAULT_THRESHOLD_SFB_LONG_ROW_DIFF,
            threshold_scissor_row_diff: DEFAULT_THRESHOLD_SCISSOR_ROW_DIFF,
        }
    }

    /// Returns the keys.
    pub fn keys(&self) -> (r: &[KeyNode])
        ensures
            r@ == self.keys@,
    {
        self.keys.as_slice()
    }

    /// Returns the home row index.
    pub fn home_row(&self) -> (r: RowIndex)
        ensures
            r == self.home_row,
    {
        self.home_row
    }

    /// Returns the long same-finger bigram row threshold.
    pub fn threshold_sfb_long_row_diff(&self) -> (r: i8)
        ensures
            r == self.threshold_sfb_long_row_diff,
    {
        self.threshold_sfb_long_row_diff
    }

    /// Returns the scissor row threshold.
    pub fn threshold_scissor_row_diff(&self) -> (r: i8)
        ensures
            r == self.threshold_scissor_row_diff,
    {
        self.threshold_scissor_row_diff
    }

    /// Sets both row thresholds.
    pub fn with_thresholds(self, sfb_long: i8, scissor: i8) -> (r: Self)
        ensures
            r == (KeyboardGeometry {
                threshold_sfb_long_row_diff: sfb_long,
                threshold_scissor_row_diff: scissor,
                ..self
            }),
    {
        KeyboardGeometry { threshold_sfb_long_row_diff: sfb_long, threshold_scissor_row_diff: scissor, ..self }
    }

    /// Returns the prime slots.
    pub fn prime_slots(&self) -> (r: &[KeyIndex])
        ensures
            r@ == self.prime_slots@,
    {
        self.prime_slots.as_slice()
    }

    /// Returns the medium slots.
    pub fn med_slots(&self) -> (r: &[KeyIndex])
        ensures
            r@ == self.med_slots@,
    {
        self.med_slots.as_slice()
    }

    /// Returns the low slots.
    pub fn low_slots(&self) -> (r: &[KeyIndex])
        ensures
            r@ == self.low_slots@,
    {
        self.low_slots.as_slice()
    }

    /// A deterministic fingerprint of the geometry: the lowercase hexadecimal SHA-256
    /// of its keys, slot tiers and home row (thresholds are not covered).
    pub fn calculate_hash(&self) -> (r: String)
        ensures
            r@ == digest::hex_lower(digest::sha256_spec(digest::geometry_bytes(*self))),
            r@.len() == 64,
    {
        digest::geometry_fingerprint(self)
    }
}

impl Validator for KeyboardGeometry {
    /// Checks the geometry; the error is the first problem `geometry_error` names.
    fn validate(&self) -> (r: Result<(), String>)
        ensures
            match r {
                Ok(()) => geometry_error(*self) is None,
                Err(m) => geometry_error(*self) == Some(m@),
            },
    {
        let n = self.keys.len();
        if !has_home_key(&self.keys) && !has_key_on_row(&self.keys, self.home_row) {
            let mut m = String::from_str("Invalid home row r");
            m.append(i64_to_decimal(self.home_row.raw() as i64).as_str());
            m.append(": no keys found on this row and no keys marked is_home");
            return Err(m);
        }
        if n > MAX_KEYBOARD_KEYS {
            let mut m = String::from_str("Too many keys: ");
            m.append(u64_to_decimal(n as u64).as_str());
            m.append(" (Max: ");
            m.append(u64_to_decimal(MAX_KEYBOARD_KEYS as u64).as_str());
            m.append(")");
            return Err(m);
        }
        if slots_overlap(&self.prime_slots, &self.med_slots) {
            return Err(String::from_str("Prime and Med slots overlap"));
        }
        if slots_overlap(&self.prime_slots, &self.low_slots) {
            return Err(String::from_str("Prime and Low slots overlap"));
        }
        if slots_overlap(&self.med_slots, &self.low_slots) {
            return Err(String::from_str("Med and Low slots overlap"));
        }
        let total: u128 = count_distinct(&self.prime_slots) as u128
            + count_distinct(&self.med_slots) as u128 + count_distinct(&self.low_slots) as u128;
        if total != n as u128 {
            let mut m = String::from_str("Slot definition incomplete. Covered ");
            m.append(u128_to_decimal(total).as_str());
            m.append("/");
            m.append(u64_to_decimal(n as u64).as_str());
            m.append(" keys.");
            return Err(m);
        }
        let all_slots = concat_slots(&self.prime_slots, &self.med_slots, &self.low_slots);
        if let Some(p) = find_out_of_bounds(&all_slots, n) {
            let mut m = String::from_str("Slot index ");
            m.append(u64_to_decimal(all_slots[p].0 as u64).as_str());
            m.append(" out of bounds (keys: ");
            m.append(u64_to_decimal(n as u64).as_str());
            m.append(")");
            return Err(m);
        }
        let mut i: usize = 0;
        while i < n
            invariant
                n == self.keys@.len(),
                i <= n,
                geometry_error(*self) == first_key_error(self.keys@, i as int),
            decreases n - i,
        {
            if let Some(m) = check_key(i, &self.keys[i]) {
                return Err(m);
            }
            i += 1;
        }
        Ok(())
    }
}

/// Complete definition of a keyboard: metadata, geometry and named layouts.
#[derive(Debug, Clone)]
pub struct KeyboardDefinition {
    /// Metadata about the keyboard.
    pub meta: KeyboardMeta,
    /// Physical geometry of the keys.
    pub geometry: KeyboardGeometry,
    /// Pre-defined layouts available for this keyboard, by name.
    pub layouts: HashMap<String, String>,
}

impl Default for KeyboardDefinition {
    /// Empty metadata, the default geometry and no layouts.
    fn default() -> (r: Self)
        ensures
            r.meta.name@.len() == 0,
            r.geometry.keys@.len() == 0,
            r.layouts@ == Map::<String, String>::empty(),
    {
        KeyboardDefinition { meta: KeyboardMeta::default(), geometry: KeyboardGeometry::default(), layouts: HashMap::new() }
    }
}

/// The first problem with a keyboard definition: an over-long name, then the geometry's.
pub open spec fn definition_error(d: KeyboardDefinition) -> Option<Seq<char>> {
    if vstd::utf8::encode_utf8(d.meta.name@).len() > MAX_KEYBOARD_NAME_LEN {
        Some("Keyboard name too long (max "@ + decimal(MAX_KEYBOARD_NAME_LEN as int) + ")"@)
    } else {
        geometry_error(d.geometry)
    }
}

impl Validator for KeyboardDefinition {
    /// Checks the name length (in bytes), then the geometry.
    fn validate(&self) -> (r: Result<(), String>)
        ensures
            match r {
                Ok(()) => definition_error(*self) is None,
                Err(m) => definition_error(*self) == Some(m@),
            },
    {
        let name = chars_of(self.meta.name.as_str());
        if utf8_len_exceeds(&name, MAX_KEYBOARD_NAME_LEN) {
            let mut m = String::from_str("Keyboard name too long (max ");
            m.append(u64_to_decimal(MAX_KEYBOARD_NAME_LEN as u64).as_str());
            m.append(")");
            return Err(m);
        }
        self.geometry.validate()
    }
}

impl crate::asset::Asset for KeyboardDefinition {
    fn category() -> (r: crate::asset::AssetCategory)
        ensures
            r == crate::asset::AssetCategory::Keyboard,
    {
        crate::asset::AssetCategory::Keyboard
    }

    /// Validates the definition; a failure is reported as invalid data.
    fn post_load(&mut self) -> (r: Result<(), crate::error::ForgeError>)
        ensures
            *final(self) == *old(self),
            match r {
                Ok(()) => definition_error(*old(self)) is None,
                Err(e) => exists|m: String| definition_error(*old(self)) == Some(m@)
                    && e == crate::error::ForgeError::InvalidData(m),
            },
    {
        match self.validate() {
            Ok(()) => Ok(()),
            Err(m) => Err(crate::error::ForgeError::InvalidData(m)),
        }
    }
}

/// Two-digit zero padding of a decimal number (`{:02}`).
pub open spec fn pad2(i: int) -> Seq<char> {
    if 0 <= i < 10 {
        "0"@ + decimal(i)
    } else {
        decimal(i)
    }
}

/// Key `i` of the generated test keyboard: a row of unit keys one unit apart,
/// all on the left thumb, labelled `K00`, `K01`, ...; indices and positions
/// saturate at key 65535, and the column wraps every 128 keys.
pub open spec fn is_test_key(i: int, k: KeyNode) -> bool {
    let u = if i <= 65535 { i } else { 65535 };
    &&& k.index.0 == u
    &&& k.label@ == "K"@ + pad2(i)
    &&& k.x@ == u * 1000
    &&& k.y@ == 0
    &&& k.w_bits == F32_ONE_BITS
    &&& k.h_bits == F32_ONE_BITS
    &&& k.hand@ == 0
    &&& k.finger@ == 0
    &&& k.row@ == 0
    &&& k.col@ == i % 128
    &&& !k.is_home
    &&& !k.is_stretch
    &&& k.r_bits == 0
    &&& k.rx@ == 0
    &&& k.ry@ == 0
}

/// The label `K` followed by the key number, at least two digits wide.
fn test_label(i: usize) -> (r: String)
    ensures
        r@ == "K"@ + pad2(i as int),
{
    let mut m = String::from_str("K");
    if i < 10 {
        m.append("0");
    }
    m.append(u64_to_decimal(i as u64).as_str());
    proof {
        if i < 10 {
            assert(m@ =~= "K"@ + ("0"@ + decimal(i as int)));
        }
    }
    m
}

impl KeyboardDefinition {
    /// Wraps a geometry in a definition named `name`, marked as imported.
    pub fn from_geometry(geometry: KeyboardGeometry, name: &str) -> (r: Self)
        ensures
            r.meta.name@ == name@,
            r.meta.kb_type@ == "imported"@,
            r.meta.author@.len() == 0,
            r.meta.version@.len() == 0,
            r.meta.notes@.len() == 0,
            r.geometry == geometry,
            r.layouts@ == Map::<String, String>::empty(),
    {
        KeyboardDefinition {
            meta: KeyboardMeta {
                name: String::from_str(name),
                author: String::new(),
                version: String::new(),
                notes: String::new(),
                kb_type: String::from_str("imported"),
            },
            geometry,
            layouts: HashMap::new(),
        }
    }

    /// A synthetic keyboard with `keys_count` keys in one row, all of them prime slots
    /// (no slots when the count does not fit a key index).
    pub fn generate_test(keys_count: usize) -> (r: Self)
        ensures
            r.meta.name@ == "Test-"@ + decimal(keys_count as int),
            r.meta.author@ == "system"@,
            r.meta.version@.len() == 0,
            r.meta.notes@.len() == 0,
            r.meta.kb_type@.len() == 0,
            r.geometry.keys@.len() == keys_count,
            forall|i: int| 0 <= i < keys_count ==> is_test_key(i, #[trigger] r.geometry.keys@[i]),
            keys_count <= 65535 ==> r.geometry.prime_slots@.len() == keys_count,
            keys_count <= 65535 ==> forall|i: int| 0 <= i < keys_count ==> (#[trigger] r.geometry.prime_slots@[i]).0 == i,
            keys_count > 65535 ==> r.geometry.prime_slots@.len() == 0,
            r.geometry.med_slots@.len() == 0,
            r.geometry.low_slots@.len() == 0,
            r.geometry.home_row@ == 0,
            r.geometry.threshold_sfb_long_row_diff == DEFAULT_THRESHOLD_SFB_LONG_ROW_DIFF,
            r.geometry.threshold_scissor_row_diff == DEFAULT_THRESHOLD_SCISSOR_ROW_DIFF,
            r.layouts@ == Map::<String, String>::empty(),
    {
        let mut keys: Vec<KeyNode> = Vec::new();
        let mut i: usize = 0;
        while i < keys_count
            invariant
                i <= keys_count,
                keys@.len() == i,
                forall|j: int| 0 <= j < i ==> is_test_key(j, #[trigger] keys@[j]),
            decreases keys_count - i,
        {
            let u: u16 = if i <= 65535 { i as u16 } else { 65535 };
            let key = KeyNode {
                index: KeyIndex::new(u),
                label: test_label(i),
                x: SpatialUnit::new((u as i32) * 1000),
                y: SpatialUnit::new(0),
                w_bits: F32_ONE_BITS,
                h_bits: F32_ONE_BITS,
                hand: HandIndex::new(0),
                finger: FingerIndex::new_unchecked(0),
                row: RowIndex::new(0),
                col: ColIndex::new((i % 128) as i8),
                is_home: false,
                is_stretch: false,
                r_bits: 0,
                rx: SpatialUnit::new(0),
                ry: SpatialUnit::new(0),
            };
            keys.push(key);
            i += 1;
        }
        let mut prime: Vec<KeyIndex> = Vec::new();
        if keys_count <= 65535 {
            let mut j: usize = 0;
            while j < keys_count
                invariant
                    j <= keys_count <= 65535,
                    prime@.len() == j,
                    forall|q: int| 0 <= q < j ==> (#[trigger] prime@[q]).0 == q,
                decreases keys_count - j,
            {
                prime.push(KeyIndex::new(j as u16));
                j += 1;
            }
        }
        let mut name = String::from_str("Test-");
        name.append(u64_to_decimal(keys_count as u64).as_str());
        KeyboardDefinition {
            meta: KeyboardMeta {
                name,
                author: String::from_str("system"),
                version: String::new(),
                notes: String::new(),
                kb_type: String::new(),
            },
            geometry: KeyboardGeometry {
                keys,
                prime_slots: prime,
                med_slots: Vec::new(),
                low_slots: Vec::new(),
                home_row: RowIndex::new(0),
                threshold_sfb_long_row_diff: DEFAULT_THRESHOLD_SFB_LONG_ROW_DIFF,
                threshold_scissor_row_diff: DEFAULT_THRESHOLD_SCISSOR_ROW_DIFF,
            },
            layouts: HashMap::new(),
        }
    }
}

} // verus!
