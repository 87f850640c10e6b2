//! Baking a cost model into a table.
//!
//! A baked cost model is a table indexed by hand (2), finger (5), reach zone (3:
//! base, inner, outer) and row (8), stored flat. Cost definitions name hands, fingers
//! and thumb positions; these functions decide which table slot a name or row
//! designates and fill the table. Costs are single-precision values carried as their
//! bit patterns (`f32::to_bits`); nothing here computes with them.

use vstd::prelude::*;
use vstd::string::*;
use crate::text::chars_of;
use crate::types::{Finger, Hand, RowIndex};

verus! {

/// Number of hands in a baked table.
pub const BAKED_HANDS: usize = 2;
/// Number of fingers per hand in a baked table.
pub const BAKED_FINGERS: usize = 5;
/// Number of reach zones per finger in a baked table.
pub const BAKED_ZONES: usize = 3;
/// Number of rows per zone in a baked table.
pub const BAKED_ROWS: usize = 8;

/// The hand slot of a hand name: the right hand is 1; the left hand, and a universal
/// definition for both hands, are 0.
pub open spec fn hand_slot_spec(name: Seq<char>) -> Option<usize> {
    if name == "right_hand"@ {
        Some(1)
    } else if name == "left_hand"@ || name == "universal_hand"@ {
        Some(0)
    } else {
        None
    }
}

/// The finger slot of a finger name, thumb (0) to pinky (4).
pub open spec fn finger_slot_spec(name: Seq<char>) -> Option<usize> {
    if name == "thumb"@ {
        Some(0)
    } else if name == "index"@ {
        Some(1)
    } else if name == "middle"@ {
        Some(2)
    } else if name == "ring"@ {
        Some(3)
    } else if name == "pinky"@ {
        Some(4)
    } else {
        None
    }
}

/// The row slot of a named thumb position.
pub open spec fn thumb_row_slot_spec(name: Seq<char>) -> Option<usize> {
    if name == "pos_1"@ {
        Some(0)
    } else if name == "pos_2"@ {
        Some(1)
    } else if name == "pos_3"@ {
        Some(2)
    } else {
        None
    }
}

/// Whether the characters `s` spell the literal `lit`.
fn is_name(s: &[char], lit: &str) -> (r: bool)
    ensures
        r == (s@ == lit@),
{
    crate::text::chars_eq(s, &chars_of(lit))
}

/// The hand slot of a hand name, if it names one.
pub fn hand_slot(name: &str) -> (r: Option<usize>)
    ensures
        r == hand_slot_spec(name@),
{
    let n = chars_of(name);
    if is_name(&n, "right_hand") {
        Some(1)
    } else if is_name(&n, "left_hand") || is_name(&n, "universal_hand") {
        Some(0)
    } else {
        None
    }
}

/// The finger slot of a finger name, if it names one.
pub fn finger_slot(name: &str) -> (r: Option<usize>)
    ensures
        r == finger_slot_spec(name@),
{
    let n = chars_of(name);
    if is_name(&n, "thumb") {
        Some(0)
    } else if is_name(&n, "index") {
        Some(1)
    } else if is_name(&n, "middle") {
        Some(2)
    } else if is_name(&n, "ring") {
        Some(3)
    } else if is_name(&n, "pinky") {
        Some(4)
    } else {
        None
    }
}

/// The row slot of a named thumb position, if it names one.
pub fn thumb_row_slot(name: &str) -> (r: Option<usize>)
    ensures
        r == thumb_row_slot_spec(name@),
{
    let n = chars_of(name);
    if is_name(&n, "pos_1") {
        Some(0)
    } else if is_name(&n, "pos_2") {
        Some(1)
    } else if is_name(&n, "pos_3") {
        Some(2)
    } else {
        None
    }
}

/// The row slot of a row in a reach zone: rows 0 to 7; other rows have none.
pub fn reach_row_slot(row: RowIndex) -> (r: Option<usize>)
    ensures
        r == (if 0 <= row@ < BAKED_ROWS { Some(row@ as usize) } else { None::<usize> }),
{
    let v = row.raw();
    if 0 <= v && (v as usize) < BAKED_ROWS {
        Some(v as usize)
    } else {
        None
    }
}

/// Whether a position lies inside a baked table (otherwise its cost is the penalty).
pub fn baked_position_in_bounds(hand: usize, finger: usize, zone: usize, row: usize) -> (r: bool)
    ensures
        r == (hand < BAKED_HANDS && finger < BAKED_FINGERS && zone < BAKED_ZONES && row < BAKED_ROWS),
{
    hand < BAKED_HANDS && finger < BAKED_FINGERS && zone < BAKED_ZONES && row < BAKED_ROWS
}

/// Number of cells of a baked table.
pub const BAKED_LEN: usize = 240;

/// The flat position of a cell.
pub open spec fn cell(h: int, f: int, z: int, r: int) -> int {
    ((h * 5 + f) * 3 + z) * 8 + r
}

/// Costs of one finger, each cost an `f32` bit pattern.
#[derive(Debug, Clone)]
pub enum FingerCosts {
    /// Costs by reach zone, as (row, cost) entries of the base, inner and outer columns.
    Standard {
        /// Keys in the base column.
        base: Vec<(RowIndex, u32)>,
        /// Keys in the inner column (toward the centre).
        inner: Vec<(RowIndex, u32)>,
        /// Keys in the outer column (toward the edge).
        outer: Vec<(RowIndex, u32)>,
    },
    /// Costs of named thumb positions.
    Thumb(Vec<(String, u32)>),
}

/// Costs of one hand: its name and its fingers by name, in the order they are applied.
#[derive(Debug, Clone)]
pub struct HandCosts {
    /// The hand's name ("left_hand", "right_hand" or "universal_hand").
    pub name: String,
    /// The fingers' names and costs.
    pub fingers: Vec<(String, FingerCosts)>,
}

/// The table after writing the entries of one reach zone in turn; rows outside 0..8
/// are skipped.
pub open spec fn fill_zone(t: Seq<u32>, h: int, f: int, z: int, src: Seq<(RowIndex, u32)>) -> Seq<u32>
    decreases src.len(),
{
    if src.len() == 0 {
        t
    } else {
        let prev = fill_zone(t, h, f, z, src.drop_last());
        let e = src.last();
        if 0 <= e.0@ < BAKED_ROWS { prev.update(cell(h, f, z, e.0@ as int), e.1) } else { prev }
    }
}

/// The table after writing named thumb positions in turn, into the base zone; unknown
/// names are skipped.
pub open spec fn fill_thumb(t: Seq<u32>, h: int, f: int, src: Seq<(String, u32)>) -> Seq<u32>
    decreases src.len(),
{
    if src.len() == 0 {
        t
    } else {
        let prev = fill_thumb(t, h, f, src.drop_last());
        let e = src.last();
        match thumb_row_slot_spec(e.0@) {
            Some(r) => prev.update(cell(h, f, 0, r as int), e.1),
            None => prev,
        }
    }
}

/// The table after one finger's costs; unknown finger names are skipped.
pub open spec fn apply_finger(t: Seq<u32>, h: int, name: Seq<char>, costs: FingerCosts) -> Seq<u32> {
    match finger_slot_spec(name) {
        None => t,
        Some(f) => match costs {
            FingerCosts::Standard { base, inner, outer } =>
                fill_zone(fill_zone(fill_zone(t, h, f as int, 0, base@), h, f as int, 1, inner@), h, f as int, 2, outer@),
            FingerCosts::Thumb(m) => fill_thumb(t, h, f as int, m@),
        },
    }
}

/// The table after the fingers of one hand in turn.
pub open spec fn apply_fingers(t: Seq<u32>, h: int, fingers: Seq<(String, FingerCosts)>) -> Seq<u32>
    decreases fingers.len(),
{
    if fingers.len() == 0 {
        t
    } else {
        let e = fingers.last();
        apply_finger(apply_fingers(t, h, fingers.drop_last()), h, e.0@, e.1)
    }
}

/// The table with the right hand's half replaced by the left hand's.
pub open spec fn copy_left_to_right(t: Seq<u32>) -> Seq<u32> {
    Seq::new(t.len(), |i: int| if i >= 120 { t[i - 120] } else { t[i] })
}

/// The table after one hand; unknown hand names are skipped, and a universal hand is
/// copied to the right hand afterwards.
pub open spec fn apply_hand(t: Seq<u32>, hand: HandCosts) -> Seq<u32> {
    match hand_slot_spec(hand.name@) {
        None => t,
        Some(h) => {
            let filled = apply_fingers(t, h as int, hand.fingers@);
            if hand.name@ == "universal_hand"@ { copy_left_to_right(filled) } else { filled }
        },
    }
}

/// The table after the hands in turn.
pub open spec fn apply_hands(t: Seq<u32>, hands: Seq<HandCosts>) -> Seq<u32>
    decreases hands.len(),
{
    if hands.len() == 0 {
        t
    } else {
        apply_hand(apply_hands(t, hands.drop_last()), hands.last())
    }
}

/// The baked table of a model: every cell `fill` at first, then the hands in turn.
pub open spec fn bake_spec(hands: Seq<HandCosts>, fill: u32) -> Seq<u32> {
    apply_hands(Seq::new(BAKED_LEN as nat, |i: int| fill), hands)
}

/// The name a cost definition gives each finger.
pub open spec fn finger_name(f: Finger) -> Seq<char> {
    match f {
        Finger::Thumb => "thumb"@,
        Finger::Index => "index"@,
        Finger::Middle => "middle"@,
        Finger::Ring => "ring"@,
        Finger::Pinky => "pinky"@,
    }
}

/// Each finger's name designates that finger's slot in the finger order (thumb 0,
/// index 1, middle 2, ring 3, pinky 4), so distinct fingers get distinct slots.
pub proof fn lemma_finger_slot_order(f: Finger, g: Finger)
    ensures
        finger_slot_spec(finger_name(f)) == Some(f.spec_index()),
        f != g ==> finger_slot_spec(finger_name(f)) != finger_slot_spec(finger_name(g)),
{
    reveal_strlit("thumb");
    reveal_strlit("index");
    reveal_strlit("middle");
    reveal_strlit("ring");
    reveal_strlit("pinky");
    assert("thumb"@.len() == 5 && "index"@.len() == 5 && "middle"@.len() == 6);
    assert("ring"@.len() == 4 && "pinky"@.len() == 5);
    assert("thumb"@[0] == 't' && "index"@[0] == 'i' && "pinky"@[0] == 'p');
}

/// The right hand's costs go to the right hand's slot; the left hand's, and those of a
/// universal hand, go to the left hand's slot; the two slots differ.
pub proof fn lemma_hand_slot_order()
    ensures
        hand_slot_spec("right_hand"@) == Some(Hand::Right.spec_index()),
        hand_slot_spec("left_hand"@) == Some(Hand::Left.spec_index()),
        hand_slot_spec("universal_hand"@) == Some(Hand::Left.spec_index()),
        Hand::Left.spec_index() != Hand::Right.spec_index(),
{
    reveal_strlit("left_hand");
    reveal_strlit("right_hand");
    reveal_strlit("universal_hand");
    assert("left_hand"@.len() == 9 && "right_hand"@.len() == 10 && "universal_hand"@.len() == 14);
}

/// The zone entries of a finger's costs: one entry `(row, c)` in zone `z`, none in
/// the other two.
pub open spec fn single_zone_cost(costs: FingerCosts, z: int, row: RowIndex, c: u32) -> bool {
    costs matches FingerCosts::Standard { base, inner, outer }
        && base@ == (if z == 0 { seq![(row, c)] } else { Seq::empty() })
        && inner@ == (if z == 1 { seq![(row, c)] } else { Seq::empty() })
        && outer@ == (if z == 2 { seq![(row, c)] } else { Seq::empty() })
}

/// Baking one hand's definition that gives finger `f` a single cost `c` in reach zone
/// `z` (0 base, 1 inner, 2 outer) on row `row` puts `c` in the cell of that hand (by
/// its place: left 0, right 1), that finger (by its place in the finger order), that
/// zone and row; a universal definition puts it in the same cell of both hands. Every
/// other cell keeps `fill`.
pub proof fn lemma_bake_one_cost(hand: HandCosts, f: Finger, z: int, row: RowIndex, c: u32, fill: u32)
    requires
        hand.name@ == "left_hand"@ || hand.name@ == "right_hand"@ || hand.name@ == "universal_hand"@,
        hand.fingers@.len() == 1,
        hand.fingers@[0].0@ == finger_name(f),
        0 <= z < 3,
        single_zone_cost(hand.fingers@[0].1, z, row, c),
        0 <= row@ < 8,
    ensures
        ({
            let t = bake_spec(seq![hand], fill);
            let k = f.spec_index() as int;
            let left = cell(Hand::Left.spec_index() as int, k, z, row@ as int);
            let right = cell(Hand::Right.spec_index() as int, k, z, row@ as int);
            &&& t.len() == BAKED_LEN
            &&& hand.name@ != "right_hand"@ ==> t[left] == c
            &&& hand.name@ != "left_hand"@ ==> t[right] == c
            &&& forall|i: int| 0 <= i < BAKED_LEN
                && !(i == left && hand.name@ != "right_hand"@)
                && !(i == right && hand.name@ != "left_hand"@)
                ==> t[i] == fill
        }),
{
    lemma_finger_slot_order(f, f);
    lemma_hand_slot_order();
    reveal_strlit("left_hand");
    reveal_strlit("right_hand");
    reveal_strlit("universal_hand");
    assert("left_hand"@.len() == 9 && "right_hand"@.len() == 10 && "universal_hand"@.len() == 14);
    let t0 = Seq::new(BAKED_LEN as nat, |i: int| fill);
    let hands = seq![hand];
    assert(hands.drop_last() =~= Seq::<HandCosts>::empty());
    assert(apply_hands(t0, hands.drop_last()) == t0);
    let h: int = if hand.name@ == "right_hand"@ { 1 } else { 0 };
    assert(hand_slot_spec(hand.name@) == Some(h as usize));
    let fs = hand.fingers@;
    assert(fs.drop_last() =~= Seq::<(String, FingerCosts)>::empty());
    assert(apply_fingers(t0, h, fs.drop_last()) == t0);
    let k = f.spec_index() as int;
    let r = row@ as int;
    lemma_cell_bounds(h, k, z, r);
    lemma_cell_bounds(0, k, z, r);
    assert(cell(1, k, z, r) == cell(0, k, z, r) + 120);
    let filled = t0.update(cell(h, k, z, r), c);
    match fs[0].1 {
        FingerCosts::Standard { base, inner, outer } => {
            let one = seq![(row, c)];
            assert(one.drop_last() =~= Seq::<(RowIndex, u32)>::empty());
            assert(one.last() == (row, c));
            let z0 = fill_zone(t0, h, k, 0, base@);
            let z1 = fill_zone(z0, h, k, 1, inner@);
            let z2 = fill_zone(z1, h, k, 2, outer@);
            if z == 0 {
                assert(fill_zone(t0, h, k, 0, base@.drop_last()) == t0);
                assert(z0 == filled);
                assert(z1 == z0);
                assert(z2 == z1);
            } else if z == 1 {
                assert(z0 == t0);
                assert(fill_zone(z0, h, k, 1, inner@.drop_last()) == z0);
                assert(z1 == filled);
                assert(z2 == z1);
            } else {
                assert(z0 == t0);
                assert(z1 == z0);
                assert(fill_zone(z1, h, k, 2, outer@.drop_last()) == z1);
                assert(z2 == filled);
            }
            assert(apply_finger(t0, h, fs[0].0@, fs[0].1) == filled);
            assert(apply_fingers(t0, h, fs) == filled);
            if hand.name@ == "universal_hand"@ {
                assert(apply_hand(t0, hand) == copy_left_to_right(filled));
            } else {
                assert(apply_hand(t0, hand) == filled);
            }
            assert(bake_spec(hands, fill) == apply_hand(t0, hand));
        },
        FingerCosts::Thumb(_) => {},
    }
}

proof fn lemma_cell_bounds(h: int, f: int, z: int, r: int)
    requires
        0 <= h < 2,
        0 <= f < 5,
        0 <= z < 3,
        0 <= r < 8,
    ensures
        0 <= cell(h, f, z, r) < 240,
        h == 0 ==> cell(h, f, z, r) < 120,
{
    assert(0 <= cell(h, f, z, r) < 240 && (h == 0 ==> cell(h, f, z, r) < 120)) by (nonlinear_arith)
        requires
            0 <= h < 2,
            0 <= f < 5,
            0 <= z < 3,
            0 <= r < 8,
    ;
}

/// The flat position of a cell.
fn cell_exec(h: usize, f: usize, z: usize, r: usize) -> (i: usize)
    requires
        h < 2,
        f < 5,
        z < 3,
        r < 8,
    ensures
        i == cell(h as int, f as int, z as int, r as int),
        i < 240,
{
    proof { lemma_cell_bounds(h as int, f as int, z as int, r as int); }
    ((h * 5 + f) * 3 + z) * 8 + r
}

/// Writes the entries of one reach zone in turn.
fn fill_zone_exec(t: &mut Vec<u32>, h: usize, f: usize, z: usize, src: &Vec<(RowIndex, u32)>)
    requires
        old(t)@.len() == BAKED_LEN,
        h < 2,
        f < 5,
        z < 3,
    ensures
        final(t)@ == fill_zone(old(t)@, h as int, f as int, z as int, src@),
        final(t)@.len() == BAKED_LEN,
{
    let mut i: usize = 0;
    assert(src@.take(0) =~= Seq::<(RowIndex, u32)>::empty());
    while i < src.len()
        invariant
            i <= src@.len(),
            h < 2,
            f < 5,
            z < 3,
            t@.len() == BAKED_LEN,
            t@ == fill_zone(old(t)@, h as int, f as int, z as int, src@.take(i as int)),
        decreases src.len() - i,
    {
        proof {
            assert(src@.take(i + 1).drop_last() =~= src@.take(i as int));
            assert(src@.take(i + 1).last() == src@[i as int]);
        }
        let (row, cost) = src[i];
        match reach_row_slot(row) {
            Some(r) => {
                let k = cell_exec(h, f, z, r);
                t.set(k, cost);
            },
            None => {},
        }
        i += 1;
    }
    assert(src@.take(src@.len() as int) =~= src@);
}

/// Writes named thumb positions in turn.
fn fill_thumb_exec(t: &mut Vec<u32>, h: usize, f: usize, src: &Vec<(String, u32)>)
    requires
        old(t)@.len() == BAKED_LEN,
        h < 2,
        f < 5,
    ensures
        final(t)@ == fill_thumb(old(t)@, h as int, f as int, src@),
        final(t)@.len() == BAKED_LEN,
{
    let mut i: usize = 0;
    assert(src@.take(0) =~= Seq::<(String, u32)>::empty());
    while i < src.len()
        invariant
            i <= src@.len(),
            h < 2,
            f < 5,
            t@.len() == BAKED_LEN,
            t@ == fill_thumb(old(t)@, h as int, f as int, src@.take(i as int)),
        decreases src.len() - i,
    {
        proof {
            assert(src@.take(i + 1).drop_last() =~= src@.take(i as int));
            assert(src@.take(i + 1).last() == src@[i as int]);
        }
        match thumb_row_slot(src[i].0.as_str()) {
            Some(r) => {
                let k = cell_exec(h, f, 0, r);
                t.set(k, src[i].1);
            },
            None => {},
        }
        i += 1;
    }
    assert(src@.take(src@.len() as int) =~= src@);
}

/// Applies the fingers of one hand in turn.
fn apply_fingers_exec(t: &mut Vec<u32>, h: usize, fingers: &Vec<(String, FingerCosts)>)
    requires
        old(t)@.len() == BAKED_LEN,
        h < 2,
    ensures
        final(t)@ == apply_fingers(old(t)@, h as int, fingers@),
        final(t)@.len() == BAKED_LEN,
{
    let mut i: usize = 0;
    assert(fingers@.take(0) =~= Seq::<(String, FingerCosts)>::empty());
    while i < fingers.len()
        invariant
            i <= fingers@.len(),
            h < 2,
            t@.len() == BAKED_LEN,
            t@ == apply_fingers(old(t)@, h as int, fingers@.take(i as int)),
        decreases fingers.len() - i,
    {
        proof {
            assert(fingers@.take(i + 1).drop_last() =~= fingers@.take(i as int));
            assert(fingers@.take(i + 1).last() == fingers@[i as int]);
        }
        let (name, costs) = &fingers[i];
        match finger_slot(name.as_str()) {
            Some(f) => {
                match costs {
                    FingerCosts::Standard { base, inner, outer } => {
                        fill_zone_exec(t, h, f, 0, base);
                        fill_zone_exec(t, h, f, 1, inner);
                        fill_zone_exec(t, h, f, 2, outer);
                    },
                    FingerCosts::Thumb(m) => {
                        fill_thumb_exec(t, h, f, m);
                    },
                }
            },
            None => {},
        }
        i += 1;
    }
    assert(fingers@.take(fingers@.len() as int) =~= fingers@);
}

/// Replaces the right hand's half of the table by the left hand's.
fn copy_left_to_right_exec(t: &mut Vec<u32>)
    requires
        old(t)@.len() == BAKED_LEN,
    ensures
        final(t)@ == copy_left_to_right(old(t)@),
{
    let mut i: usize = 0;
    while i < 120
        invariant
            i <= 120,
            t@.len() == BAKED_LEN,
            old(t)@.len() == BAKED_LEN,
            forall|k: int| 0 <= k < 120 ==> #[trigger] t@[k] == old(t)@[k],
            forall|k: int| 120 <= k < 120 + i ==> #[trigger] t@[k] == old(t)@[k - 120],
            forall|k: int| 120 + i <= k < 240 ==> #[trigger] t@[k] == old(t)@[k],
        decreases 120 - i,
    {
        let v = t[i];
        t.set(120 + i, v);
        i += 1;
    }
    assert(t@ =~= copy_left_to_right(old(t)@));
}

/// Bakes the costs of a model's hands, applied in the order given, into a table whose
/// cells hold `fill` where no cost was given.
pub fn bake_costs(hands: &Vec<HandCosts>, fill: u32) -> (r: Vec<u32>)
    ensures
        r@ == bake_spec(hands@, fill),
        r@.len() == BAKED_LEN,
{
    let mut t: Vec<u32> = Vec::new();
    let mut k: usize = 0;
    while k < BAKED_LEN
        invariant
            k <= BAKED_LEN,
            t@.len() == k,
            forall|j: int| 0 <= j < k ==> t@[j] == fill,
        decreases BAKED_LEN - k,
    {
        t.push(fill);
        k += 1;
    }
    let ghost start = t@;
    assert(start =~= Seq::new(BAKED_LEN as nat, |i: int| fill));
    let mut i: usize = 0;
    assert(hands@.take(0) =~= Seq::<HandCosts>::empty());
    while i < hands.len()
        invariant
            i <= hands@.len(),
            t@.len() == BAKED_LEN,
            start == Seq::new(BAKED_LEN as nat, |i: int| fill),
            t@ == apply_hands(start, hands@.take(i as int)),
        decreases hands.len() - i,
    {
        proof {
            assert(hands@.take(i + 1).drop_last() =~= hands@.take(i as int));
            assert(hands@.take(i + 1).last() == hands@[i as int]);
        }
        let hand = &hands[i];
        match hand_slot(hand.name.as_str()) {
            Some(h) => {
                apply_fingers_exec(&mut t, h, &hand.fingers);
                if crate::text::chars_eq(&chars_of(hand.name.as_str()), &chars_of("universal_hand")) {
                    copy_left_to_right_exec(&mut t);
                }
            },
            None => {},
        }
        i += 1;
    }
    assert(hands@.take(hands@.len() as int) =~= hands@);
    t
}

/// The name of the row-staggered model, preferred when there are several.
pub const PREFERRED_MODEL: &'static str = "model_a_row_staggered";

/// The model to use among models named `keys` (in the order a caller walks them): the
/// only one, else the row-staggered one when present, else the first.
pub open spec fn preferred_key_spec(keys: Seq<Seq<char>>) -> Option<Seq<char>> {
    if keys.len() == 1 {
        Some(keys[0])
    } else if keys.contains(PREFERRED_MODEL@) {
        Some(PREFERRED_MODEL@)
    } else if keys.len() > 0 {
        Some(keys[0])
    } else {
        None
    }
}

/// Picks the model to use among models named `keys`, given in the order they are walked.
pub fn preferred_model_key(keys: &Vec<String>) -> (r: Option<String>)
    ensures
        match preferred_key_spec(keys@.map_values(|k: String| k@)) {
            Some(k) => r matches Some(s) && s@ == k,
            None => r is None,
        },
{
    let ghost names = keys@.map_values(|k: String| k@);
    if keys.len() == 1 {
        return Some(keys[0].clone());
    }
    let pref = chars_of(PREFERRED_MODEL);
    let mut i: usize = 0;
    while i < keys.len()
        invariant
            i <= keys@.len(),
            pref@ == PREFERRED_MODEL@,
            names == keys@.map_values(|k: String| k@),
            forall|j: int| 0 <= j < i ==> names[j] != PREFERRED_MODEL@,
        decreases keys.len() - i,
    {
        if crate::text::chars_eq(&chars_of(keys[i].as_str()), &pref) {
            assert(names[i as int] == PREFERRED_MODEL@);
            assert(names.contains(PREFERRED_MODEL@));
            return Some(String::from_str(PREFERRED_MODEL));
        }
        i += 1;
    }
    assert(!names.contains(PREFERRED_MODEL@)) by {
        if names.contains(PREFERRED_MODEL@) {
            let j = choose|j: int| 0 <= j < names.len() && names[j] == PREFERRED_MODEL@;
            assert(names[j] != PREFERRED_MODEL@);
        }
    }
    if keys.len() > 0 {
        Some(keys[0].clone())
    } else {
        None
    }
}

} // verus!
