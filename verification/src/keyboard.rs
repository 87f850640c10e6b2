//! The keyboard aggregate: keys, finger resting positions and the table of
//! movements between every pair of keys.

use vstd::prelude::*;
use vstd::string::*;
use crate::error::ForgeError;
use crate::geometry::KeyNode;
use crate::types::{Movement, Point, RowIndex, SpatialUnit};
use crate::types::biomechanical::{keys_offset_fits, movement_between};

verus! {

/// The physical device: its keys and data pre-computed for scoring.
#[derive(Debug, Clone)]
pub struct Keyboard {
    /// The physical keys.
    pub keys: Vec<KeyNode>,
    /// The logical row considered the home row.
    pub home_row: RowIndex,
    /// Type of keyboard (e.g. "split", "ortho").
    pub kb_type: String,
    /// Resting position of each finger, indexed `[hand][finger]`.
    pub finger_origins: Vec<Vec<Point>>,
    /// Movement between every pair of keys, at index `i * key_count + j`.
    pub spatial_cache: Vec<Movement>,
}

/// Key `k` is typed by finger `f` of hand `h`.
pub open spec fn key_on(k: KeyNode, h: int, f: int) -> bool {
    k.hand@ == h && k.finger@ == f
}

/// Whether key `k` qualifies as a resting key of `(h, f)` in a tier: 0 = marked home key,
/// 1 = on the home row, 2 = any key of that finger.
pub open spec fn qualifies(k: KeyNode, home_row: RowIndex, h: int, f: int, tier: int) -> bool {
    key_on(k, h, f) && (if tier == 0 {
        k.is_home
    } else if tier == 1 {
        k.row == home_row
    } else {
        true
    })
}

/// The first key at or after `start` that qualifies in `tier`.
pub open spec fn first_qualifying(
    keys: Seq<KeyNode>,
    home_row: RowIndex,
    h: int,
    f: int,
    tier: int,
    start: int,
) -> Option<int>
    decreases keys.len() - start,
{
    if start < 0 || start >= keys.len() {
        None
    } else if qualifies(keys[start], home_row, h, f, tier) {
        Some(start)
    } else {
        first_qualifying(keys, home_row, h, f, tier, start + 1)
    }
}

/// The key whose position is the resting point of `(h, f)`: the first marked home key of
/// that finger, else its first key on the home row, else its first key at all.
pub open spec fn origin_key(keys: Seq<KeyNode>, home_row: RowIndex, h: int, f: int) -> Option<int> {
    match first_qualifying(keys, home_row, h, f, 0, 0) {
        Some(i) => Some(i),
        None => match first_qualifying(keys, home_row, h, f, 1, 0) {
            Some(i) => Some(i),
            None => first_qualifying(keys, home_row, h, f, 2, 0),
        },
    }
}

/// The coordinates of the resting point of `(h, f)`; `(0, 0)` when the finger has no key.
pub open spec fn origin_xy(keys: Seq<KeyNode>, home_row: RowIndex, h: int, f: int) -> (int, int) {
    match origin_key(keys, home_row, h, f) {
        Some(i) => (keys[i].x@ as int, keys[i].y@ as int),
        None => (0, 0),
    }
}

/// Point `p` is the resting point of `(h, f)`.
pub open spec fn is_origin(p: Point, keys: Seq<KeyNode>, home_row: RowIndex, h: int, f: int) -> bool {
    p.x@ == origin_xy(keys, home_row, h, f).0 && p.y@ == origin_xy(keys, home_row, h, f).1
}

/// The largest hand index among the keys (0 when there are none).
pub open spec fn max_hand(keys: Seq<KeyNode>) -> int
    decreases keys.len(),
{
    if keys.len() == 0 {
        0
    } else {
        let m = max_hand(keys.drop_last());
        if keys.last().hand@ > m { keys.last().hand@ as int } else { m }
    }
}

/// The largest finger index among the keys (0 when there are none).
pub open spec fn max_finger(keys: Seq<KeyNode>) -> int
    decreases keys.len(),
{
    if keys.len() == 0 {
        0
    } else {
        let m = max_finger(keys.drop_last());
        if keys.last().finger@ > m { keys.last().finger@ as int } else { m }
    }
}

/// Every pair of keys has offsets that fit a `Movement`.
pub open spec fn offsets_fit(keys: Seq<KeyNode>) -> bool {
    forall|i: int, j: int| 0 <= i < keys.len() && 0 <= j < keys.len()
        ==> keys_offset_fits(#[trigger] keys[i], #[trigger] keys[j])
}

/// The finger origins table: one row per hand up to the largest, one entry per finger
/// up to the largest, each the finger's resting point.
pub open spec fn origins_table_ok(t: Seq<Vec<Point>>, keys: Seq<KeyNode>, home_row: RowIndex) -> bool {
    &&& t.len() == max_hand(keys) + 1
    &&& forall|h: int| 0 <= h < t.len() ==> (#[trigger] t[h])@.len() == max_finger(keys) + 1
    &&& forall|h: int, f: int| 0 <= h < t.len() && 0 <= f < t[h]@.len()
        ==> is_origin(#[trigger] t[h]@[f], keys, home_row, h, f)
}

/// The movement table: entry `i * n + j` is the movement from key `i` to key `j`.
pub open spec fn spatial_table_ok(c: Seq<Movement>, keys: Seq<KeyNode>) -> bool {
    let n = keys.len();
    &&& c.len() == n * n
    &&& forall|i: int, j: int| 0 <= i < n && 0 <= j < n
        ==> #[trigger] c[i * n + j] == movement_between(keys[i], keys[j])
}

proof fn lemma_max_hand_bound(keys: Seq<KeyNode>)
    ensures
        0 <= max_hand(keys) <= 255,
        forall|i: int| 0 <= i < keys.len() ==> (#[trigger] keys[i]).hand@ <= max_hand(keys),
    decreases keys.len(),
{
    if keys.len() > 0 {
        lemma_max_hand_bound(keys.drop_last());
        assert forall|i: int| 0 <= i < keys.len() implies (#[trigger] keys[i]).hand@ <= max_hand(keys) by {
            if i < keys.len() - 1 {
                assert(keys.drop_last()[i] == keys[i]);
            }
        }
    }
}

proof fn lemma_max_finger_bound(keys: Seq<KeyNode>)
    ensures
        0 <= max_finger(keys) <= 255,
        forall|i: int| 0 <= i < keys.len() ==> (#[trigger] keys[i]).finger@ <= max_finger(keys),
    decreases keys.len(),
{
    if keys.len() > 0 {
        lemma_max_finger_bound(keys.drop_last());
        assert forall|i: int| 0 <= i < keys.len() implies (#[trigger] keys[i]).finger@ <= max_finger(keys) by {
            if i < keys.len() - 1 {
                assert(keys.drop_last()[i] == keys[i]);
            }
        }
    }
}

/// A finger that has keys rests on one of them.
pub proof fn lemma_origin_is_a_key(keys: Seq<KeyNode>, home_row: RowIndex, h: int, f: int, k: int)
    requires
        0 <= k < keys.len(),
        key_on(keys[k], h, f),
    ensures
        origin_key(keys, home_row, h, f) matches Some(i) && 0 <= i < keys.len() && key_on(keys[i], h, f),
{
    lemma_first_qualifying_found(keys, home_row, h, f, 2, 0, k);
    lemma_first_qualifying_sound(keys, home_row, h, f, 0, 0);
    lemma_first_qualifying_sound(keys, home_row, h, f, 1, 0);
    lemma_first_qualifying_sound(keys, home_row, h, f, 2, 0);
}

proof fn lemma_first_qualifying_sound(keys: Seq<KeyNode>, home_row: RowIndex, h: int, f: int, tier: int, start: int)
    ensures
        first_qualifying(keys, home_row, h, f, tier, start) matches Some(i)
            ==> start <= i < keys.len() && qualifies(keys[i], home_row, h, f, tier),
    decreases keys.len() - start,
{
    if 0 <= start < keys.len() && !qualifies(keys[start], home_row, h, f, tier) {
        lemma_first_qualifying_sound(keys, home_row, h, f, tier, start + 1);
    }
}

proof fn lemma_first_qualifying_found(keys: Seq<KeyNode>, home_row: RowIndex, h: int, f: int, tier: int, start: int, k: int)
    requires
        0 <= start <= k < keys.len(),
        qualifies(keys[k], home_row, h, f, tier),
    ensures
        first_qualifying(keys, home_row, h, f, tier, start) is Some,
    decreases k - start,
{
    if !qualifies(keys[start], home_row, h, f, tier) {
        lemma_first_qualifying_found(keys, home_row, h, f, tier, start + 1, k);
    }
}

/// The first key at or after index 0 that qualifies in `tier`.
fn find_qualifying(keys: &Vec<KeyNode>, home_row: RowIndex, h: usize, f: usize, tier: u8) -> (r: Option<usize>)
    ensures
        match r {
            Some(i) => first_qualifying(keys@, home_row, h as int, f as int, tier as int, 0) == Some(i as int),
            None => first_qualifying(keys@, home_row, h as int, f as int, tier as int, 0) is None,
        },
{
    let mut i: usize = 0;
    while i < keys.len()
        invariant
            i <= keys@.len(),
            first_qualifying(keys@, home_row, h as int, f as int, tier as int, 0)
                == first_qualifying(keys@, home_row, h as int, f as int, tier as int, i as int),
        decreases keys.len() - i,
    {
        let k = &keys[i];
        let on = k.hand.as_usize() == h && k.finger.as_usize() == f;
        let ok = on && (if tier == 0 {
            k.is_home
        } else if tier == 1 {
            k.row == home_row
        } else {
            true
        });
        if ok {
            return Some(i);
        }
        i += 1;
    }
    None
}

/// The resting point of `(h, f)`.
fn compute_origin(keys: &Vec<KeyNode>, home_row: RowIndex, h: usize, f: usize) -> (r: Point)
    ensures
        is_origin(r, keys@, home_row, h as int, f as int),
{
    let found = match find_qualifying(keys, home_row, h, f, 0) {
        Some(i) => Some(i),
        None => match find_qualifying(keys, home_row, h, f, 1) {
            Some(i) => Some(i),
            None => find_qualifying(keys, home_row, h, f, 2),
        },
    };
    match found {
        Some(i) => {
            proof {
                lemma_first_qualifying_sound(keys@, home_row, h as int, f as int, 0, 0);
                lemma_first_qualifying_sound(keys@, home_row, h as int, f as int, 1, 0);
                lemma_first_qualifying_sound(keys@, home_row, h as int, f as int, 2, 0);
            }
            Point::new(keys[i].x, keys[i].y)
        },
        None => Point::new(SpatialUnit::new(0), SpatialUnit::new(0)),
    }
}

/// The largest hand and finger indices among the keys.
fn max_indices(keys: &Vec<KeyNode>) -> (r: (usize, usize))
    ensures
        r.0 == max_hand(keys@),
        r.1 == max_finger(keys@),
{
    let mut mh: usize = 0;
    let mut mf: usize = 0;
    let mut i: usize = 0;
    assert(keys@.take(0) =~= Seq::<KeyNode>::empty());
    while i < keys.len()
        invariant
            i <= keys@.len(),
            mh == max_hand(keys@.take(i as int)),
            mf == max_finger(keys@.take(i as int)),
        decreases keys.len() - i,
    {
        proof {
            assert(keys@.take(i + 1).drop_last() =~= keys@.take(i as int));
        }
        let h = keys[i].hand.as_usize();
        let f = keys[i].finger.as_usize();
        if h > mh {
            mh = h;
        }
        if f > mf {
            mf = f;
        }
        i += 1;
    }
    assert(keys@.take(keys@.len() as int) =~= keys@);
    (mh, mf)
}

/// The finger origins table.
fn calculate_origins(keys: &Vec<KeyNode>, home_row: RowIndex) -> (r: Vec<Vec<Point>>)
    ensures
        origins_table_ok(r@, keys@, home_row),
{
    let (mh, mf) = max_indices(keys);
    proof {
        lemma_max_hand_bound(keys@);
        lemma_max_finger_bound(keys@);
    }
    let mut table: Vec<Vec<Point>> = Vec::new();
    let mut h: usize = 0;
    while h <= mh
        invariant
            mh == max_hand(keys@),
            mf == max_finger(keys@),
            mh <= 255,
            mf <= 255,
            h <= mh + 1,
            table@.len() == h,
            forall|a: int| 0 <= a < h ==> (#[trigger] table@[a])@.len() == mf + 1,
            forall|a: int, b: int| 0 <= a < h && 0 <= b < table@[a]@.len()
                ==> is_origin(#[trigger] table@[a]@[b], keys@, home_row, a, b),
        decreases mh + 1 - h,
    {
        let mut row: Vec<Point> = Vec::new();
        let mut f: usize = 0;
        while f <= mf
            invariant
                mf <= 255,
                f <= mf + 1,
                row@.len() == f,
                forall|b: int| 0 <= b < f ==> is_origin(#[trigger] row@[b], keys@, home_row, h as int, b),
            decreases mf + 1 - f,
        {
            row.push(compute_origin(keys, home_row, h, f));
            f += 1;
        }
        table.push(row);
        h += 1;
    }
    table
}

/// The movement table of all pairs of keys.
fn precompute_spatial_cache(keys: &Vec<KeyNode>) -> (r: Vec<Movement>)
    requires
        offsets_fit(keys@),
        keys@.len() * keys@.len() <= usize::MAX,
    ensures
        spatial_table_ok(r@, keys@),
{
    let n = keys.len();
    let mut cache: Vec<Movement> = Vec::new();
    let mut i: usize = 0;
    while i < n
        invariant
            n == keys@.len(),
            n * n <= usize::MAX,
            offsets_fit(keys@),
            i <= n,
            cache@.len() == i * n,
            forall|a: int, b: int| 0 <= a < i && 0 <= b < n
                ==> #[trigger] cache@[a * n + b] == movement_between(keys@[a], keys@[b]),
        decreases n - i,
    {
        let mut j: usize = 0;
        assert((i + 1) * n <= n * n) by (nonlinear_arith)
            requires
                i < n,
        ;
        assert((i + 1) * n == i * n + n) by (nonlinear_arith);
        while j < n
            invariant
                n == keys@.len(),
                n * n <= usize::MAX,
                (i + 1) * n <= n * n,
                (i + 1) * n == i * n + n,
                offsets_fit(keys@),
                i < n,
                j <= n,
                cache@.len() == i * n + j,
                forall|a: int, b: int| 0 <= a < i && 0 <= b < n
                    ==> #[trigger] cache@[a * n + b] == movement_between(keys@[a], keys@[b]),
                forall|b: int| 0 <= b < j ==> #[trigger] cache@[i * n + b] == movement_between(keys@[i as int], keys@[b]),
            decreases n - j,
        {
            assert(keys_offset_fits(keys@[i as int], keys@[j as int]));
            let m = Movement::from_keys(&keys[i], &keys[j]);
            let ghost old_cache = cache@;
            cache.push(m);
            proof {
                assert forall|a: int, b: int| 0 <= a < i && 0 <= b < n
                    implies #[trigger] cache@[a * n + b] == movement_between(keys@[a], keys@[b]) by {
                    assert(a * n + b < i * n) by (nonlinear_arith)
                        requires
                            0 <= a < i,
                            0 <= b < n,
                    ;
                    assert(cache@[a * n + b] == old_cache[a * n + b]);
                }
                assert forall|b: int| 0 <= b < j + 1 implies #[trigger] cache@[i * n + b] == movement_between(keys@[i as int], keys@[b]) by {
                    if b < j {
                        assert(cache@[i * n + b] == old_cache[i * n + b]);
                    }
                }
            }
            j += 1;
        }
        i += 1;
    }
    cache
}

impl Keyboard {
    /// Builds a keyboard, computing each finger's resting point and the movement
    /// between every pair of keys. A keyboard needs at least one key.
    pub fn new(keys: Vec<KeyNode>, home_row: RowIndex, kb_type: String) -> (r: Result<Self, ForgeError>)
        requires
            offsets_fit(keys@),
            keys@.len() * keys@.len() <= usize::MAX,
        ensures
            r is Ok <==> keys@.len() > 0,
            r matches Err(e) ==> e matches ForgeError::InvalidData(m)
                && m@ == "Keyboard must have at least one key"@,
            r matches Ok(kb) ==> {
                &&& kb.keys@ == keys@
                &&& kb.home_row == home_row
                &&& kb.kb_type@ == kb_type@
                &&& origins_table_ok(kb.finger_origins@, keys@, home_row)
                &&& spatial_table_ok(kb.spatial_cache@, keys@)
            },
    {
        if keys.len() == 0 {
            return Err(ForgeError::InvalidData(String::from_str("Keyboard must have at least one key")));
        }
        let finger_origins = calculate_origins(&keys, home_row);
        let spatial_cache = precompute_spatial_cache(&keys);
        Ok(Keyboard { keys, home_row, kb_type, finger_origins, spatial_cache })
    }

    /// Returns the physical keys.
    pub fn keys(&self) -> (r: &[KeyNode])
        ensures
            r@ == self.keys@,
    {
        self.keys.as_slice()
    }

    /// Returns the home row.
    pub fn home_row(&self) -> (r: RowIndex)
        ensures
            r == self.home_row,
    {
        self.home_row
    }

    /// Returns the number of keys.
    pub fn count(&self) -> (r: usize)
        ensures
            r == self.keys@.len(),
    {
        self.keys.len()
    }
}

/// In the movement table, the movement from key `j` back to key `i` mirrors the one
/// from `i` to `j`, and the movement from a key to itself is empty.
pub proof fn lemma_spatial_table_mirror(c: Seq<Movement>, keys: Seq<KeyNode>, i: int, j: int)
    requires
        spatial_table_ok(c, keys),
        offsets_fit(keys),
        0 <= i < keys.len(),
        0 <= j < keys.len(),
    ensures
        c[j * keys.len() + i].dx == -c[i * keys.len() + j].dx,
        c[j * keys.len() + i].dy == -c[i * keys.len() + j].dy,
        c[j * keys.len() + i].spec_is_sfb() == c[i * keys.len() + j].spec_is_sfb(),
        c[i * keys.len() + i].dx == 0,
        c[i * keys.len() + i].dy == 0,
{
    assert(keys_offset_fits(keys[i], keys[j]));
    assert(keys_offset_fits(keys[j], keys[i]));
    crate::types::biomechanical::lemma_movement_reverse(keys[i], keys[j]);
    crate::types::biomechanical::lemma_movement_to_self(keys[i]);
}

} // verus!
