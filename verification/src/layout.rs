//! Layouts: the key code placed at each physical key position.

use vstd::prelude::*;
use vstd::string::*;
use crate::text::{chars_of, decimal, u64_to_decimal};
use crate::constants::IDENTIFY_SIMILARITY_THRESHOLD;
use crate::types::{KeyCode, KeyIndex, Score};

verus! {

/// Errors of layout construction and mutation.
#[derive(Debug, Clone, Copy, PartialEq, Eq, Structural)]
pub enum LayoutError {
    /// The layout contains the same key code more than once.
    DuplicateKeys,
    /// A key position outside the layout.
    IndexOutOfBounds(usize),
    /// A layout of the wrong length.
    InvalidLength(usize),
}

/// The message of a layout error.
pub open spec fn layout_error_message(e: LayoutError) -> Seq<char> {
    match e {
        LayoutError::DuplicateKeys => "Layout contains duplicate keys"@,
        LayoutError::IndexOutOfBounds(i) => "Index out of bounds: "@ + decimal(i as int),
        LayoutError::InvalidLength(n) => "Invalid layout length: "@ + decimal(n as int),
    }
}

impl LayoutError {
    /// The human-readable message of the error.
    pub fn message(&self) -> (r: String)
        ensures
            r@ == layout_error_message(*self),
    {
        match self {
            LayoutError::DuplicateKeys => String::from_str("Layout contains duplicate keys"),
            LayoutError::IndexOutOfBounds(i) => {
                let mut m = String::from_str("Index out of bounds: ");
                m.append(u64_to_decimal(*i as u64).as_str());
                m
            },
            LayoutError::InvalidLength(n) => {
                let mut m = String::from_str("Invalid layout length: ");
                m.append(u64_to_decimal(*n as u64).as_str());
                m
            },
        }
    }
}

/// An unvalidated layout, as read or written.
#[derive(Debug, Clone, PartialEq, Eq)]
pub struct RawLayout {
    /// The key code at each position.
    pub keys: Vec<KeyCode>,
}

/// A keyboard layout: the key code at each position, position `i` being `KeyIndex(i)`.
#[derive(Debug, Clone, PartialEq, Eq)]
pub struct Layout {
    keys: Vec<KeyCode>,
}

impl View for Layout {
    type V = Seq<KeyCode>;

    closed spec fn view(&self) -> Seq<KeyCode> {
        self.keys@
    }
}

impl Layout {
    /// Creates a layout from its keys, without validation.
    pub fn new_unchecked(keys: Vec<KeyCode>) -> (r: Self)
        ensures
            r@ == keys@,
    {
        Layout { keys }
    }

    /// The number of keys.
    pub fn len(&self) -> (r: usize)
        ensures
            r == self@.len(),
    {
        self.keys.len()
    }

    /// Whether the layout has no keys.
    pub fn is_empty(&self) -> (r: bool)
        ensures
            r == (self@.len() == 0),
    {
        self.keys.len() == 0
    }

    /// The keys, in position order.
    pub fn keys(&self) -> (r: &[KeyCode])
        ensures
            r@ == self@,
    {
        self.keys.as_slice()
    }

    /// Exchanges the keys at two positions; either position out of range is an error
    /// (the first one checked is `a`) and leaves the layout unchanged.
    pub fn swap(&mut self, a: KeyIndex, b: KeyIndex) -> (r: Result<(), LayoutError>)
        ensures
            r == (if a.0 >= old(self)@.len() {
                Err::<(), LayoutError>(LayoutError::IndexOutOfBounds(a.0 as usize))
            } else if b.0 >= old(self)@.len() {
                Err::<(), LayoutError>(LayoutError::IndexOutOfBounds(b.0 as usize))
            } else {
                Ok::<(), LayoutError>(())
            }),
            r is Ok ==> final(self)@ == old(self)@.update(a.0 as int, old(self)@[b.0 as int]).update(
                b.0 as int,
                old(self)@[a.0 as int],
            ),
            r is Err ==> final(self)@ == old(self)@,
    {
        let ia = a.0 as usize;
        let ib = b.0 as usize;
        if ia >= self.keys.len() {
            return Err(LayoutError::IndexOutOfBounds(ia));
        }
        if ib >= self.keys.len() {
            return Err(LayoutError::IndexOutOfBounds(ib));
        }
        let ka = self.keys[ia];
        let kb = self.keys[ib];
        self.keys.set(ia, kb);
        self.keys.set(ib, ka);
        Ok(())
    }

    /// Places `key` at `index`; an index out of range is an error and leaves the layout unchanged.
    pub fn set(&mut self, index: KeyIndex, key: KeyCode) -> (r: Result<(), LayoutError>)
        ensures
            r == (if index.0 >= old(self)@.len() {
                Err::<(), LayoutError>(LayoutError::IndexOutOfBounds(index.0 as usize))
            } else {
                Ok::<(), LayoutError>(())
            }),
            r is Ok ==> final(self)@ == old(self)@.update(index.0 as int, key),
            r is Err ==> final(self)@ == old(self)@,
    {
        let i = index.0 as usize;
        if i >= self.keys.len() {
            return Err(LayoutError::IndexOutOfBounds(i));
        }
        self.keys.set(i, key);
        Ok(())
    }

    /// The key at `index`, if the position exists.
    pub fn get(&self, index: KeyIndex) -> (r: Option<KeyCode>)
        ensures
            r == (if index.0 < self@.len() { Some(self@[index.0 as int]) } else { None }),
    {
        let i = index.0 as usize;
        if i < self.keys.len() {
            Some(self.keys[i])
        } else {
            None
        }
    }

    /// How many of the first `len` positions hold the same key as `reference`,
    /// where `len` is the shorter of the two lengths; returns `(len, matches)`.
    pub fn matches_against(&self, reference: &[KeyCode]) -> (r: (usize, usize))
        ensures
            r.0 == (if self@.len() < reference@.len() { self@.len() } else { reference@.len() }),
            r.1 == matching_positions(self@, reference@, r.0 as int),
            r.1 <= r.0,
    {
        let len = if self.keys.len() < reference.len() { self.keys.len() } else { reference.len() };
        let mut matches: usize = 0;
        let mut i: usize = 0;
        while i < len
            invariant
                len <= self@.len(),
                len <= reference@.len(),
                i <= len,
                matches <= i,
                matches == matching_positions(self@, reference@, i as int),
            decreases len - i,
        {
            if self.keys[i] == reference[i] {
                matches += 1;
            }
            i += 1;
        }
        (len, matches)
    }
}

/// The number of positions below `n` where `a` and `b` hold the same key.
pub open spec fn matching_positions(a: Seq<KeyCode>, b: Seq<KeyCode>, n: int) -> nat
    decreases n,
{
    if n <= 0 {
        0
    } else {
        matching_positions(a, b, n - 1) + (if a[n - 1] == b[n - 1] { 1nat } else { 0nat })
    }
}

/// Swapping the same two positions twice restores the layout.
pub proof fn lemma_swap_twice(keys: Seq<KeyCode>, a: int, b: int)
    requires
        0 <= a < keys.len(),
        0 <= b < keys.len(),
    ensures
        ({
            let once = keys.update(a, keys[b]).update(b, keys[a]);
            once.update(a, once[b]).update(b, once[a]) == keys
        }),
{
    let once = keys.update(a, keys[b]).update(b, keys[a]);
    assert(once.update(a, once[b]).update(b, once[a]) =~= keys);
}

/// After placing a key at a position, reading that position gives the key back, and
/// every other position is unchanged.
pub proof fn lemma_set_then_get(keys: Seq<KeyCode>, i: int, key: KeyCode, j: int)
    requires
        0 <= i < keys.len(),
        0 <= j < keys.len(),
    ensures
        keys.update(i, key)[i] == key,
        j != i ==> keys.update(i, key)[j] == keys[j],
        keys.update(i, key).len() == keys.len(),
{
}

/// Swapping keeps the keys of a layout, only rearranged.
pub proof fn lemma_swap_permutes(keys: Seq<KeyCode>, a: int, b: int)
    requires
        0 <= a < keys.len(),
        0 <= b < keys.len(),
    ensures
        keys.update(a, keys[b]).update(b, keys[a]).to_multiset() == keys.to_multiset(),
{
    broadcast use vstd::seq_lib::group_to_multiset_ensures;
    let s1 = keys.update(a, keys[b]);
    let s2 = s1.update(b, keys[a]);
    assert(s1.to_multiset() == keys.to_multiset().remove(keys[a]).insert(keys[b]));
    assert(s2.to_multiset() == s1.to_multiset().remove(s1[b]).insert(keys[a]));
    if a == b {
        assert(s2 =~= keys);
    } else {
        assert(s1[b] == keys[b]);
    }
    assert(s2.to_multiset() =~= keys.to_multiset());
}

/// No key code occurs twice.
pub open spec fn distinct_keys(keys: Seq<KeyCode>) -> bool {
    forall|i: int, j: int| 0 <= i < j < keys.len() ==> keys[i] != keys[j]
}

/// Whether some key code occurs twice.
fn has_duplicate(keys: &Vec<KeyCode>) -> (r: bool)
    ensures
        r == !distinct_keys(keys@),
{
    let mut j: usize = 0;
    while j < keys.len()
        invariant
            j <= keys@.len(),
            forall|a: int, b: int| 0 <= a < b < j ==> keys@[a] != keys@[b],
        decreases keys.len() - j,
    {
        let mut i: usize = 0;
        while i < j
            invariant
                i <= j < keys@.len(),
                forall|a: int| 0 <= a < i ==> keys@[a] != keys@[j as int],
            decreases j - i,
        {
            if keys[i].0 == keys[j].0 {
                return true;
            }
            i += 1;
        }
        j += 1;
    }
    false
}

impl TryFrom<Vec<KeyCode>> for Layout {
    type Error = LayoutError;

    /// A layout of the given keys, refused when a key code occurs twice.
    fn try_from(keys: Vec<KeyCode>) -> (r: Result<Self, LayoutError>)
        ensures
            distinct_keys(keys@) ==> (r matches Ok(l) && l@ == keys@),
            !distinct_keys(keys@) ==> r == Err::<Layout, LayoutError>(LayoutError::DuplicateKeys),
    {
        if has_duplicate(&keys) {
            Err(LayoutError::DuplicateKeys)
        } else {
            Ok(Layout { keys })
        }
    }
}

impl vstd::std_specs::convert::TryFromSpecImpl<Vec<KeyCode>> for Layout {
    open spec fn obeys_try_from_spec() -> bool {
        false
    }

    open spec fn try_from_spec(keys: Vec<KeyCode>) -> Result<Self, LayoutError> {
        arbitrary()
    }
}

impl TryFrom<RawLayout> for Layout {
    type Error = LayoutError;

    /// Every raw layout is accepted as it is.
    fn try_from(raw: RawLayout) -> (r: Result<Self, LayoutError>)
        ensures
            r matches Ok(l) && l@ == raw.keys@,
    {
        Ok(Layout { keys: raw.keys })
    }
}

impl vstd::std_specs::convert::TryFromSpecImpl<RawLayout> for Layout {
    open spec fn obeys_try_from_spec() -> bool {
        false
    }

    open spec fn try_from_spec(raw: RawLayout) -> Result<Self, LayoutError> {
        arbitrary()
    }
}

impl From<Layout> for RawLayout {
    fn from(layout: Layout) -> (r: Self)
        ensures
            r.keys@ == layout@,
    {
        RawLayout { keys: layout.keys }
    }
}

impl vstd::std_specs::convert::FromSpecImpl<Layout> for RawLayout {
    open spec fn obeys_from_spec() -> bool {
        false
    }

    open spec fn from_spec(layout: Layout) -> Self {
        arbitrary()
    }
}

impl From<Vec<KeyCode>> for RawLayout {
    fn from(keys: Vec<KeyCode>) -> (r: Self)
        ensures
            r.keys == keys,
    {
        RawLayout { keys }
    }
}

impl vstd::std_specs::convert::FromSpecImpl<Vec<KeyCode>> for RawLayout {
    open spec fn obeys_from_spec() -> bool {
        true
    }

    open spec fn from_spec(keys: Vec<KeyCode>) -> Self {
        RawLayout { keys }
    }
}

/// The key codes of a layout string: each character's code point, or 0 when it does
/// not fit in 16 bits.
pub open spec fn codes_of_chars(s: Seq<char>) -> Seq<KeyCode> {
    s.map_values(|c: char| KeyCode(if (c as u32) <= 0xffff { (c as u32) as u16 } else { 0 }))
}

/// The key codes of a layout string.
pub fn to_codes(s: &str) -> (r: Vec<KeyCode>)
    ensures
        r@ == codes_of_chars(s@),
{
    let cs = chars_of(s);
    let mut out: Vec<KeyCode> = Vec::new();
    let mut i: usize = 0;
    while i < cs.len()
        invariant
            i <= cs@.len(),
            cs@ == s@,
            out@ == codes_of_chars(cs@.take(i as int)),
        decreases cs.len() - i,
    {
        let u = cs[i] as u32;
        let code: u16 = if u <= 0xffff { u as u16 } else { 0 };
        out.push(KeyCode(code));
        i += 1;
        assert(out@ =~= codes_of_chars(cs@.take(i as int)));
    }
    assert(cs@.take(cs@.len() as int) =~= cs@);
    out
}

/// The reference layouts, by name, in the order they are compared.
pub fn standard_layouts() -> (r: Vec<(String, Vec<KeyCode>)>)
    ensures
        r@.len() == 3,
        r@[0].0@ == "Qwerty"@ && r@[0].1@ == codes_of_chars(QWERTY@),
        r@[1].0@ == "Colemak"@ && r@[1].1@ == codes_of_chars(COLEMAK@),
        r@[2].0@ == "Dvorak"@ && r@[2].1@ == codes_of_chars(DVORAK@),
{
    let mut v: Vec<(String, Vec<KeyCode>)> = Vec::new();
    v.push((String::from_str("Qwerty"), to_codes(QWERTY)));
    v.push((String::from_str("Colemak"), to_codes(COLEMAK)));
    v.push((String::from_str("Dvorak"), to_codes(DVORAK)));
    v
}

/// The reference layouts as (name, key codes), in the order they are compared.
pub open spec fn standards_spec() -> Seq<(Seq<char>, Seq<KeyCode>)> {
    seq![
        ("Qwerty"@, codes_of_chars(QWERTY@)),
        ("Colemak"@, codes_of_chars(COLEMAK@)),
        ("Dvorak"@, codes_of_chars(DVORAK@)),
    ]
}

/// How many leading positions a layout and a reference are compared on: the shorter
/// of the two lengths.
pub open spec fn compared_len(keys: Seq<KeyCode>, reference: Seq<KeyCode>) -> nat {
    if keys.len() < reference.len() { keys.len() } else { reference.len() }
}

/// The closest of the first `k` references as (position, matches, compared length):
/// references with nothing to compare are skipped, and a later one replaces the best so
/// far only when its share of matching positions is strictly larger.
pub open spec fn best_reference(keys: Seq<KeyCode>, refs: Seq<(Seq<char>, Seq<KeyCode>)>, k: int) -> Option<(int, nat, nat)>
    decreases k,
{
    if k <= 0 {
        None
    } else {
        let prev = best_reference(keys, refs, k - 1);
        let len = compared_len(keys, refs[k - 1].1);
        let m = matching_positions(keys, refs[k - 1].1, len as int);
        if len == 0 {
            prev
        } else {
            match prev {
                None => Some((k - 1, m, len)),
                Some(b) => if m * b.2 > b.1 * len { Some((k - 1, m, len)) } else { prev },
            }
        }
    }
}

/// The similarity `matches / len` as a score, rounded down.
pub open spec fn similarity_score(m: nat, len: nat) -> int {
    ((m * 1_000_000) as int) / (len as int)
}

/// The identity of a layout: the closest reference layout when its share of matching
/// positions is above the threshold, as (name, matches, compared length).
pub open spec fn identify_spec(keys: Seq<KeyCode>) -> Option<(Seq<char>, nat, nat)> {
    match best_reference(keys, standards_spec(), 3) {
        Some(b) => if b.1 * 1_000_000 > IDENTIFY_SIMILARITY_THRESHOLD * b.2 {
            Some((standards_spec()[b.0].0, b.1, b.2))
        } else {
            None
        },
        None => None,
    }
}

/// The similarity of a layout to the closest reference layout.
#[derive(Debug, Clone)]
pub struct LayoutIdentity {
    /// The name of the reference layout (e.g. "Qwerty", "Colemak").
    pub name: String,
    /// The share of compared positions that match, from 0 to 1, as a score.
    pub similarity: Score,
    /// The number of compared positions that differ.
    pub distance: usize,
}

impl LayoutIdentity {
    /// The reference layouts, by name.
    pub fn get_standards() -> (r: Vec<(String, Vec<KeyCode>)>)
        ensures
            r@.len() == 3,
            forall|i: int| 0 <= i < 3 ==> (#[trigger] r@[i]).0@ == standards_spec()[i].0 && r@[i].1@ == standards_spec()[i].1,
    {
        standard_layouts()
    }

    /// Compares a layout with each reference layout on their common positions, and
    /// names the closest one when its similarity is above the threshold.
    pub fn identify(layout: &Layout) -> (r: Option<LayoutIdentity>)
        ensures
            match identify_spec(layout@) {
                Some(t) => r matches Some(id) && id.name@ == t.0
                    && id.similarity@ == similarity_score(t.1, t.2)
                    && id.distance == t.2 - t.1,
                None => r is None,
            },
    {
        let standards = Self::get_standards();
        let mut best: Option<(usize, usize, usize)> = None;
        let mut k: usize = 0;
        while k < standards.len()
            invariant
                standards@.len() == 3,
                forall|i: int| 0 <= i < 3 ==> (#[trigger] standards@[i]).0@ == standards_spec()[i].0 && standards@[i].1@ == standards_spec()[i].1,
                k <= 3,
                match best_reference(layout@, standards_spec(), k as int) {
                    Some(b) => best matches Some(e) && e.0 == b.0 && e.1 == b.1 && e.2 == b.2 && e.0 < k,
                    None => best is None,
                },
            decreases 3 - k,
        {
            let (len, m) = layout.matches_against(standards[k].1.as_slice());
            assert(standards@[k as int].1@ == standards_spec()[k as int].1);
            if len > 0 {
                match best {
                    None => {
                        best = Some((k, m, len));
                    },
                    Some((bi, bm, bl)) => {
                        if wide_mul(m, bl) > wide_mul(bm, len) {
                            best = Some((k, m, len));
                        }
                    },
                }
            }
            k += 1;
        }
        match best {
            None => None,
            Some((bi, bm, bl)) => {
                if (bm as u128) * 1_000_000 > (IDENTIFY_SIMILARITY_THRESHOLD as u128) * (bl as u128) {
                    assert(bm <= bl) by {
                        lemma_best_within(layout@, standards_spec(), 3);
                    }
                    let num: u128 = (bm as u128) * 1_000_000;
                    let sim: u128 = num / (bl as u128);
                    assert(sim <= 1_000_000) by (nonlinear_arith)
                        requires
                            bm <= bl,
                            bl > 0,
                            num == bm * 1_000_000,
                            sim == num / (bl as u128),
                    ;
                    Some(LayoutIdentity {
                        name: standards[bi].0.clone(),
                        similarity: Score::from_scaled_i64(sim as i64),
                        distance: bl - bm,
                    })
                } else {
                    None
                }
            },
        }
    }
}

/// The product of two sizes, computed without overflow.
fn wide_mul(a: usize, b: usize) -> (r: u128)
    ensures
        r == a * b,
{
    assert((a as u128) * (b as u128) <= 0xffff_ffff_ffff_ffff_u128 * 0xffff_ffff_ffff_ffff_u128) by (nonlinear_arith)
        requires
            a <= 0xffff_ffff_ffff_ffff_u128,
            b <= 0xffff_ffff_ffff_ffff_u128,
    ;
    (a as u128) * (b as u128)
}

/// The best reference found has a positive compared length and no more matches than it.
pub proof fn lemma_best_within(keys: Seq<KeyCode>, refs: Seq<(Seq<char>, Seq<KeyCode>)>, k: int)
    ensures
        best_reference(keys, refs, k) matches Some(b) ==> 0 < b.2 && b.1 <= b.2 && 0 <= b.0 < k,
    decreases k,
{
    if k > 0 {
        lemma_best_within(keys, refs, k - 1);
        let len = compared_len(keys, refs[k - 1].1);
        lemma_matching_bound(keys, refs[k - 1].1, len as int);
    }
}

/// An identified layout was compared on at least one position, matched on no more
/// positions than it was compared on, and so has a similarity between 0 and 1.
pub proof fn lemma_identity_bounds(keys: Seq<KeyCode>)
    ensures
        identify_spec(keys) matches Some(t) ==> 0 < t.2 && t.1 <= t.2
            && 0 <= similarity_score(t.1, t.2) <= 1_000_000,
{
    lemma_best_within(keys, standards_spec(), 3);
    if let Some(t) = identify_spec(keys) {
        let m = t.1;
        let n = t.2;
        assert(0 <= ((m * 1_000_000) as int) / (n as int) <= 1_000_000) by (nonlinear_arith)
            requires
                0 < n,
                m <= n,
        ;
    }
}

/// At most `n` of the first `n` positions match.
pub proof fn lemma_matching_bound(a: Seq<KeyCode>, b: Seq<KeyCode>, n: int)
    ensures
        n >= 0 ==> matching_positions(a, b, n) <= n,
    decreases n,
{
    if n > 0 {
        lemma_matching_bound(a, b, n - 1);
    }
}

impl Layout {
    /// The closest reference layout, when the layout is similar enough to one.
    pub fn identify(&self) -> (r: Option<LayoutIdentity>)
        ensures
            match identify_spec(self@) {
                Some(t) => r matches Some(id) && id.name@ == t.0
                    && id.similarity@ == similarity_score(t.1, t.2)
                    && id.distance == t.2 - t.1,
                None => r is None,
            },
    {
        LayoutIdentity::identify(self)
    }
}

/// The QWERTY main block, row by row.
pub const QWERTY: &'static str = "qwertyuiopasdfghjkl;zxcvbnm,./";

/// The Colemak main block, row by row.
pub const COLEMAK: &'static str = "qwfpgjluy;arstdhneiozxcvbkm,./";

/// The Dvorak main block, row by row.
pub const DVORAK: &'static str = "',.pyfgcrlaoeuidhtns;qjkxbmwvz";

} // verus!
