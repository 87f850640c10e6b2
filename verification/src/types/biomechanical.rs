//! Biomechanical types: hands, fingers, movements between keys and
//! three-key flows.

use vstd::prelude::*;
use vstd::string::*;
use crate::geometry::KeyNode;
use crate::types::{Point, RowIndex};

verus! {

/// The physical hand used for typing.
#[derive(Debug, Clone, Copy, PartialEq, Eq, Structural, Hash)]
pub enum Hand {
    /// The left hand.
    Left,
    /// The right hand.
    Right,
}

impl Hand {
    /// Index of the hand (Left=0, Right=1).
    pub open spec fn spec_index(self) -> usize {
        match self {
            Hand::Left => 0,
            Hand::Right => 1,
        }
    }

    /// Returns the index of the hand (Left=0, Right=1).
    #[verifier::when_used_as_spec(spec_index)]
    pub fn index(self) -> (r: usize)
        ensures
            r == self.spec_index(),
    {
        match self {
            Hand::Left => 0,
            Hand::Right => 1,
        }
    }
}

impl Default for Hand {
    fn default() -> (r: Self)
        ensures
            r == Hand::Left,
    {
        Hand::Left
    }
}

/// The finger used for typing.
#[derive(Debug, Clone, Copy, PartialEq, Eq, Structural, Hash)]
pub enum Finger {
    /// The thumb.
    Thumb,
    /// The index finger.
    Index,
    /// The middle finger.
    Middle,
    /// The ring finger.
    Ring,
    /// The pinky finger.
    Pinky,
}

/// Absolute difference of two naturals.
pub open spec fn abs_diff(a: int, b: int) -> int {
    if a >= b { a - b } else { b - a }
}

impl Finger {
    /// Index of the finger (Thumb=0 to Pinky=4).
    pub open spec fn spec_index(self) -> usize {
        match self {
            Finger::Thumb => 0,
            Finger::Index => 1,
            Finger::Middle => 2,
            Finger::Ring => 3,
            Finger::Pinky => 4,
        }
    }

    /// Returns the index of the finger (Thumb=0 to Pinky=4).
    #[verifier::when_used_as_spec(spec_index)]
    pub fn index(self) -> (r: usize)
        ensures
            r == self.spec_index(),
    {
        match self {
            Finger::Thumb => 0,
            Finger::Index => 1,
            Finger::Middle => 2,
            Finger::Ring => 3,
            Finger::Pinky => 4,
        }
    }

    /// Whether this is a "weak" finger (Ring or Pinky).
    pub open spec fn spec_is_weak(self) -> bool {
        self == Finger::Ring || self == Finger::Pinky
    }

    /// Returns true if this is considered a "weak" finger (Ring or Pinky).
    #[verifier::when_used_as_spec(spec_is_weak)]
    pub fn is_weak(self) -> (r: bool)
        ensures
            r == self.spec_is_weak(),
    {
        match self {
            Finger::Ring | Finger::Pinky => true,
            _ => false,
        }
    }

    /// Absolute distance between two fingers' indices.
    pub open spec fn spec_distance(self, other: Self) -> u8 {
        abs_diff(self.spec_index() as int, other.spec_index() as int) as u8
    }

    /// Calculates the absolute distance between two fingers.
    #[verifier::when_used_as_spec(spec_distance)]
    pub fn distance(self, other: Self) -> (r: u8)
        ensures
            r == self.spec_distance(other),
    {
        let a = self.index() as u8;
        let b = other.index() as u8;
        if a >= b { a - b } else { b - a }
    }
}

impl Default for Finger {
    fn default() -> (r: Self)
        ensures
            r == Finger::Index,
    {
        Finger::Index
    }
}

/// Identifier for a hand (Left=0, Right=1).
#[derive(Debug, Clone, Copy, PartialEq, Eq, Structural, Hash)]
pub struct HandIndex(u8);

impl View for HandIndex {
    type V = u8;

    closed spec fn view(&self) -> u8 {
        self.0
    }
}

impl HandIndex {
    /// Left hand index (0).
    pub fn left() -> (r: Self)
        ensures
            r@ == 0,
    {
        HandIndex(0)
    }

    /// Right hand index (1).
    pub fn right() -> (r: Self)
        ensures
            r@ == 1,
    {
        HandIndex(1)
    }

    /// Creates a new `HandIndex`.
    pub fn new(val: u8) -> (r: Self)
        ensures
            r@ == val,
    {
        HandIndex(val)
    }

    /// Returns the raw `u8` value.
    pub fn raw(&self) -> (r: u8)
        ensures
            r == self@,
    {
        self.0
    }

    /// Returns the raw `u8` value.
    pub fn as_u8(&self) -> (r: u8)
        ensures
            r == self@,
    {
        self.0
    }

    /// Returns the value as `usize`.
    pub fn as_usize(&self) -> (r: usize)
        ensures
            r == self@,
    {
        self.0 as usize
    }

    /// Returns true if this is the left hand.
    pub fn is_left(&self) -> (r: bool)
        ensures
            r == (self@ == 0),
    {
        self.0 == 0
    }

    /// Returns true if this is the right hand.
    pub fn is_right(&self) -> (r: bool)
        ensures
            r == (self@ == 1),
    {
        self.0 == 1
    }

    /// Validated construction: `Some` exactly for 0 and 1.
    pub fn checked(value: u8) -> (r: Option<Self>)
        ensures
            r is Some <==> value <= 1,
            r matches Some(h) ==> h@ == value,
    {
        if value > 1 {
            None
        } else {
            Some(HandIndex(value))
        }
    }
}

impl Default for HandIndex {
    fn default() -> (r: Self)
        ensures
            r@ == 0,
    {
        HandIndex(0)
    }
}

impl TryFrom<u8> for HandIndex {
    type Error = String;

    /// Accepts 0 and 1; other values are reported as `Invalid HandIndex: <value>`.
    fn try_from(value: u8) -> (r: Result<Self, String>)
        ensures
            r is Ok <==> value <= 1,
            r matches Ok(h) ==> h@ == value,
            r matches Err(e) ==> e@ == seq!['I', 'n', 'v', 'a', 'l', 'i', 'd', ' ', 'H', 'a', 'n', 'd', 'I', 'n', 'd', 'e', 'x', ':', ' ']
                + crate::text::decimal(value as int),
    {
        if value > 1 {
            let prefix = ['I', 'n', 'v', 'a', 'l', 'i', 'd', ' ', 'H', 'a', 'n', 'd', 'I', 'n', 'd', 'e', 'x', ':', ' '];
            let digits = crate::text::u64_decimal_chars(value as u64);
            let msg = crate::text::concat_chars(&prefix, digits.as_slice());
            Err(crate::text::string_from_chars(msg.as_slice()))
        } else {
            Ok(HandIndex(value))
        }
    }
}

impl vstd::std_specs::convert::TryFromSpecImpl<u8> for HandIndex {
    open spec fn obeys_try_from_spec() -> bool {
        false
    }

    open spec fn try_from_spec(v: u8) -> Result<Self, String> {
        arbitrary()
    }
}

/// Identifier for a finger (Thumb=0 to Pinky=4).
#[derive(Debug, Clone, Copy, PartialEq, Eq, Structural, Hash)]
pub struct FingerIndex(u8);

impl View for FingerIndex {
    type V = u8;

    closed spec fn view(&self) -> u8 {
        self.0
    }
}

impl FingerIndex {
    /// Thumb index (0).
    pub fn thumb() -> (r: Self)
        ensures
            r@ == 0,
    {
        FingerIndex(0)
    }

    /// Index finger index (1).
    pub fn index_finger() -> (r: Self)
        ensures
            r@ == 1,
    {
        FingerIndex(1)
    }

    /// Middle finger index (2).
    pub fn middle() -> (r: Self)
        ensures
            r@ == 2,
    {
        FingerIndex(2)
    }

    /// Ring finger index (3).
    pub fn ring() -> (r: Self)
        ensures
            r@ == 3,
    {
        FingerIndex(3)
    }

    /// Pinky finger index (4).
    pub fn pinky() -> (r: Self)
        ensures
            r@ == 4,
    {
        FingerIndex(4)
    }

    /// Creates a new `FingerIndex`.
    pub fn new(val: u8) -> (r: Self)
        ensures
            r@ == val,
    {
        FingerIndex(val)
    }

    /// Creates a new `FingerIndex` without checking the domain (values above 4
    /// violate the domain invariant).
    pub fn new_unchecked(val: u8) -> (r: Self)
        ensures
            r@ == val,
    {
        FingerIndex(val)
    }

    /// Returns the raw `u8` value.
    pub fn raw(&self) -> (r: u8)
        ensures
            r == self@,
    {
        self.0
    }

    /// Returns the raw `u8` value.
    pub fn as_u8(&self) -> (r: u8)
        ensures
            r == self@,
    {
        self.0
    }

    /// Returns the value as `usize`.
    pub fn as_usize(&self) -> (r: usize)
        ensures
            r == self@,
    {
        self.0 as usize
    }

    /// Calculates the absolute distance between two fingers.
    pub fn distance(&self, other: Self) -> (r: u8)
        ensures
            r == abs_diff(self@ as int, other@ as int),
    {
        if self.0 >= other.0 {
            self.0 - other.0
        } else {
            other.0 - self.0
        }
    }

    /// Calculates the signed difference between two fingers.
    pub fn diff(&self, other: Self) -> (r: i16)
        ensures
            r == self@ - other@,
    {
        self.0 as i16 - other.0 as i16
    }

    /// Returns true if this is considered a "weak" finger (Ring or Pinky).
    pub fn is_weak(&self) -> (r: bool)
        ensures
            r == (self@ == 3 || self@ == 4),
    {
        self.0 == 3 || self.0 == 4
    }

    /// Validated construction: `Some` exactly for 0 through 4.
    pub fn checked(value: u8) -> (r: Option<Self>)
        ensures
            r is Some <==> value <= 4,
            r matches Some(f) ==> f@ == value,
    {
        if value > 4 {
            None
        } else {
            Some(FingerIndex(value))
        }
    }
}

impl Default for FingerIndex {
    /// The index finger.
    fn default() -> (r: Self)
        ensures
            r@ == 1,
    {
        FingerIndex(1)
    }
}

impl TryFrom<u8> for FingerIndex {
    type Error = String;

    /// Accepts 0 through 4; other values are reported as `Invalid FingerIndex: <value>`.
    fn try_from(value: u8) -> (r: Result<Self, String>)
        ensures
            r is Ok <==> value <= 4,
            r matches Ok(f) ==> f@ == value,
            r matches Err(e) ==> e@ == seq!['I', 'n', 'v', 'a', 'l', 'i', 'd', ' ', 'F', 'i', 'n', 'g', 'e', 'r', 'I', 'n', 'd', 'e', 'x', ':', ' ']
                + crate::text::decimal(value as int),
    {
        if value > 4 {
            let prefix = ['I', 'n', 'v', 'a', 'l', 'i', 'd', ' ', 'F', 'i', 'n', 'g', 'e', 'r', 'I', 'n', 'd', 'e', 'x', ':', ' '];
            let digits = crate::text::u64_decimal_chars(value as u64);
            let msg = crate::text::concat_chars(&prefix, digits.as_slice());
            Err(crate::text::string_from_chars(msg.as_slice()))
        } else {
            Ok(FingerIndex(value))
        }
    }
}

impl vstd::std_specs::convert::TryFromSpecImpl<u8> for FingerIndex {
    open spec fn obeys_try_from_spec() -> bool {
        false
    }

    open spec fn try_from_spec(v: u8) -> Result<Self, String> {
        arbitrary()
    }
}

/// The hand that a hand index designates: 0 is the left hand, anything else the right.
pub open spec fn hand_of(idx: HandIndex) -> Hand {
    if idx@ == 0 { Hand::Left } else { Hand::Right }
}

/// The finger that a finger index designates; out-of-domain values map to the index finger.
pub open spec fn finger_of(idx: FingerIndex) -> Finger {
    if idx@ == 0 {
        Finger::Thumb
    } else if idx@ == 2 {
        Finger::Middle
    } else if idx@ == 3 {
        Finger::Ring
    } else if idx@ == 4 {
        Finger::Pinky
    } else {
        Finger::Index
    }
}

impl From<HandIndex> for Hand {
    fn from(idx: HandIndex) -> (r: Hand)
        ensures
            r == hand_of(idx),
    {
        if idx.is_left() {
            Hand::Left
        } else {
            Hand::Right
        }
    }
}

impl vstd::std_specs::convert::FromSpecImpl<HandIndex> for Hand {
    open spec fn obeys_from_spec() -> bool {
        true
    }

    open spec fn from_spec(idx: HandIndex) -> Hand {
        hand_of(idx)
    }
}

impl From<Hand> for HandIndex {
    fn from(hand: Hand) -> (r: HandIndex)
        ensures
            r@ == hand.spec_index(),
    {
        HandIndex(hand.index() as u8)
    }
}

impl vstd::std_specs::convert::FromSpecImpl<Hand> for HandIndex {
    open spec fn obeys_from_spec() -> bool {
        true
    }

    closed spec fn from_spec(hand: Hand) -> HandIndex {
        HandIndex(hand.spec_index() as u8)
    }
}

impl From<FingerIndex> for Finger {
    fn from(idx: FingerIndex) -> (r: Finger)
        ensures
            r == finger_of(idx),
    {
        match idx.raw() {
            0 => Finger::Thumb,
            2 => Finger::Middle,
            3 => Finger::Ring,
            4 => Finger::Pinky,
            _ => Finger::Index,
        }
    }
}

impl vstd::std_specs::convert::FromSpecImpl<FingerIndex> for Finger {
    open spec fn obeys_from_spec() -> bool {
        true
    }

    open spec fn from_spec(idx: FingerIndex) -> Finger {
        finger_of(idx)
    }
}

impl From<Finger> for FingerIndex {
    fn from(finger: Finger) -> (r: FingerIndex)
        ensures
            r@ == finger.spec_index(),
    {
        FingerIndex(finger.index() as u8)
    }
}

impl vstd::std_specs::convert::FromSpecImpl<Finger> for FingerIndex {
    open spec fn obeys_from_spec() -> bool {
        true
    }

    closed spec fn from_spec(finger: Finger) -> FingerIndex {
        FingerIndex(finger.spec_index() as u8)
    }
}

/// A physical zone on the keyboard relative to a finger's home position.
#[derive(Debug, Clone, Copy, PartialEq, Eq, Structural, Hash)]
pub enum Zone {
    /// The home column for the finger.
    Base,
    /// A column closer to the center of the keyboard.
    InnerReach,
    /// A column closer to the edge of the keyboard.
    OuterReach,
}

/// The direction of movement across the keyboard.
#[derive(Debug, Clone, Copy, PartialEq, Eq, Structural, Hash)]
pub enum Direction {
    /// Movement towards the center (Pinky -> Thumb).
    Inward,
    /// Movement towards the edge (Thumb -> Pinky).
    Outward,
    /// No horizontal movement (same finger or column).
    Neutral,
}

/// Preference for which hand should handle Space keys.
#[derive(Debug, Clone, Copy, PartialEq, Eq, Structural, Hash)]
pub enum SpaceHandPreference {
    /// Only use left hand for space.
    Left,
    /// Only use right hand for space.
    Right,
    /// Use both hands (load balanced).
    Bilateral,
}

impl Default for SpaceHandPreference {
    fn default() -> (r: Self)
        ensures
            r == SpaceHandPreference::Bilateral,
    {
        SpaceHandPreference::Bilateral
    }
}

/// Represents a rich biomechanical movement between two keys.
#[derive(Debug, Clone, Copy, PartialEq, Eq, Structural)]
pub struct Movement {
    /// Horizontal offset in spatial units.
    pub dx: i32,
    /// Vertical offset in spatial units.
    pub dy: i32,
    /// Hand for the first key.
    pub h1: Hand,
    /// Hand for the second key.
    pub h2: Hand,
    /// Finger for the first key.
    pub f1: Finger,
    /// Finger for the second key.
    pub f2: Finger,
    /// Row for the first key.
    pub r1: RowIndex,
    /// Row for the second key.
    pub r2: RowIndex,
}

/// Whether the offset between two keys fits the `i32` offsets of a `Movement`.
pub open spec fn keys_offset_fits(k1: KeyNode, k2: KeyNode) -> bool {
    &&& i32::MIN <= k2.x@ - k1.x@ <= i32::MAX
    &&& i32::MIN <= k2.y@ - k1.y@ <= i32::MAX
}

/// The movement from key `k1` to key `k2`.
pub open spec fn movement_between(k1: KeyNode, k2: KeyNode) -> Movement {
    Movement {
        dx: (k2.x@ - k1.x@) as i32,
        dy: (k2.y@ - k1.y@) as i32,
        h1: hand_of(k1.hand),
        h2: hand_of(k2.hand),
        f1: finger_of(k1.finger),
        f2: finger_of(k2.finger),
        r1: k1.row,
        r2: k2.row,
    }
}

/// Sign of an integer: -1, 0 or 1.
pub open spec fn signum(v: int) -> int {
    if v > 0 { 1 } else if v < 0 { -1 } else { 0 }
}

impl Movement {
    /// The movement is a same-finger bigram: same hand, same finger.
    pub open spec fn spec_is_sfb(self) -> bool {
        self.h1 == self.h2 && self.f1 == self.f2
    }

    /// Both keys are typed by the same hand.
    pub open spec fn spec_is_same_hand(self) -> bool {
        self.h1 == self.h2
    }

    /// Scissor: same hand, adjacent non-thumb fingers, row jump of at least `threshold`.
    pub open spec fn spec_is_scissor(self, threshold: i8) -> bool {
        &&& self.h1 == self.h2
        &&& self.f1 != self.f2
        &&& self.f1.spec_distance(self.f2) == 1
        &&& self.f1 != Finger::Thumb
        &&& self.f2 != Finger::Thumb
        &&& abs_diff(self.r1@ as int, self.r2@ as int) >= threshold
    }

    /// Squared Euclidean length of the movement.
    pub open spec fn spec_dist_sq(self) -> int {
        self.dx * self.dx + self.dy * self.dy
    }

    /// Creates a `Movement` from offsets and biomechanical context.
    pub fn new(
        dx: i32,
        dy: i32,
        h1: Hand,
        h2: Hand,
        f1: Finger,
        f2: Finger,
        r1: RowIndex,
        r2: RowIndex,
    ) -> (r: Self)
        ensures
            r == (Movement { dx, dy, h1, h2, f1, f2, r1, r2 }),
    {
        Movement { dx, dy, h1, h2, f1, f2, r1, r2 }
    }

    /// Creates a `Movement` from two points (purely geometric; the biomechanical
    /// context takes its default values).
    pub fn from_points(start: Point, end: Point) -> (r: Self)
        requires
            i32::MIN <= end.x@ - start.x@ <= i32::MAX,
            i32::MIN <= end.y@ - start.y@ <= i32::MAX,
        ensures
            r.dx == end.x@ - start.x@,
            r.dy == end.y@ - start.y@,
            r.h1 == Hand::Left,
            r.h2 == Hand::Left,
            r.f1 == Finger::Index,
            r.f2 == Finger::Index,
            r.r1@ == 0,
            r.r2@ == 0,
    {
        Movement {
            dx: end.x.raw() - start.x.raw(),
            dy: end.y.raw() - start.y.raw(),
            h1: Hand::Left,
            h2: Hand::Left,
            f1: Finger::Index,
            f2: Finger::Index,
            r1: RowIndex::new(0),
            r2: RowIndex::new(0),
        }
    }

    /// Creates the `Movement` from key `k1` to key `k2`.
    pub fn from_keys(k1: &KeyNode, k2: &KeyNode) -> (r: Self)
        requires
            keys_offset_fits(*k1, *k2),
        ensures
            r == movement_between(*k1, *k2),
    {
        Movement {
            dx: k2.x.raw() - k1.x.raw(),
            dy: k2.y.raw() - k1.y.raw(),
            h1: Hand::from(k1.hand),
            h2: Hand::from(k2.hand),
            f1: Finger::from(k1.finger),
            f2: Finger::from(k2.finger),
            r1: k1.row,
            r2: k2.row,
        }
    }

    /// Calculates the squared Euclidean distance.
    pub fn dist_sq(&self) -> (r: i64)
        requires
            self.spec_dist_sq() <= i64::MAX,
        ensures
            r == self.spec_dist_sq(),
    {
        let dx = self.dx as i64;
        let dy = self.dy as i64;
        proof {
            crate::types::math::lemma_square_sum_nonneg(dx as int, dy as int);
        }
        dx * dx + dy * dy
    }

    /// Calculates the Manhattan distance.
    pub fn manhattan(&self) -> (r: i32)
        requires
            abs_diff(self.dx as int, 0) + abs_diff(self.dy as int, 0) <= i32::MAX,
        ensures
            r == abs_diff(self.dx as int, 0) + abs_diff(self.dy as int, 0),
    {
        let ax: i32 = if self.dx < 0 { -self.dx } else { self.dx };
        let ay: i32 = if self.dy < 0 { -self.dy } else { self.dy };
        ax + ay
    }

    /// Returns true if the movement is purely vertical.
    pub fn is_vertical(&self) -> (r: bool)
        ensures
            r == (self.dx == 0 && self.dy != 0),
    {
        self.dx == 0 && self.dy != 0
    }

    /// Returns true if the movement is purely horizontal.
    pub fn is_horizontal(&self) -> (r: bool)
        ensures
            r == (self.dy == 0 && self.dx != 0),
    {
        self.dy == 0 && self.dx != 0
    }

    /// Returns true if the movement is a "scissor" (uncomfortable row jump between
    /// adjacent fingers of one hand).
    pub fn is_scissor(&self, threshold: i8) -> (r: bool)
        ensures
            r == self.spec_is_scissor(threshold),
    {
        if self.h1 != self.h2 || self.f1 == self.f2 {
            return false;
        }
        let f_dist = self.f1.distance(self.f2);
        if f_dist != 1 || self.f1 == Finger::Thumb || self.f2 == Finger::Thumb {
            return false;
        }
        let d: i32 = self.r1.raw() as i32 - self.r2.raw() as i32;
        let row_diff: i32 = if d < 0 { -d } else { d };
        row_diff >= threshold as i32
    }

    /// Returns true if the movement is a Same-Finger Bigram (SFB).
    pub fn is_sfb(&self) -> (r: bool)
        ensures
            r == self.spec_is_sfb(),
    {
        self.h1 == self.h2 && self.f1 == self.f2
    }

    /// Returns true if both keys are on the same hand.
    pub fn is_same_hand(&self) -> (r: bool)
        ensures
            r == self.spec_is_same_hand(),
    {
        self.h1 == self.h2
    }
}

impl Default for Movement {
    fn default() -> (r: Self)
        ensures
            r.dx == 0,
            r.dy == 0,
            r.h1 == Hand::Left,
            r.h2 == Hand::Left,
            r.f1 == Finger::Index,
            r.f2 == Finger::Index,
            r.r1@ == 0,
            r.r2@ == 0,
    {
        Movement {
            dx: 0,
            dy: 0,
            h1: Hand::Left,
            h2: Hand::Left,
            f1: Finger::Index,
            f2: Finger::Index,
            r1: RowIndex::new(0),
            r2: RowIndex::new(0),
        }
    }
}

/// Analyzes a sequence of three keys for biomechanical flow.
#[derive(Debug, Clone, Copy, PartialEq, Eq, Structural)]
pub struct TrigramFlow {
    /// Movement from the first to second key.
    pub m1: Movement,
    /// Movement from the second to third key.
    pub m2: Movement,
}

impl TrigramFlow {
    /// All three keys are on one hand and the two movements are contiguous.
    pub open spec fn spec_one_hand(self) -> bool {
        &&& self.m1.spec_is_same_hand()
        &&& self.m1.h2 == self.m2.h1
        &&& self.m2.spec_is_same_hand()
    }

    /// Redirect: a one-hand flow that returns to its first finger through another
    /// finger, or reverses direction on either axis.
    pub open spec fn spec_is_redirect(self) -> bool {
        &&& self.spec_one_hand()
        &&& {
            ||| (self.m1.f1 == self.m2.f2 && self.m1.f1 != self.m1.f2)
            ||| (signum(self.m1.dx as int) != signum(self.m2.dx as int) && self.m1.dx != 0 && self.m2.dx != 0)
            ||| (signum(self.m1.dy as int) != signum(self.m2.dy as int) && self.m1.dy != 0 && self.m2.dy != 0)
        }
    }

    /// Finger-index step of a movement (second finger minus first).
    pub open spec fn finger_step(m: Movement) -> int {
        m.f2.spec_index() - m.f1.spec_index()
    }

    /// Inward roll: one hand, both steps towards the thumb.
    pub open spec fn spec_is_roll_in(self) -> bool {
        &&& self.spec_one_hand()
        &&& Self::finger_step(self.m1) < 0
        &&& Self::finger_step(self.m2) < 0
    }

    /// Outward roll: one hand, both steps towards the pinky.
    pub open spec fn spec_is_roll_out(self) -> bool {
        &&& self.spec_one_hand()
        &&& Self::finger_step(self.m1) > 0
        &&& Self::finger_step(self.m2) > 0
    }

    /// Creates a `TrigramFlow` from three keys.
    pub fn from_keys(k1: &KeyNode, k2: &KeyNode, k3: &KeyNode) -> (r: Self)
        requires
            keys_offset_fits(*k1, *k2),
            keys_offset_fits(*k2, *k3),
        ensures
            r.m1 == movement_between(*k1, *k2),
            r.m2 == movement_between(*k2, *k3),
    {
        TrigramFlow { m1: Movement::from_keys(k1, k2), m2: Movement::from_keys(k2, k3) }
    }

    /// Returns true if the sequence represents a redirect (direction change).
    pub fn is_redirect(&self) -> (r: bool)
        ensures
            r == self.spec_is_redirect(),
    {
        if !self.m1.is_same_hand() || self.m1.h2 != self.m2.h1 || !self.m2.is_same_hand() {
            return false;
        }
        if self.m1.f1 == self.m2.f2 && self.m1.f1 != self.m1.f2 {
            return true;
        }
        let dx_redirect = signum_i32(self.m1.dx) != signum_i32(self.m2.dx) && self.m1.dx != 0
            && self.m2.dx != 0;
        let dy_redirect = signum_i32(self.m1.dy) != signum_i32(self.m2.dy) && self.m1.dy != 0
            && self.m2.dy != 0;
        dx_redirect || dy_redirect
    }

    /// Returns true if the sequence is an inward roll (Outer -> Inner).
    pub fn is_roll_in(&self) -> (r: bool)
        ensures
            r == self.spec_is_roll_in(),
    {
        if !self.m1.is_same_hand() || self.m1.h2 != self.m2.h1 || !self.m2.is_same_hand() {
            return false;
        }
        let dir1: i16 = self.m1.f2.index() as i16 - self.m1.f1.index() as i16;
        let dir2: i16 = self.m2.f2.index() as i16 - self.m2.f1.index() as i16;
        if dir1 == 0 || dir2 == 0 {
            return false;
        }
        dir1 < 0 && dir2 < 0
    }

    /// Returns true if the sequence is an outward roll (Inner -> Outer).
    pub fn is_roll_out(&self) -> (r: bool)
        ensures
            r == self.spec_is_roll_out(),
    {
        if !self.m1.is_same_hand() || self.m1.h2 != self.m2.h1 || !self.m2.is_same_hand() {
            return false;
        }
        let dir1: i16 = self.m1.f2.index() as i16 - self.m1.f1.index() as i16;
        let dir2: i16 = self.m2.f2.index() as i16 - self.m2.f1.index() as i16;
        if dir1 == 0 || dir2 == 0 {
            return false;
        }
        dir1 > 0 && dir2 > 0
    }
}

impl Default for TrigramFlow {
    fn default() -> (r: Self)
        ensures
            r.m1.dx == 0 && r.m1.dy == 0 && r.m2.dx == 0 && r.m2.dy == 0,
    {
        TrigramFlow { m1: Movement::default(), m2: Movement::default() }
    }
}

fn signum_i32(v: i32) -> (r: i32)
    ensures
        r == signum(v as int),
{
    if v > 0 {
        1
    } else if v < 0 {
        -1
    } else {
        0
    }
}

impl crate::validator::Validator for Movement {
    /// Every movement is valid: its hands and fingers are enums and its offsets any `i32`.
    fn validate(&self) -> (r: Result<(), String>)
        ensures
            r is Ok,
    {
        Ok(())
    }
}

impl crate::validator::Validator for TrigramFlow {
    /// The two movements must join up: the second starts on the hand the first ends on.
    fn validate(&self) -> (r: Result<(), String>)
        ensures
            r is Ok <==> self.m1.h2 == self.m2.h1,
            r matches Err(m) ==> m@ == "TrigramFlow movements must be contiguous (h1.end != h2.start)"@,
    {
        if self.m1.h2 != self.m2.h1 {
            return Err(String::from_str("TrigramFlow movements must be contiguous (h1.end != h2.start)"));
        }
        Ok(())
    }
}

/// A same-finger bigram is typed by one hand.
pub proof fn lemma_sfb_is_same_hand(m: Movement)
    ensures
        m.spec_is_sfb() ==> m.spec_is_same_hand(),
{
}

/// A scissor is never a same-finger bigram.
pub proof fn lemma_scissor_not_sfb(m: Movement, threshold: i8)
    ensures
        m.spec_is_scissor(threshold) ==> !m.spec_is_sfb(),
{
}

/// A scissor at one row threshold is a scissor at every lower threshold.
pub proof fn lemma_scissor_threshold_monotone(m: Movement, high: i8, low: i8)
    requires
        low <= high,
    ensures
        m.spec_is_scissor(high) ==> m.spec_is_scissor(low),
{
}

/// No trigram is both an inward and an outward roll.
pub proof fn lemma_rolls_exclusive(f: TrigramFlow)
    ensures
        !(f.spec_is_roll_in() && f.spec_is_roll_out()),
{
}

/// The movement back from `k2` to `k1` has the opposite offsets, the same length, and
/// its ends swapped; it is a same-finger bigram exactly when the forward one is.
pub proof fn lemma_movement_reverse(k1: KeyNode, k2: KeyNode)
    requires
        keys_offset_fits(k1, k2),
        keys_offset_fits(k2, k1),
    ensures
        movement_between(k2, k1).dx == -movement_between(k1, k2).dx,
        movement_between(k2, k1).dy == -movement_between(k1, k2).dy,
        movement_between(k2, k1).h1 == movement_between(k1, k2).h2,
        movement_between(k2, k1).f1 == movement_between(k1, k2).f2,
        movement_between(k2, k1).r1 == movement_between(k1, k2).r2,
        movement_between(k2, k1).spec_dist_sq() == movement_between(k1, k2).spec_dist_sq(),
        movement_between(k2, k1).spec_is_sfb() == movement_between(k1, k2).spec_is_sfb(),
{
    let a = movement_between(k1, k2);
    let b = movement_between(k2, k1);
    assert(b.dx * b.dx == a.dx * a.dx) by (nonlinear_arith)
        requires
            b.dx == -a.dx,
    ;
    assert(b.dy * b.dy == a.dy * a.dy) by (nonlinear_arith)
        requires
            b.dy == -a.dy,
    ;
}

/// A movement from a key to itself has no offset and is a same-finger bigram.
pub proof fn lemma_movement_to_self(k: KeyNode)
    ensures
        movement_between(k, k).dx == 0,
        movement_between(k, k).dy == 0,
        movement_between(k, k).spec_is_sfb(),
{
}

/// A trigram is a redirect exactly when all three keys are on one hand and either the
/// third key returns to the first key's finger through another finger, or the
/// movement reverses its direction on an axis: a positive offset followed by a
/// negative one, or a negative one followed by a positive one.
pub proof fn lemma_redirect_iff(f: TrigramFlow)
    ensures
        f.spec_is_redirect() <==> {
            &&& f.m1.h1 == f.m1.h2
            &&& f.m1.h2 == f.m2.h1
            &&& f.m2.h1 == f.m2.h2
            &&& {
                ||| (f.m1.f1 == f.m2.f2 && f.m1.f1 != f.m1.f2)
                ||| (f.m1.dx > 0 && f.m2.dx < 0)
                ||| (f.m1.dx < 0 && f.m2.dx > 0)
                ||| (f.m1.dy > 0 && f.m2.dy < 0)
                ||| (f.m1.dy < 0 && f.m2.dy > 0)
            }
        },
{
}

/// On one hand, reversing the horizontal direction makes a redirect, whatever the
/// fingers and the vertical offsets.
pub proof fn lemma_horizontal_reversal_is_redirect(f: TrigramFlow)
    requires
        f.m1.h1 == f.m1.h2,
        f.m1.h2 == f.m2.h1,
        f.m2.h1 == f.m2.h2,
        (f.m1.dx > 0 && f.m2.dx < 0) || (f.m1.dx < 0 && f.m2.dx > 0),
    ensures
        f.spec_is_redirect(),
{
    lemma_redirect_iff(f);
}

} // verus!
