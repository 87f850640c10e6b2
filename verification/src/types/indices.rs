//! Key identifiers: physical positions and logical codes.

use vstd::prelude::*;

verus! {

/// Unique identifier for a physical key position on the keyboard.
#[derive(Debug, Clone, Copy, PartialEq, Eq, Structural, Hash, PartialOrd, Ord)]
pub struct KeyIndex(pub u16);

impl KeyIndex {
    /// Sentinel value for "not found" or "uninitialized" (65535).
    pub fn sentinel() -> (r: Self)
        ensures
            r.0 == 65535,
    {
        KeyIndex(65535)
    }

    /// Creates a new `KeyIndex`.
    pub fn new(val: u16) -> (r: Self)
        ensures
            r.0 == val,
    {
        KeyIndex(val)
    }

    /// Returns the raw `u16` value.
    pub fn raw(self) -> (r: u16)
        ensures
            r == self.0,
    {
        self.0
    }

    /// Returns the value as `usize`.
    pub fn as_usize(self) -> (r: usize)
        ensures
            r == self.0,
    {
        self.0 as usize
    }

    /// Decimal rendering of the index (e.g. `"10"`).
    pub fn display_string(&self) -> (s: String)
        ensures
            s@ == crate::text::decimal(self.0 as int),
    {
        crate::text::u64_to_decimal(self.0 as u64)
    }
}

impl Default for KeyIndex {
    fn default() -> (r: Self)
        ensures
            r.0 == 0,
    {
        KeyIndex(0)
    }
}

impl From<u16> for KeyIndex {
    fn from(val: u16) -> (r: Self) {
        KeyIndex(val)
    }
}

impl vstd::std_specs::convert::FromSpecImpl<u16> for KeyIndex {
    open spec fn obeys_from_spec() -> bool {
        true
    }

    open spec fn from_spec(val: u16) -> KeyIndex {
        KeyIndex(val)
    }
}

impl From<KeyIndex> for u16 {
    fn from(val: KeyIndex) -> (r: u16) {
        val.0
    }
}

impl vstd::std_specs::convert::FromSpecImpl<KeyIndex> for u16 {
    open spec fn obeys_from_spec() -> bool {
        true
    }

    open spec fn from_spec(val: KeyIndex) -> u16 {
        val.0
    }
}

impl From<usize> for KeyIndex {
    /// Indices beyond the `u16` range saturate to 65535.
    fn from(idx: usize) -> (r: Self) {
        if idx <= 65535 {
            KeyIndex(idx as u16)
        } else {
            KeyIndex(65535)
        }
    }
}

impl vstd::std_specs::convert::FromSpecImpl<usize> for KeyIndex {
    open spec fn obeys_from_spec() -> bool {
        true
    }

    open spec fn from_spec(idx: usize) -> KeyIndex {
        if idx <= 65535 {
            KeyIndex(idx as u16)
        } else {
            KeyIndex(65535)
        }
    }
}

impl From<KeyIndex> for usize {
    fn from(idx: KeyIndex) -> (r: usize) {
        idx.0 as usize
    }
}

impl vstd::std_specs::convert::FromSpecImpl<KeyIndex> for usize {
    open spec fn obeys_from_spec() -> bool {
        true
    }

    open spec fn from_spec(idx: KeyIndex) -> usize {
        idx.0 as usize
    }
}

/// Logical identifier for a character or action (e.g., 'A', 'Shift').
#[derive(Debug, Clone, Copy, PartialEq, Eq, Structural, Hash, PartialOrd, Ord)]
pub struct KeyCode(pub u16);

impl KeyCode {
    /// Creates a new `KeyCode`.
    pub fn new(val: u16) -> (r: Self)
        ensures
            r.0 == val,
    {
        KeyCode(val)
    }

    /// Returns the raw `u16` value.
    pub fn raw(self) -> (r: u16)
        ensures
            r == self.0,
    {
        self.0
    }

    /// Returns the value as `usize`.
    pub fn as_usize(self) -> (r: usize)
        ensures
            r == self.0,
    {
        self.0 as usize
    }

    /// The canonical "empty" or "no-op" keycode (0).
    pub fn empty() -> (r: Self)
        ensures
            r.0 == 0,
    {
        KeyCode(0)
    }

    /// The canonical "transparent" keycode (1), falling through to the layer below.
    pub fn transparent() -> (r: Self)
        ensures
            r.0 == 1,
    {
        KeyCode(1)
    }

    /// Decimal rendering of the code (e.g. `"97"`).
    pub fn display_string(&self) -> (s: String)
        ensures
            s@ == crate::text::decimal(self.0 as int),
    {
        crate::text::u64_to_decimal(self.0 as u64)
    }
}

impl Default for KeyCode {
    fn default() -> (r: Self)
        ensures
            r.0 == 0,
    {
        KeyCode(0)
    }
}

impl From<u16> for KeyCode {
    fn from(val: u16) -> (r: Self) {
        KeyCode(val)
    }
}

impl vstd::std_specs::convert::FromSpecImpl<u16> for KeyCode {
    open spec fn obeys_from_spec() -> bool {
        true
    }

    open spec fn from_spec(val: u16) -> KeyCode {
        KeyCode(val)
    }
}

impl From<KeyCode> for u16 {
    fn from(val: KeyCode) -> (r: u16) {
        val.0
    }
}

impl vstd::std_specs::convert::FromSpecImpl<KeyCode> for u16 {
    open spec fn obeys_from_spec() -> bool {
        true
    }

    open spec fn from_spec(val: KeyCode) -> u16 {
        val.0
    }
}

} // verus!
