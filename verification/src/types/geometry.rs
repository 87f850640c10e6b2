//! Keyboard geometry types: logical rows and columns.

use std::num::ParseIntError;
use vstd::prelude::*;
use crate::parsing::{all_ascii_digits, decimal_value};
use crate::text::{chars_of, decimal, i64_decimal_chars, string_from_chars, sub_chars};

verus! {

#[verifier::external_type_specification]
#[verifier::external_body]
pub struct ExParseIntError(ParseIntError);

/// `i8::from_str`: an optional `+` or `-` sign, then one or more ASCII digits whose
/// value fits an `i8`.
pub open spec fn parse_i8_spec(s: Seq<char>) -> Option<i8> {
    let neg = s.len() > 0 && s[0] == '-';
    let d = if s.len() > 0 && (s[0] == '-' || s[0] == '+') { s.drop_first() } else { s };
    if d.len() > 0 && all_ascii_digits(d) {
        let v = if neg { -decimal_value(d) } else { decimal_value(d) };
        if -128 <= v <= 127 { Some(v as i8) } else { None }
    } else {
        None
    }
}

/// `str::parse::<i8>`, whose documentation accepts exactly an optional `+` or `-` sign
/// followed by ASCII digits, with a value in range; the contract states that and no
/// more of the error.
#[verifier::external_body]
fn parse_i8_std(s: &str) -> (r: Result<i8, ParseIntError>)
    ensures
        match r {
            Ok(v) => parse_i8_spec(s@) == Some(v),
            Err(_) => parse_i8_spec(s@) is None,
        },
{
    s.parse::<i8>()
}

/// The text after an optional leading `prefix` character.
pub open spec fn without_prefix(s: Seq<char>, prefix: char) -> Seq<char> {
    if s.len() > 0 && s[0] == prefix { s.drop_first() } else { s }
}

/// Parses a number after an optional leading `prefix` character.
fn parse_prefixed_i8(s: &str, prefix: char) -> (r: Result<i8, ParseIntError>)
    ensures
        match r {
            Ok(v) => parse_i8_spec(without_prefix(s@, prefix)) == Some(v),
            Err(_) => parse_i8_spec(without_prefix(s@, prefix)) is None,
        },
{
    let cs = chars_of(s);
    if cs.len() > 0 && cs[0] == prefix {
        let rest = sub_chars(cs.as_slice(), 1, cs.len());
        assert(rest@ =~= s@.drop_first());
        let t = string_from_chars(rest.as_slice());
        parse_i8_std(t.as_str())
    } else {
        parse_i8_std(s)
    }
}

/// Represents a logical row index on a keyboard.
#[derive(Debug, Clone, Copy, PartialEq, Eq, Structural, PartialOrd, Ord, Hash)]
pub struct RowIndex(i8);

impl View for RowIndex {
    type V = i8;

    closed spec fn view(&self) -> i8 {
        self.0
    }
}

/// `a + b` clamped to the `i8` range.
pub open spec fn sat_i8(v: int) -> i8 {
    if v > 127 {
        127i8
    } else if v < -128 {
        -128i8
    } else {
        v as i8
    }
}

/// Saturating `i8` addition.
fn saturating_add_i8(a: i8, b: i8) -> (r: i8)
    ensures
        r == sat_i8(a + b),
{
    let s: i16 = a as i16 + b as i16;
    if s > 127 {
        127
    } else if s < -128 {
        -128
    } else {
        s as i8
    }
}

/// Saturating `i8` subtraction.
fn saturating_sub_i8(a: i8, b: i8) -> (r: i8)
    ensures
        r == sat_i8(a - b),
{
    let s: i16 = a as i16 - b as i16;
    if s > 127 {
        127
    } else if s < -128 {
        -128
    } else {
        s as i8
    }
}

impl RowIndex {
    /// Creates a new `RowIndex`.
    pub fn new(val: i8) -> (r: Self)
        ensures
            r@ == val,
    {
        RowIndex(val)
    }

    /// Returns the raw `i8` value.
    pub fn raw(self) -> (r: i8)
        ensures
            r == self@,
    {
        self.0
    }

    /// Renders the row as `r<n>` (e.g. `"r5"`).
    pub fn display_string(&self) -> (s: String)
        ensures
            s@ == seq!['r'] + decimal(self@ as int),
    {
        let digits = i64_decimal_chars(self.0 as i64);
        let mut out: Vec<char> = Vec::new();
        out.push('r');
        let v = crate::text::concat_chars(out.as_slice(), digits.as_slice());
        crate::text::string_from_chars(v.as_slice())
    }
}

impl Default for RowIndex {
    fn default() -> (r: Self)
        ensures
            r@ == 0,
    {
        RowIndex(0)
    }
}

impl core::ops::Add<i8> for RowIndex {
    type Output = RowIndex;

    /// Offsets the row, saturating at the `i8` bounds.
    fn add(self, rhs: i8) -> (r: RowIndex)
        ensures
            r@ == sat_i8(self@ + rhs),
    {
        RowIndex(saturating_add_i8(self.0, rhs))
    }
}

impl vstd::std_specs::ops::AddSpecImpl<i8> for RowIndex {
    open spec fn obeys_add_spec() -> bool {
        true
    }

    open spec fn add_req(self, rhs: i8) -> bool {
        true
    }

    closed spec fn add_spec(self, rhs: i8) -> RowIndex {
        RowIndex(sat_i8(self.0 + rhs))
    }
}

impl core::ops::Sub<RowIndex> for RowIndex {
    type Output = i8;

    /// Row distance, saturating at the `i8` bounds.
    fn sub(self, rhs: RowIndex) -> (r: i8)
        ensures
            r == sat_i8(self@ - rhs@),
    {
        saturating_sub_i8(self.0, rhs.0)
    }
}

impl vstd::std_specs::ops::SubSpecImpl<RowIndex> for RowIndex {
    open spec fn obeys_sub_spec() -> bool {
        true
    }

    open spec fn sub_req(self, rhs: RowIndex) -> bool {
        true
    }

    open spec fn sub_spec(self, rhs: RowIndex) -> i8 {
        sat_i8(self@ - rhs@)
    }
}

/// Represents a logical column index on a keyboard.
#[derive(Debug, Clone, Copy, PartialEq, Eq, Structural, PartialOrd, Ord, Hash)]
pub struct ColIndex(i8);

impl View for ColIndex {
    type V = i8;

    closed spec fn view(&self) -> i8 {
        self.0
    }
}

impl ColIndex {
    /// Creates a new `ColIndex`.
    pub fn new(val: i8) -> (r: Self)
        ensures
            r@ == val,
    {
        ColIndex(val)
    }

    /// Returns the raw `i8` value.
    pub fn raw(self) -> (r: i8)
        ensures
            r == self@,
    {
        self.0
    }

    /// Renders the column as `c<n>` (e.g. `"c3"`).
    pub fn display_string(&self) -> (s: String)
        ensures
            s@ == seq!['c'] + decimal(self@ as int),
    {
        let digits = i64_decimal_chars(self.0 as i64);
        let mut out: Vec<char> = Vec::new();
        out.push('c');
        let v = crate::text::concat_chars(out.as_slice(), digits.as_slice());
        crate::text::string_from_chars(v.as_slice())
    }
}

impl Default for ColIndex {
    fn default() -> (r: Self)
        ensures
            r@ == 0,
    {
        ColIndex(0)
    }
}

impl core::ops::Add<i8> for ColIndex {
    type Output = ColIndex;

    /// Offsets the column, saturating at the `i8` bounds.
    fn add(self, rhs: i8) -> (r: ColIndex)
        ensures
            r@ == sat_i8(self@ + rhs),
    {
        ColIndex(saturating_add_i8(self.0, rhs))
    }
}

impl vstd::std_specs::ops::AddSpecImpl<i8> for ColIndex {
    open spec fn obeys_add_spec() -> bool {
        true
    }

    open spec fn add_req(self, rhs: i8) -> bool {
        true
    }

    closed spec fn add_spec(self, rhs: i8) -> ColIndex {
        ColIndex(sat_i8(self.0 + rhs))
    }
}

impl core::ops::Sub<ColIndex> for ColIndex {
    type Output = i8;

    /// Column distance, saturating at the `i8` bounds.
    fn sub(self, rhs: ColIndex) -> (r: i8)
        ensures
            r == sat_i8(self@ - rhs@),
    {
        saturating_sub_i8(self.0, rhs.0)
    }
}

impl vstd::std_specs::ops::SubSpecImpl<ColIndex> for ColIndex {
    open spec fn obeys_sub_spec() -> bool {
        true
    }

    open spec fn sub_req(self, rhs: ColIndex) -> bool {
        true
    }

    open spec fn sub_spec(self, rhs: ColIndex) -> i8 {
        sat_i8(self@ - rhs@)
    }
}

impl std::str::FromStr for RowIndex {
    type Err = ParseIntError;

    /// A row written as `r3` or `3`.
    fn from_str(s: &str) -> (r: Result<RowIndex, ParseIntError>)
        ensures
            match r {
                Ok(x) => parse_i8_spec(without_prefix(s@, 'r')) == Some(x@),
                Err(_) => parse_i8_spec(without_prefix(s@, 'r')) is None,
            },
    {
        match parse_prefixed_i8(s, 'r') {
            Ok(v) => Ok(RowIndex(v)),
            Err(e) => Err(e),
        }
    }
}

impl std::str::FromStr for ColIndex {
    type Err = ParseIntError;

    /// A column written as `c3` or `3`.
    fn from_str(s: &str) -> (r: Result<ColIndex, ParseIntError>)
        ensures
            match r {
                Ok(x) => parse_i8_spec(without_prefix(s@, 'c')) == Some(x@),
                Err(_) => parse_i8_spec(without_prefix(s@, 'c')) is None,
            },
    {
        match parse_prefixed_i8(s, 'c') {
            Ok(v) => Ok(ColIndex(v)),
            Err(e) => Err(e),
        }
    }
}

} // verus!
