//! Pinning a key code to a physical key.

use vstd::prelude::*;
use vstd::string::*;
use crate::parsing::{parse_u16_chars, parse_u16_spec};
use crate::text::{chars_of, string_from_chars, sub_chars};
use crate::types::KeyIndex;
use crate::validator::Validator;

verus! {

/// A constraint placing a key code at a fixed physical key.
#[derive(Debug, Clone)]
pub struct KeyConstraint {
    /// The physical index on the keyboard.
    pub index: KeyIndex,
    /// The canonical ID of the key code (e.g. `KC_A`).
    pub key: String,
}

/// Number of occurrences of `c` in `s`.
pub open spec fn count_char(s: Seq<char>, c: char) -> nat
    decreases s.len(),
{
    if s.len() == 0 {
        0
    } else {
        count_char(s.drop_last(), c) + (if s.last() == c { 1nat } else { 0nat })
    }
}

/// The result of parsing `index:key`: the index and key text, or the message.
pub open spec fn constraint_spec(s: Seq<char>) -> Result<(u16, Seq<char>), Seq<char>> {
    if count_char(s, ':') != 1 {
        Err("Invalid constraint format. Expected 'index:key'"@)
    } else {
        let i = crate::text::first_index_of(s, ':')->0;
        match parse_u16_spec(s.take(i)) {
            Some(idx) => Ok((idx, s.skip(i + 1))),
            None => Err("Invalid index in constraint"@),
        }
    }
}

impl KeyConstraint {
    /// Creates a new key constraint.
    pub fn new(index: KeyIndex, key: String) -> (r: Self)
        ensures
            r.index == index,
            r.key == key,
    {
        KeyConstraint { index, key }
    }

    /// Parses `index:key` (e.g. `0:KC_A`): exactly one `:`, an index that is a `u16`,
    /// and the key text after the colon.
    pub fn parse(s: &str) -> (r: Result<Self, String>)
        ensures
            match r {
                Ok(c) => constraint_spec(s@) == Ok::<(u16, Seq<char>), Seq<char>>((c.index.0, c.key@)),
                Err(m) => constraint_spec(s@) == Err::<(u16, Seq<char>), Seq<char>>(m@),
            },
    {
        let cs = chars_of(s);
        let mut colons: usize = 0;
        let mut first: usize = 0;
        let mut i: usize = 0;
        assert(cs@.take(0) =~= Seq::<char>::empty());
        while i < cs.len()
            invariant
                i <= cs@.len(),
                colons == count_char(cs@.take(i as int), ':'),
                colons <= i,
                colons > 0 ==> crate::text::first_index_of(cs@, ':') == Some(first as int),
                colons > 0 ==> first < i && cs@[first as int] == ':',
                colons == 0 ==> forall|k: int| 0 <= k < i ==> cs@[k] != ':',
            decreases cs.len() - i,
        {
            proof {
                assert(cs@.take(i + 1).drop_last() =~= cs@.take(i as int));
                assert(cs@.take(i + 1).last() == cs@[i as int]);
            }
            if cs[i] == ':' {
                if colons == 0 {
                    first = i;
                    proof {
                        crate::text::lemma_first_index_of(cs@, ':', i as int);
                    }
                }
                colons += 1;
            }
            i += 1;
        }
        assert(cs@.take(cs@.len() as int) =~= cs@);
        if colons != 1 {
            return Err(String::from_str("Invalid constraint format. Expected 'index:key'"));
        }
        let head = sub_chars(&cs, 0, first);
        assert(head@ =~= cs@.take(first as int));
        match parse_u16_chars(&head) {
            Some(idx) => {
                let tail = sub_chars(&cs, first + 1, cs.len());
                assert(tail@ =~= cs@.skip(first + 1));
                Ok(KeyConstraint { index: KeyIndex::new(idx), key: string_from_chars(&tail) })
            },
            None => Err(String::from_str("Invalid index in constraint")),
        }
    }
}

impl std::str::FromStr for KeyConstraint {
    type Err = String;

    /// Parses `index:key` as `parse` does.
    fn from_str(s: &str) -> (r: Result<Self, String>)
        ensures
            match r {
                Ok(c) => constraint_spec(s@) == Ok::<(u16, Seq<char>), Seq<char>>((c.index.0, c.key@)),
                Err(m) => constraint_spec(s@) == Err::<(u16, Seq<char>), Seq<char>>(m@),
            },
    {
        KeyConstraint::parse(s)
    }
}

impl Validator for KeyConstraint {
    /// The key may not be empty.
    fn validate(&self) -> (r: Result<(), String>)
        ensures
            r is Ok <==> self.key@.len() > 0,
            r matches Err(m) ==> m@ == "Constraint key cannot be empty"@,
    {
        if self.key.as_str().is_empty() {
            return Err(String::from_str("Constraint key cannot be empty"));
        }
        Ok(())
    }
}

proof fn lemma_decimal_parses(n: nat)
    ensures
        crate::text::decimal_nat(n).len() > 0,
        crate::parsing::all_ascii_digits(crate::text::decimal_nat(n)),
        crate::parsing::decimal_value(crate::text::decimal_nat(n)) == n,
        crate::text::decimal_nat(n)[0] != '+',
        forall|k: int| 0 <= k < crate::text::decimal_nat(n).len() ==> #[trigger] crate::text::decimal_nat(n)[k] != ':',
    decreases n,
{
    let d = crate::text::decimal_nat(n);
    let k = (n % 10) as int;
    assert(crate::parsing::digit_value(crate::text::digit_char(k)) == k);
    if n < 10 {
        assert(d.drop_last() =~= Seq::<char>::empty());
        assert(d.last() == crate::text::digit_char(n as int));
        assert(crate::parsing::digit_value(crate::text::digit_char(n as int)) == n);
        assert(crate::parsing::decimal_value(d) == 10 * crate::parsing::decimal_value(d.drop_last())
            + crate::parsing::digit_value(d.last()));
        assert(crate::parsing::decimal_value(Seq::<char>::empty()) == 0);
    }
    if n >= 10 {
        lemma_decimal_parses(n / 10);
        let p = crate::text::decimal_nat(n / 10);
        assert(d == p.push(crate::text::digit_char((n % 10) as int)));
        assert(d.drop_last() =~= p);
        assert(d.last() == crate::text::digit_char(k));
        assert(10 * ((n / 10) as int) + k == n);
        assert(crate::parsing::decimal_value(d) == 10 * crate::parsing::decimal_value(d.drop_last())
            + crate::parsing::digit_value(d.last()));
        assert(crate::parsing::decimal_value(d) == 10 * crate::parsing::decimal_value(p) + k);
        assert forall|k: int| 0 <= k < d.len() implies crate::parsing::is_ascii_digit(#[trigger] d[k]) by {
            if k < p.len() {
                assert(d[k] == p[k]);
                assert(crate::parsing::is_ascii_digit(p[k]));
            }
        }
        assert forall|k: int| 0 <= k < d.len() implies #[trigger] d[k] != ':' by {
            if k < p.len() {
                assert(d[k] == p[k]);
            }
        }
        assert(d[0] == p[0]);
    }
}

proof fn lemma_count_char_concat(a: Seq<char>, b: Seq<char>, c: char)
    ensures
        count_char(a + b, c) == count_char(a, c) + count_char(b, c),
    decreases b.len(),
{
    if b.len() > 0 {
        lemma_count_char_concat(a, b.drop_last(), c);
        assert((a + b).drop_last() =~= a + b.drop_last());
        assert((a + b).last() == b.last());
    } else {
        assert(a + b =~= a);
    }
}

proof fn lemma_count_char_absent(s: Seq<char>, c: char)
    requires
        forall|k: int| 0 <= k < s.len() ==> s[k] != c,
    ensures
        count_char(s, c) == 0,
    decreases s.len(),
{
    if s.len() > 0 {
        assert forall|k: int| 0 <= k < s.drop_last().len() implies s.drop_last()[k] != c by {
            assert(s.drop_last()[k] == s[k]);
        }
        lemma_count_char_absent(s.drop_last(), c);
    }
}

/// Writing a constraint as `index:key` and parsing it gives the constraint back, for
/// every index and every key without a colon.
pub proof fn lemma_constraint_roundtrip(idx: u16, key: Seq<char>)
    requires
        forall|k: int| 0 <= k < key.len() ==> key[k] != ':',
    ensures
        constraint_spec(crate::text::decimal(idx as int) + seq![':'] + key)
            == Ok::<(u16, Seq<char>), Seq<char>>((idx, key)),
{
    let d = crate::text::decimal_nat(idx as nat);
    lemma_decimal_parses(idx as nat);
    let s = crate::text::decimal(idx as int) + seq![':'] + key;
    assert(crate::text::decimal(idx as int) == d);
    lemma_count_char_absent(d, ':');
    lemma_count_char_absent(key, ':');
    lemma_count_char_concat(d, seq![':'], ':');
    lemma_count_char_concat(d + seq![':'], key, ':');
    assert(seq![':'].drop_last() =~= Seq::<char>::empty());
    assert(seq![':'].last() == ':');
    assert(count_char(seq![':'], ':') == count_char(Seq::<char>::empty(), ':') + 1);
    assert forall|j: int| 0 <= j < d.len() implies s[j] != ':' by {
        assert(s[j] == d[j]);
    }
    assert(s[d.len() as int] == ':');
    crate::text::lemma_first_index_of(s, ':', d.len() as int);
    assert(s.take(d.len() as int) =~= d);
    assert(s.skip(d.len() as int + 1) =~= key);
    assert(crate::parsing::unsigned_digits(d) == d);
}

} // verus!
