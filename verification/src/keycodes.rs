//! Key code definitions and the registry that names them.
//!
//! The registry normalizes codes on construction (QMK HID codes become ASCII,
//! upper-case letters become lower-case), keeps the first definition of each
//! code, and answers case-insensitive name lookups and label lookups. Lookups
//! are association lists in insertion order, where a later entry shadows an
//! earlier one with the same key.

use vstd::prelude::*;
use vstd::string::*;
use crate::asset::{Asset, AssetCategory};
use crate::error::ForgeError;
use crate::text::{chars_of, decimal, to_upper, trim, trim_chars, u64_to_decimal, unicode_upper};
use crate::types::KeyCode;
use crate::validator::Validator;

verus! {

/// Definition of a logical key code (e.g. `KC_A`).
#[derive(Debug, Clone)]
pub struct KeycodeDefinition {
    /// The numeric code.
    pub code: KeyCode,
    /// The canonical ID (e.g. `KC_A`).
    pub id: String,
    /// The display label (e.g. `A`).
    pub label: String,
    /// Alternative names.
    pub aliases: Vec<String>,
}

/// What is wrong with a definition, if anything: a blank ID, then an empty label.
pub open spec fn definition_error(d: KeycodeDefinition) -> Option<Seq<char>> {
    if trim(d.id@).len() == 0 {
        Some("Keycode "@ + decimal(d.code.0 as int) + " has empty ID"@)
    } else if d.label@.len() == 0 {
        Some("Keycode "@ + decimal(d.code.0 as int) + " ("@ + d.id@ + ") has empty label"@)
    } else {
        None
    }
}

impl KeycodeDefinition {
    /// Renders the definition as `ID: code (label)`.
    pub fn display_string(&self) -> (r: String)
        ensures
            r@ == self.id@ + ": "@ + decimal(self.code.0 as int) + " ("@ + self.label@ + ")"@,
    {
        let mut m = self.id.clone();
        m.append(": ");
        m.append(u64_to_decimal(self.code.0 as u64).as_str());
        m.append(" (");
        m.append(self.label.as_str());
        m.append(")");
        m
    }
}

impl Validator for KeycodeDefinition {
    /// Rejects a blank ID or an empty label.
    fn validate(&self) -> (r: Result<(), String>)
        ensures
            match r {
                Ok(()) => definition_error(*self) is None,
                Err(m) => definition_error(*self) == Some(m@),
            },
    {
        check_definition(self)
    }
}

/// Rejects a blank ID or an empty label.
fn check_definition(d: &KeycodeDefinition) -> (r: Result<(), String>)
    ensures
        match r {
            Ok(()) => definition_error(*d) is None,
            Err(m) => definition_error(*d) == Some(m@),
        },
{
    {
        let id = chars_of(d.id.as_str());
        let trimmed = trim_chars(&id);
        if trimmed.len() == 0 {
            let mut m = String::from_str("Keycode ");
            m.append(u64_to_decimal(d.code.0 as u64).as_str());
            m.append(" has empty ID");
            return Err(m);
        }
        if d.label.as_str().is_empty() {
            let mut m = String::from_str("Keycode ");
            m.append(u64_to_decimal(d.code.0 as u64).as_str());
            m.append(" (");
            m.append(d.id.as_str());
            m.append(") has empty label");
            return Err(m);
        }
        Ok(())
    }
}

/// The ASCII code of a QMK HID key code, for letters, digits, whitespace and punctuation.
pub open spec fn qmk_ascii(qmk: u16) -> Option<u16> {
    if 4 <= qmk <= 29 {
        Some((qmk - 4 + 97) as u16)
    } else if 30 <= qmk <= 38 {
        Some((qmk - 30 + 49) as u16)
    } else if qmk == 39 {
        Some(48)
    } else if qmk == 40 {
        Some(10)
    } else if qmk == 41 {
        Some(27)
    } else if qmk == 42 {
        Some(8)
    } else if qmk == 43 {
        Some(9)
    } else if qmk == 44 {
        Some(32)
    } else if qmk == 45 {
        Some(45)
    } else if qmk == 46 {
        Some(61)
    } else if qmk == 47 {
        Some(91)
    } else if qmk == 48 {
        Some(93)
    } else if qmk == 49 {
        Some(92)
    } else if qmk == 51 {
        Some(59)
    } else if qmk == 52 {
        Some(39)
    } else if qmk == 53 {
        Some(96)
    } else if qmk == 54 {
        Some(44)
    } else if qmk == 55 {
        Some(46)
    } else if qmk == 56 {
        Some(47)
    } else {
        None
    }
}

/// Maps a QMK HID key code to ASCII, if it has an ASCII counterpart.
pub fn qmk_to_ascii(qmk: u16) -> (r: Option<u16>)
    ensures
        r == qmk_ascii(qmk),
{
    if 4 <= qmk && qmk <= 29 {
        Some(qmk - 4 + 97)
    } else if 30 <= qmk && qmk <= 38 {
        Some(qmk - 30 + 49)
    } else {
        match qmk {
            39 => Some(48),
            40 => Some(10),
            41 => Some(27),
            42 => Some(8),
            43 => Some(9),
            44 => Some(32),
            45 => Some(45),
            46 => Some(61),
            47 => Some(91),
            48 => Some(93),
            49 => Some(92),
            51 => Some(59),
            52 => Some(39),
            53 => Some(96),
            54 => Some(44),
            55 => Some(46),
            56 => Some(47),
            _ => None,
        }
    }
}

/// The code a definition gets in a registry: QMK codes become ASCII, then an ASCII
/// upper-case letter (`A` to `Z`) becomes the same letter in lower case; every other
/// code, codes of 256 and above among them, is kept as it is.
pub open spec fn normalize_code(c: u16) -> u16 {
    let c1 = match qmk_ascii(c) {
        Some(a) => a,
        None => c,
    };
    if 65 <= c1 <= 90 {
        (c1 + 32) as u16
    } else {
        c1
    }
}

/// A definition with its code normalized.
pub open spec fn normalize_def(d: KeycodeDefinition) -> KeycodeDefinition {
    KeycodeDefinition { code: KeyCode(normalize_code(d.code.0)), ..d }
}

/// The definitions in order, each normalized, keeping only the first with each code.
pub open spec fn registry_definitions(defs: Seq<KeycodeDefinition>) -> Seq<KeycodeDefinition>
    decreases defs.len(),
{
    if defs.len() == 0 {
        Seq::empty()
    } else {
        let kept = registry_definitions(defs.drop_last());
        let d = normalize_def(defs.last());
        if has_normalized(defs.drop_last(), d.code.0) {
            kept
        } else {
            kept.push(d)
        }
    }
}

/// The entries of a list of aliases, upper-cased, all for `code`.
pub open spec fn alias_entries(aliases: Seq<String>, code: KeyCode) -> Seq<(Seq<char>, KeyCode)> {
    aliases.map_values(|a: String| (unicode_upper(a@), code))
}

/// The codes of a list of definitions.
pub open spec fn codes_of(defs: Seq<KeycodeDefinition>) -> Seq<u16> {
    defs.map_values(|d: KeycodeDefinition| d.code.0)
}

/// Some definition has code `c`.
pub open spec fn has_code(defs: Seq<KeycodeDefinition>, c: u16) -> bool {
    exists|k: int| 0 <= k < defs.len() && (#[trigger] defs[k]).code.0 == c
}

/// Some definition's code normalizes to `c`.
pub open spec fn has_normalized(defs: Seq<KeycodeDefinition>, c: u16) -> bool {
    exists|j: int| 0 <= j < defs.len() && normalize_code((#[trigger] defs[j]).code.0) == c
}

/// The (string, code) entries of a name table, as views.
pub open spec fn name_views(v: Seq<(String, KeyCode)>) -> Seq<(Seq<char>, KeyCode)> {
    v.map_values(|e: (String, KeyCode)| (e.0@, e.1))
}

/// The (code, string) entries of a label table, as views.
pub open spec fn label_views(v: Seq<(KeyCode, String)>) -> Seq<(KeyCode, Seq<char>)> {
    v.map_values(|e: (KeyCode, String)| (e.0, e.1@))
}

/// The name entries a definition contributes, in insertion order:
/// its ID, its label, then each alias, all upper-cased.
pub open spec fn def_name_entries(d: KeycodeDefinition) -> Seq<(Seq<char>, KeyCode)> {
    seq![(unicode_upper(d.id@), d.code), (unicode_upper(d.label@), d.code)] + alias_entries(d.aliases@, d.code)
}

/// The name entries of all definitions, in insertion order.
pub open spec fn name_entries(defs: Seq<KeycodeDefinition>) -> Seq<(Seq<char>, KeyCode)>
    decreases defs.len(),
{
    if defs.len() == 0 {
        Seq::empty()
    } else {
        name_entries(defs.drop_last()) + def_name_entries(defs.last())
    }
}

/// The label entries of all definitions, in insertion order.
pub open spec fn label_entries(defs: Seq<KeycodeDefinition>) -> Seq<(KeyCode, Seq<char>)> {
    defs.map_values(|d: KeycodeDefinition| (d.code, d.label@))
}

/// The value of the last entry with key `key`.
pub open spec fn last_by_name(entries: Seq<(Seq<char>, KeyCode)>, key: Seq<char>) -> Option<KeyCode>
    decreases entries.len(),
{
    if entries.len() == 0 {
        None
    } else if entries.last().0 == key {
        Some(entries.last().1)
    } else {
        last_by_name(entries.drop_last(), key)
    }
}

/// The value of the last entry with code `code`.
pub open spec fn last_by_code(entries: Seq<(KeyCode, Seq<char>)>, code: KeyCode) -> Option<Seq<char>>
    decreases entries.len(),
{
    if entries.len() == 0 {
        None
    } else if entries.last().0 == code {
        Some(entries.last().1)
    } else {
        last_by_code(entries.drop_last(), code)
    }
}

/// The name lookup table as a map, each entry inserted in turn (a later entry for a
/// name replaces an earlier one), as a hash map built by inserts holds it.
pub open spec fn names_map(entries: Seq<(Seq<char>, KeyCode)>) -> Map<Seq<char>, KeyCode>
    decreases entries.len(),
{
    if entries.len() == 0 {
        Map::empty()
    } else {
        names_map(entries.drop_last()).insert(entries.last().0, entries.last().1)
    }
}

/// The label lookup table as a map, each entry inserted in turn.
pub open spec fn labels_map(entries: Seq<(KeyCode, Seq<char>)>) -> Map<KeyCode, Seq<char>>
    decreases entries.len(),
{
    if entries.len() == 0 {
        Map::empty()
    } else {
        labels_map(entries.drop_last()).insert(entries.last().0, entries.last().1)
    }
}

/// Looking up the last entry for a name is looking it up in the map of inserts.
pub proof fn lemma_names_map(entries: Seq<(Seq<char>, KeyCode)>, k: Seq<char>)
    ensures
        last_by_name(entries, k) == (if names_map(entries).dom().contains(k) { Some(names_map(entries)[k]) } else { None::<KeyCode> }),
    decreases entries.len(),
{
    if entries.len() > 0 {
        lemma_names_map(entries.drop_last(), k);
    }
}

/// Looking up the last entry for a code is looking it up in the map of inserts.
pub proof fn lemma_labels_map(entries: Seq<(KeyCode, Seq<char>)>, c: KeyCode)
    ensures
        last_by_code(entries, c) == (if labels_map(entries).dom().contains(c) { Some(labels_map(entries)[c]) } else { None::<Seq<char>> }),
    decreases entries.len(),
{
    if entries.len() > 0 {
        lemma_labels_map(entries.drop_last(), c);
    }
}

/// The first problem with a list of definitions: a malformed definition, a code used
/// twice, or an ID used twice ignoring case, reported at the first definition that has it.
pub open spec fn registry_error(defs: Seq<KeycodeDefinition>, k: int) -> Option<Seq<char>>
    decreases defs.len() - k,
{
    if k < 0 || k >= defs.len() {
        None
    } else {
        let d = defs[k];
        match definition_error(d) {
            Some(m) => Some(m),
            None => if exists|j: int| 0 <= j < k && (#[trigger] defs[j]).code == d.code {
                Some("Duplicate KeyCode: "@ + decimal(d.code.0 as int))
            } else if exists|j: int| 0 <= j < k && unicode_upper((#[trigger] defs[j]).id@) == unicode_upper(d.id@) {
                Some("Duplicate Key ID: "@ + d.id@)
            } else {
                registry_error(defs, k + 1)
            },
        }
    }
}

/// The codes kept by a registry are exactly the normalized codes of its definitions.
pub proof fn lemma_registry_codes(s: Seq<KeycodeDefinition>, c: u16)
    ensures
        has_code(registry_definitions(s), c) == has_normalized(s, c),
    decreases s.len(),
{
    if s.len() > 0 {
        let p = s.drop_last();
        let d = normalize_def(s.last());
        lemma_registry_codes(p, c);
        assert(has_normalized(s, c) == (has_normalized(p, c) || d.code.0 == c)) by {
            if has_normalized(s, c) {
                let j = choose|j: int| 0 <= j < s.len() && normalize_code((#[trigger] s[j]).code.0) == c;
                if j < s.len() - 1 {
                    assert(p[j] == s[j]);
                }
            }
            if has_normalized(p, c) {
                let j = choose|j: int| 0 <= j < p.len() && normalize_code((#[trigger] p[j]).code.0) == c;
                assert(s[j] == p[j]);
            }
            if d.code.0 == c {
                assert(normalize_code(s[s.len() - 1].code.0) == c);
            }
        }
        if has_normalized(p, d.code.0) {
            if d.code.0 == c {
                lemma_registry_codes(p, d.code.0);
            }
        } else {
            let kept = registry_definitions(p);
            assert(registry_definitions(s) == kept.push(d));
            assert(has_code(kept.push(d), c) == (has_code(kept, c) || d.code.0 == c)) by {
                if has_code(kept.push(d), c) {
                    let k = choose|k: int| 0 <= k < kept.push(d).len() && (#[trigger] kept.push(d)[k]).code.0 == c;
                    if k < kept.len() {
                        assert(kept[k] == kept.push(d)[k]);
                    }
                }
                if has_code(kept, c) {
                    let k = choose|k: int| 0 <= k < kept.len() && (#[trigger] kept[k]).code.0 == c;
                    assert(kept.push(d)[k] == kept[k]);
                }
                if d.code.0 == c {
                    assert(kept.push(d)[kept.len() as int] == d);
                }
            }
        }
    }
}

/// A registry keeps no code of an ASCII upper-case letter (`A` to `Z`): those are
/// lower-cased on construction.
pub proof fn lemma_registry_no_upper_codes(s: Seq<KeycodeDefinition>, c: u16)
    requires
        65 <= c <= 90,
    ensures
        !has_code(registry_definitions(s), c),
{
    lemma_registry_codes(s, c);
    if has_normalized(s, c) {
        let j = choose|j: int| 0 <= j < s.len() && normalize_code((#[trigger] s[j]).code.0) == c;
        assert(normalize_code(s[j].code.0) == c);
    }
}

/// The definitions a registry keeps have pairwise distinct codes.
pub proof fn lemma_registry_codes_distinct(s: Seq<KeycodeDefinition>)
    ensures
        forall|i: int, j: int| 0 <= i < j < registry_definitions(s).len()
            ==> (#[trigger] registry_definitions(s)[i]).code != (#[trigger] registry_definitions(s)[j]).code,
    decreases s.len(),
{
    if s.len() > 0 {
        let p = s.drop_last();
        let d = normalize_def(s.last());
        lemma_registry_codes_distinct(p);
        if !has_normalized(p, d.code.0) {
            lemma_registry_codes(p, d.code.0);
            let kept = registry_definitions(p);
            assert(registry_definitions(s) == kept.push(d));
            assert forall|i: int, j: int| 0 <= i < j < kept.push(d).len()
                implies (#[trigger] kept.push(d)[i]).code != (#[trigger] kept.push(d)[j]).code by {
                if j == kept.len() {
                    assert(kept.push(d)[i] == kept[i]);
                    if kept[i].code == d.code {
                        assert(has_code(kept, d.code.0));
                    }
                } else {
                    assert(kept.push(d)[i] == kept[i]);
                    assert(kept.push(d)[j] == kept[j]);
                }
            }
        } else {
            assert(registry_definitions(s) == registry_definitions(p));
        }
    }
}

proof fn lemma_registry_error_none(defs: Seq<KeycodeDefinition>, k: int)
    requires
        0 <= k,
        registry_error(defs, k) is None,
    ensures
        forall|j: int| k <= j < defs.len() ==> {
            &&& definition_error(#[trigger] defs[j]) is None
            &&& forall|i: int| 0 <= i < j ==> defs[i].code != defs[j].code
            &&& forall|i: int| 0 <= i < j ==> unicode_upper(defs[i].id@) != unicode_upper(defs[j].id@)
        },
    decreases defs.len() - k,
{
    if k < defs.len() {
        lemma_registry_error_none(defs, k + 1);
    }
}

/// The definition answers to the upper-cased name `key`: its ID, its label or one of
/// its aliases, upper-cased, is `key`.
pub open spec fn answers_to(d: KeycodeDefinition, key: Seq<char>) -> bool {
    ||| unicode_upper(d.id@) == key
    ||| unicode_upper(d.label@) == key
    ||| exists|a: int| 0 <= a < d.aliases@.len() && unicode_upper(#[trigger] d.aliases@[a]@) == key
}

/// The last definition with code `c`.
pub open spec fn last_with_code(defs: Seq<KeycodeDefinition>, c: KeyCode) -> Option<KeycodeDefinition>
    decreases defs.len(),
{
    if defs.len() == 0 {
        None
    } else if defs.last().code == c {
        Some(defs.last())
    } else {
        last_with_code(defs.drop_last(), c)
    }
}

/// The last definition that answers to the upper-cased name `key`.
pub open spec fn last_with_name(defs: Seq<KeycodeDefinition>, key: Seq<char>) -> Option<KeycodeDefinition>
    decreases defs.len(),
{
    if defs.len() == 0 {
        None
    } else if answers_to(defs.last(), key) {
        Some(defs.last())
    } else {
        last_with_name(defs.drop_last(), key)
    }
}

proof fn lemma_label_entries_last(defs: Seq<KeycodeDefinition>, c: KeyCode)
    ensures
        last_by_code(label_entries(defs), c) == (match last_with_code(defs, c) {
            Some(d) => Some(d.label@),
            None => None::<Seq<char>>,
        }),
    decreases defs.len(),
{
    if defs.len() > 0 {
        assert(label_entries(defs).drop_last() =~= label_entries(defs.drop_last()));
        lemma_label_entries_last(defs.drop_last(), c);
    }
}

proof fn lemma_last_by_name_concat(a: Seq<(Seq<char>, KeyCode)>, b: Seq<(Seq<char>, KeyCode)>, k: Seq<char>)
    ensures
        last_by_name(a + b, k) == (match last_by_name(b, k) {
            Some(v) => Some(v),
            None => last_by_name(a, k),
        }),
    decreases b.len(),
{
    if b.len() == 0 {
        assert(a + b =~= a);
    } else {
        assert((a + b).drop_last() =~= a + b.drop_last());
        assert((a + b).last() == b.last());
        lemma_last_by_name_concat(a, b.drop_last(), k);
    }
}

proof fn lemma_last_by_name_same_value(e: Seq<(Seq<char>, KeyCode)>, v: KeyCode, k: Seq<char>)
    requires
        forall|i: int| 0 <= i < e.len() ==> (#[trigger] e[i]).1 == v,
    ensures
        last_by_name(e, k) == (if exists|i: int| 0 <= i < e.len() && (#[trigger] e[i]).0 == k { Some(v) } else { None::<KeyCode> }),
    decreases e.len(),
{
    if e.len() > 0 {
        let p = e.drop_last();
        assert forall|i: int| 0 <= i < p.len() implies (#[trigger] p[i]).1 == v by {
            assert(p[i] == e[i]);
        }
        lemma_last_by_name_same_value(p, v, k);
        assert(e.last() == e[e.len() - 1]);
        if exists|i: int| 0 <= i < e.len() && (#[trigger] e[i]).0 == k {
            if e.last().0 != k {
                let i = choose|i: int| 0 <= i < e.len() && (#[trigger] e[i]).0 == k;
                assert(p[i] == e[i]);
            }
        } else {
            assert forall|i: int| 0 <= i < p.len() implies (#[trigger] p[i]).0 != k by {
                assert(p[i] == e[i]);
            }
        }
    }
}

proof fn lemma_def_entries_lookup(d: KeycodeDefinition, k: Seq<char>)
    ensures
        last_by_name(def_name_entries(d), k) == (if answers_to(d, k) { Some(d.code) } else { None::<KeyCode> }),
{
    let e = def_name_entries(d);
    let al = alias_entries(d.aliases@, d.code);
    assert forall|i: int| 0 <= i < e.len() implies (#[trigger] e[i]).1 == d.code by {
        if i >= 2 {
            assert(e[i] == al[i - 2]);
        }
    }
    lemma_last_by_name_same_value(e, d.code, k);
    if answers_to(d, k) {
        if unicode_upper(d.id@) == k {
            assert(e[0].0 == k);
        } else if unicode_upper(d.label@) == k {
            assert(e[1].0 == k);
        } else {
            let a = choose|a: int| 0 <= a < d.aliases@.len() && unicode_upper(#[trigger] d.aliases@[a]@) == k;
            assert(e[a + 2] == al[a]);
            assert(e[a + 2].0 == k);
        }
    } else {
        assert forall|i: int| 0 <= i < e.len() implies (#[trigger] e[i]).0 != k by {
            if i >= 2 {
                assert(e[i] == al[i - 2]);
                assert(d.aliases@[i - 2]@ == d.aliases@[i - 2]@);
            }
        }
    }
}

proof fn lemma_name_entries_last(defs: Seq<KeycodeDefinition>, k: Seq<char>)
    ensures
        last_by_name(name_entries(defs), k) == (match last_with_name(defs, k) {
            Some(d) => Some(d.code),
            None => None::<KeyCode>,
        }),
    decreases defs.len(),
{
    if defs.len() > 0 {
        lemma_name_entries_last(defs.drop_last(), k);
        lemma_last_by_name_concat(name_entries(defs.drop_last()), def_name_entries(defs.last()), k);
        lemma_def_entries_lookup(defs.last(), k);
    }
}

/// In a registry whose tables are built from its definitions (as `new` and
/// `rebuild_maps` leave them), looking up a code gives the label of the last definition
/// with that code, and looking up a name gives the code of the last definition that
/// answers to it (ignoring case); `get_label` and `get_code` read these lookups.
pub proof fn lemma_registry_lookups(reg: KeycodeRegistry, c: KeyCode, name: Seq<char>)
    requires
        reg.name_table() == name_entries(reg.defs()),
        reg.label_table() == label_entries(reg.defs()),
    ensures
        last_by_code(reg.label_table(), c) == (match last_with_code(reg.defs(), c) {
            Some(d) => Some(d.label@),
            None => None::<Seq<char>>,
        }),
        last_by_name(reg.name_table(), unicode_upper(name)) == (match last_with_name(reg.defs(), unicode_upper(name)) {
            Some(d) => Some(d.code),
            None => None::<KeyCode>,
        }),
{
    lemma_label_entries_last(reg.defs(), c);
    lemma_name_entries_last(reg.defs(), unicode_upper(name));
}

/// With codes that are all different, looking up the label of a definition's code
/// gives that definition's label.
pub proof fn lemma_label_lookup(defs: Seq<KeycodeDefinition>, i: int)
    requires
        0 <= i < defs.len(),
        forall|a: int, b: int| 0 <= a < b < defs.len() ==> (#[trigger] defs[a]).code != (#[trigger] defs[b]).code,
    ensures
        last_by_code(label_entries(defs), defs[i].code) == Some(defs[i].label@),
    decreases defs.len(),
{
    let e = label_entries(defs);
    let n = defs.len();
    assert(e.last() == (defs[n - 1].code, defs[n - 1].label@));
    if i < n - 1 {
        let p = defs.drop_last();
        assert(defs[i] == p[i]);
        assert(defs[i].code != defs[n - 1].code);
        assert forall|a: int, b: int| 0 <= a < b < p.len() implies (#[trigger] p[a]).code != (#[trigger] p[b]).code by {
            assert(p[a] == defs[a] && p[b] == defs[b]);
        }
        lemma_label_lookup(p, i);
        assert(e.drop_last() =~= label_entries(p));
    }
}

/// In a registry built from any definitions, looking up the label of a kept
/// definition's code gives that definition's label.
pub proof fn lemma_registry_label_lookup(s: Seq<KeycodeDefinition>, i: int)
    requires
        0 <= i < registry_definitions(s).len(),
    ensures
        last_by_code(label_entries(registry_definitions(s)), registry_definitions(s)[i].code)
            == Some(registry_definitions(s)[i].label@),
{
    lemma_registry_codes_distinct(s);
    lemma_label_lookup(registry_definitions(s), i);
}

/// The definitions of a registry that validates have pairwise distinct codes and
/// pairwise distinct IDs ignoring case, and none is malformed.
pub proof fn lemma_valid_registry_distinct(defs: Seq<KeycodeDefinition>)
    requires
        registry_error(defs, 0) is None,
    ensures
        forall|j: int| 0 <= j < defs.len() ==> definition_error(#[trigger] defs[j]) is None,
        forall|i: int, j: int| 0 <= i < j < defs.len() ==> (#[trigger] defs[i]).code != (#[trigger] defs[j]).code,
        forall|i: int, j: int| 0 <= i < j < defs.len()
            ==> unicode_upper((#[trigger] defs[i]).id@) != unicode_upper((#[trigger] defs[j]).id@),
{
    lemma_registry_error_none(defs, 0);
    assert forall|i: int, j: int| 0 <= i < j < defs.len() implies (#[trigger] defs[i]).code != (#[trigger] defs[j]).code by {
        assert(definition_error(defs[j]) is None);
    }
    assert forall|i: int, j: int| 0 <= i < j < defs.len()
        implies unicode_upper((#[trigger] defs[i]).id@) != unicode_upper((#[trigger] defs[j]).id@) by {
        assert(definition_error(defs[j]) is None);
    }
}

/// Registry for looking up key codes by name and labels by code.
#[derive(Debug, Clone)]
pub struct KeycodeRegistry {
    /// All definitions.
    pub definitions: Vec<KeycodeDefinition>,
    name_to_code: Vec<(String, KeyCode)>,
    code_to_label: Vec<(KeyCode, String)>,
}

impl KeycodeRegistry {
    /// The definitions, as a sequence.
    pub closed spec fn defs(self) -> Seq<KeycodeDefinition> {
        self.definitions@
    }

    /// The name lookup table, as (upper-cased name, code) entries.
    pub closed spec fn name_table(self) -> Seq<(Seq<char>, KeyCode)> {
        name_views(self.name_to_code@)
    }

    /// The label lookup table, as (code, label) entries.
    pub closed spec fn label_table(self) -> Seq<(KeyCode, Seq<char>)> {
        label_views(self.code_to_label@)
    }
}

impl Default for KeycodeRegistry {
    fn default() -> (r: Self)
        ensures
            r.defs().len() == 0,
            r.name_table() == name_entries(r.defs()),
            r.label_table() == label_entries(r.defs()),
    {
        let r = KeycodeRegistry { definitions: Vec::new(), name_to_code: Vec::new(), code_to_label: Vec::new() };
        assert(r.name_table() =~= name_entries(r.defs()));
        assert(r.label_table() =~= label_entries(r.defs()));
        r
    }
}

/// The name entries of one definition, appended to `out`.
fn push_name_entries(out: &mut Vec<(String, KeyCode)>, d: &KeycodeDefinition)
    ensures
        name_views(final(out)@)
            == name_views(old(out)@) + def_name_entries(*d),
{
    let ghost start = name_views(out@);
    out.push((to_upper(d.id.as_str()), d.code));
    out.push((to_upper(d.label.as_str()), d.code));
    let ghost head = seq![(unicode_upper(d.id@), d.code), (unicode_upper(d.label@), d.code)];
    assert(name_views(out@) =~= start + head);
    let ghost aliases = alias_entries(d.aliases@, d.code);
    let mut i: usize = 0;
    while i < d.aliases.len()
        invariant
            i <= d.aliases@.len(),
            aliases == alias_entries(d.aliases@, d.code),
            head == seq![(unicode_upper(d.id@), d.code), (unicode_upper(d.label@), d.code)],
            name_views(out@) == start + head + aliases.take(i as int),
        decreases d.aliases.len() - i,
    {
        let ghost prev_out = out@;
        out.push((to_upper(d.aliases[i].as_str()), d.code));
        assert(name_views(out@) =~= name_views(prev_out).push((unicode_upper(d.aliases@[i as int]@), d.code)));
        assert(aliases.take(i + 1) =~= aliases.take(i as int).push(aliases[i as int]));
        assert(aliases[i as int] == (unicode_upper(d.aliases@[i as int]@), d.code));
        i += 1;
        assert(name_views(out@) =~= start + head + aliases.take(i as int));
    }
    assert(aliases.take(d.aliases@.len() as int) =~= aliases);
    assert(head + aliases =~= def_name_entries(*d));
    assert(start + head + aliases =~= start + (head + aliases));
}

impl KeycodeRegistry {
    /// Builds a registry: normalizes every code, keeps the first definition of each
    /// code, and builds the lookup tables.
    pub fn new(definitions: Vec<KeycodeDefinition>) -> (r: Self)
        ensures
            r.defs() == registry_definitions(definitions@),
            r.name_table() == name_entries(r.defs()),
            r.label_table() == label_entries(r.defs()),
    {
        let mut defs = definitions;
        let ghost orig = defs@;
        let n0 = defs.len();
        assert(orig.len() == n0);
        let mut rev: Vec<KeycodeDefinition> = Vec::new();
        while defs.len() > 0
            invariant
                orig.len() <= usize::MAX,
                orig.len() == defs@.len() + rev@.len(),
                forall|i: int| 0 <= i < defs@.len() ==> #[trigger] defs@[i] == orig[i],
                forall|i: int| 0 <= i < rev@.len() ==> #[trigger] rev@[i] == orig[orig.len() - 1 - i],
            decreases defs.len(),
        {
            let d = defs.pop().unwrap();
            rev.push(d);
        }
        let mut kept: Vec<KeycodeDefinition> = Vec::new();
        let mut codes: Vec<u16> = Vec::new();
        let mut done: usize = 0;
        assert(orig.take(0) =~= Seq::<KeycodeDefinition>::empty());
        while rev.len() > 0
            invariant
                orig.len() <= usize::MAX,
                done + rev@.len() == orig.len(),
                forall|i: int| 0 <= i < rev@.len() ==> #[trigger] rev@[i] == orig[orig.len() - 1 - i],
                kept@ == registry_definitions(orig.take(done as int)),
                codes@ == codes_of(kept@),
            decreases rev.len(),
        {
            let d = rev.pop().unwrap();
            assert(d == orig[done as int]);
            let c0 = d.code.0;
            let c1 = match qmk_to_ascii(c0) {
                Some(a) => a,
                None => c0,
            };
            let code = if 65 <= c1 && c1 <= 90 { c1 + 32 } else { c1 };
            assert(code == normalize_code(c0));
            let mut seen = false;
            let mut q: usize = 0;
            while q < codes.len()
                invariant
                    q <= codes@.len(),
                    seen <==> exists|p: int| 0 <= p < q && codes@[p] == code,
                decreases codes.len() - q,
            {
                if codes[q] == code {
                    seen = true;
                }
                q += 1;
            }
            proof {
                let pre = orig.take(done as int);
                let cur = orig.take(done + 1);
                assert(cur.drop_last() =~= pre);
                assert(cur.last() == d);
                lemma_registry_codes(pre, code);
                if seen {
                    let p = choose|p: int| 0 <= p < codes@.len() && codes@[p] == code;
                    assert(kept@[p].code.0 == code);
                    assert(has_code(kept@, code));
                } else {
                    assert(!has_code(kept@, code)) by {
                        if has_code(kept@, code) {
                            let k = choose|k: int| 0 <= k < kept@.len() && (#[trigger] kept@[k]).code.0 == code;
                            assert(codes@[k] == code);
                        }
                    }
                }
            }
            if !seen {
                let nd = KeycodeDefinition { code: KeyCode(code), id: d.id, label: d.label, aliases: d.aliases };
                assert(nd == normalize_def(orig[done as int]));
                kept.push(nd);
                codes.push(code);
                proof {
                    assert(codes@ =~= codes_of(kept@));
                }
            }
            done += 1;
        }
        assert(orig.take(orig.len() as int) =~= orig);
        let mut reg = KeycodeRegistry { definitions: kept, name_to_code: Vec::new(), code_to_label: Vec::new() };
        reg.rebuild_maps();
        reg
    }

    /// A registry with the minimal defaults: `KC_NO` (code 0) and `KC_TRANSPARENT` (code 1).
    pub fn new_with_defaults() -> (r: Self)
        ensures
            r.defs().len() == 2,
            r.defs()[0].code.0 == 0,
            r.defs()[0].id@ == "KC_NO"@,
            r.defs()[0].label@ == " "@,
            r.defs()[0].aliases@.len() == 1,
            r.defs()[0].aliases@[0]@ == "XXXXXXX"@,
            r.defs()[1].code.0 == 1,
            r.defs()[1].id@ == "KC_TRANSPARENT"@,
            r.defs()[1].label@ == "\u{25bd}"@,
            r.defs()[1].aliases@.len() == 2,
            r.defs()[1].aliases@[0]@ == "KC_TRNS"@,
            r.defs()[1].aliases@[1]@ == "_______"@,
            r.name_table() == name_entries(r.defs()),
            r.label_table() == label_entries(r.defs()),
    {
        let mut a0: Vec<String> = Vec::new();
        a0.push(String::from_str("XXXXXXX"));
        let mut a1: Vec<String> = Vec::new();
        a1.push(String::from_str("KC_TRNS"));
        a1.push(String::from_str("_______"));
        let mut defs: Vec<KeycodeDefinition> = Vec::new();
        defs.push(KeycodeDefinition {
            code: KeyCode(0),
            id: String::from_str("KC_NO"),
            label: String::from_str(" "),
            aliases: a0,
        });
        defs.push(KeycodeDefinition {
            code: KeyCode(1),
            id: String::from_str("KC_TRANSPARENT"),
            label: String::from_str("\u{25bd}"),
            aliases: a1,
        });
        let r = KeycodeRegistry::new(defs);
        proof {
            let s = defs@;
            assert(s.take(1).drop_last() =~= Seq::<KeycodeDefinition>::empty());
            assert(s.drop_last() =~= s.take(1));
            assert(normalize_code(0) == 0);
            assert(normalize_code(1) == 1);
            reveal_with_fuel(registry_definitions, 3);
        }
        r
    }

    /// Rebuilds the lookup tables from the current definitions.
    pub fn rebuild_maps(&mut self)
        ensures
            final(self).defs() == old(self).defs(),
            final(self).name_table() == name_entries(final(self).defs()),
            final(self).label_table() == label_entries(final(self).defs()),
    {
        let mut names: Vec<(String, KeyCode)> = Vec::new();
        let mut labels: Vec<(KeyCode, String)> = Vec::new();
        let mut i: usize = 0;
        assert(self.defs().take(0) =~= Seq::<KeycodeDefinition>::empty());
        while i < self.definitions.len()
            invariant
                i <= self.defs().len(),
                name_views(names@) == name_entries(self.defs().take(i as int)),
                label_views(labels@) == label_entries(self.defs().take(i as int)),
            decreases self.definitions.len() - i,
        {
            let d = &self.definitions[i];
            proof {
                assert(self.defs().take(i + 1).drop_last() =~= self.defs().take(i as int));
                assert(self.defs().take(i + 1).last() == *d);
            }
            let ghost before = labels@;
            labels.push((d.code, d.label.clone()));
            assert(label_entries(self.defs().take(i + 1)) =~= label_entries(self.defs().take(i as int)).push((d.code, d.label@)));
            assert(label_views(labels@)
                =~= label_entries(self.defs().take(i + 1)));
            push_name_entries(&mut names, d);
            i += 1;
        }
        assert(self.defs().take(self.defs().len() as int) =~= self.defs());
        self.name_to_code = names;
        self.code_to_label = labels;
    }

    /// Looks up a code by name, ignoring case; the last definition to use a name wins.
    pub fn get_code(&self, name: &str) -> (r: Option<KeyCode>)
        ensures
            r == last_by_name(self.name_table(), unicode_upper(name@)),
            ({
                let m = names_map(self.name_table());
                r == (if m.dom().contains(unicode_upper(name@)) { Some(m[unicode_upper(name@)]) } else { None::<KeyCode> })
            }),
    {
        let key = to_upper(name);
        self.get_code_upper(key.as_str())
    }

    /// Looks up a code by a name that is already in upper case (the form in which the
    /// registry keeps names); the last definition to use the name wins.
    pub fn get_code_upper(&self, upper: &str) -> (r: Option<KeyCode>)
        ensures
            r == last_by_name(self.name_table(), upper@),
            ({
                let m = names_map(self.name_table());
                r == (if m.dom().contains(upper@) { Some(m[upper@]) } else { None::<KeyCode> })
            }),
    {
        proof { lemma_names_map(self.name_table(), upper@); }
        let key = upper.to_owned();
        let mut i: usize = self.name_to_code.len();
        assert(self.name_table().take(i as int) =~= self.name_table());
        while i > 0
            invariant
                i <= self.name_to_code@.len(),
                key@ == upper@,
                last_by_name(self.name_table(), key@)
                    == last_by_name(self.name_table().take(i as int), key@),
                last_by_name(self.name_table(), key@) == (if names_map(self.name_table()).dom().contains(key@) {
                    Some(names_map(self.name_table())[key@])
                } else {
                    None::<KeyCode>
                }),
            decreases i,
        {
            let e = &self.name_to_code[i - 1];
            proof {
                assert(self.name_table().take(i as int).drop_last() =~= self.name_table().take(i - 1));
                assert(self.name_table().take(i as int).last() == (e.0@, e.1));
            }
            if e.0 == key {
                return Some(e.1);
            }
            i -= 1;
        }
        proof {
            assert(self.name_table().take(0) =~= Seq::<(Seq<char>, KeyCode)>::empty());
        }
        None
    }

    /// The label of a code (the last definition with that code wins), or `[code]`.
    pub fn get_label(&self, code: KeyCode) -> (r: String)
        ensures
            r@ == (match last_by_code(self.label_table(), code) {
                Some(l) => l,
                None => "["@ + decimal(code.0 as int) + "]"@,
            }),
            ({
                let m = labels_map(self.label_table());
                r@ == (if m.dom().contains(code) { m[code] } else { "["@ + decimal(code.0 as int) + "]"@ })
            }),
    {
        proof { lemma_labels_map(self.label_table(), code); }
        let mut i: usize = self.code_to_label.len();
        assert(self.label_table().take(i as int) =~= self.label_table());
        while i > 0
            invariant
                i <= self.code_to_label@.len(),
                last_by_code(self.label_table(), code)
                    == last_by_code(self.label_table().take(i as int), code),
                last_by_code(self.label_table(), code) == (if labels_map(self.label_table()).dom().contains(code) {
                    Some(labels_map(self.label_table())[code])
                } else {
                    None::<Seq<char>>
                }),
            decreases i,
        {
            let e = &self.code_to_label[i - 1];
            proof {
                assert(self.label_table().take(i as int).drop_last() =~= self.label_table().take(i - 1));
                assert(self.label_table().take(i as int).last() == (e.0, e.1@));
            }
            if e.0 == code {
                return e.1.clone();
            }
            i -= 1;
        }
        proof {
            assert(self.label_table().take(0) =~= Seq::<(KeyCode, Seq<char>)>::empty());
        }
        let mut m = String::from_str("[");
        m.append(u64_to_decimal(code.0 as u64).as_str());
        m.append("]");
        m
    }
}

impl Validator for KeycodeRegistry {
    /// Checks each definition in order, and that no code or (case-insensitive) ID repeats.
    fn validate(&self) -> (r: Result<(), String>)
        ensures
            match r {
                Ok(()) => registry_error(self.defs(), 0) is None,
                Err(m) => registry_error(self.defs(), 0) == Some(m@),
            },
    {
        let defs = &self.definitions;
        let mut uppers: Vec<String> = Vec::new();
        let mut i: usize = 0;
        while i < defs.len()
            invariant
                i <= defs@.len(),
                defs@ == self.defs(),
                uppers@.len() == i,
                forall|j: int| 0 <= j < i ==> (#[trigger] uppers@[j])@ == unicode_upper(defs@[j].id@),
                registry_error(defs@, 0) == registry_error(defs@, i as int),
            decreases defs.len() - i,
        {
            let d = &defs[i];
            match check_definition(d) {
                Err(m) => {
                    return Err(m);
                },
                Ok(()) => {},
            }
            let mut dup_code = false;
            let mut j: usize = 0;
            while j < i
                invariant
                    j <= i < defs@.len(),
                    d.code == defs@[i as int].code,
                    dup_code <==> exists|p: int| 0 <= p < j && (#[trigger] defs@[p]).code == defs@[i as int].code,
                decreases i - j,
            {
                if defs[j].code == d.code {
                    dup_code = true;
                }
                j += 1;
            }
            if dup_code {
                let mut m = String::from_str("Duplicate KeyCode: ");
                m.append(u64_to_decimal(d.code.0 as u64).as_str());
                return Err(m);
            }
            let up = to_upper(d.id.as_str());
            let mut dup_id = false;
            let mut k: usize = 0;
            while k < i
                invariant
                    k <= i < defs@.len(),
                    uppers@.len() == i,
                    forall|q: int| 0 <= q < i ==> (#[trigger] uppers@[q])@ == unicode_upper(defs@[q].id@),
                    up@ == unicode_upper(defs@[i as int].id@),
                    dup_id <==> exists|p: int| 0 <= p < k && unicode_upper((#[trigger] defs@[p]).id@) == up@,
                decreases i - k,
            {
                if uppers[k] == up {
                    dup_id = true;
                }
                k += 1;
            }
            if dup_id {
                let mut m = String::from_str("Duplicate Key ID: ");
                m.append(d.id.as_str());
                return Err(m);
            }
            uppers.push(up);
            i += 1;
        }
        Ok(())
    }
}

impl Asset for KeycodeRegistry {
    fn category() -> (r: AssetCategory)
        ensures
            r == AssetCategory::Keycodes,
    {
        AssetCategory::Keycodes
    }

    /// Rebuilds the lookup tables, then validates; a failure is reported as invalid data.
    fn post_load(&mut self) -> (r: Result<(), ForgeError>)
        ensures
            final(self).defs() == old(self).defs(),
            final(self).name_table() == name_entries(final(self).defs()),
            final(self).label_table() == label_entries(final(self).defs()),
            match r {
                Ok(()) => registry_error(old(self).defs(), 0) is None,
                Err(e) => exists|m: String| registry_error(old(self).defs(), 0) == Some(m@)
                    && e == ForgeError::InvalidData(m),
            },
    {
        self.rebuild_maps();
        match self.validate() {
            Ok(()) => Ok(()),
            Err(m) => Err(ForgeError::InvalidData(m)),
        }
    }
}

impl From<Vec<KeycodeDefinition>> for KeycodeRegistry {
    /// Same as [`KeycodeRegistry::new`].
    fn from(defs: Vec<KeycodeDefinition>) -> (r: Self)
        ensures
            r.defs() == registry_definitions(defs@),
            r.name_table() == name_entries(r.defs()),
            r.label_table() == label_entries(r.defs()),
    {
        KeycodeRegistry::new(defs)
    }
}

impl vstd::std_specs::convert::FromSpecImpl<Vec<KeycodeDefinition>> for KeycodeRegistry {
    open spec fn obeys_from_spec() -> bool {
        false
    }

    open spec fn from_spec(v: Vec<KeycodeDefinition>) -> Self {
        arbitrary()
    }
}

impl From<KeycodeRegistry> for Vec<KeycodeDefinition> {
    /// The definitions of the registry.
    fn from(reg: KeycodeRegistry) -> (r: Self)
        ensures
            r@ == reg.defs(),
    {
        reg.definitions
    }
}

impl vstd::std_specs::convert::FromSpecImpl<KeycodeRegistry> for Vec<KeycodeDefinition> {
    open spec fn obeys_from_spec() -> bool {
        false
    }

    open spec fn from_spec(reg: KeycodeRegistry) -> Self {
        arbitrary()
    }
}

} // verus!
