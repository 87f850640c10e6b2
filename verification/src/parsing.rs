//! Parsing of keymap tokens from external formats (QMK / ZMK style) into
//! [`KeyAction`] values.
//!
//! Every function here works on characters; the contracts are stated over the
//! character sequences of the inputs and outputs.

use vstd::prelude::*;
use vstd::utf8::*;
use crate::text::{
    chars_eq, chars_of, concat_chars, contains_char, ends_with_chars, find_char, first_index_of,
    is_unicode_alphanumeric, char_is_alphanumeric, starts_with_chars, string_from_chars, sub_chars,
    to_upper, trim, trim_chars, unicode_upper, utf8_len_exceeds,
};

verus! {

/// Longest token, in UTF-8 bytes, that is interpreted; longer ones are kept raw.
pub const KEY_TOKEN_MAX_BYTES: usize = 100;

/// How many levels of nested calls are followed; a call nested deeper is kept raw.
pub const KEY_NESTING_LIMIT: u32 = 100;

/// A key action parsed from an external keymap format.
#[derive(Debug, PartialEq)]
pub enum KeyAction {
    /// A simple keycode (e.g. `KC_A`).
    Simple(String),
    /// Transparent (pass-through).
    Transparent,
    /// No operation.
    NoOp,
    /// Momentary layer switch (`MO`).
    LayerMomentary(u8),
    /// Toggle layer (`TG`).
    LayerToggle(u8),
    /// Turn on layer (`TO`).
    LayerOn(u8),
    /// Modifier tap: hold for the modifier, tap for the key.
    ModTap { mod_name: String, key: Box<KeyAction> },
    /// Layer tap: hold for the layer, tap for the key.
    LayerTap { layer: u8, key: Box<KeyAction> },
    /// Sticky (one-shot) modifier.
    StickyMod(String),
    /// Caps Word behaviour.
    CapsWord,
    /// A token that was not interpreted.
    Raw(String),
}

/// The abstract value of a [`KeyAction`], with strings taken as characters.
pub enum KeyActionView {
    Simple(Seq<char>),
    Transparent,
    NoOp,
    LayerMomentary(u8),
    LayerToggle(u8),
    LayerOn(u8),
    ModTap { mod_name: Seq<char>, key: Box<KeyActionView> },
    LayerTap { layer: u8, key: Box<KeyActionView> },
    StickyMod(Seq<char>),
    CapsWord,
    Raw(Seq<char>),
}

/// The abstract value of a key action.
pub open spec fn action_view(a: KeyAction) -> KeyActionView
    decreases a,
{
    match a {
        KeyAction::Simple(s) => KeyActionView::Simple(s@),
        KeyAction::Transparent => KeyActionView::Transparent,
        KeyAction::NoOp => KeyActionView::NoOp,
        KeyAction::LayerMomentary(l) => KeyActionView::LayerMomentary(l),
        KeyAction::LayerToggle(l) => KeyActionView::LayerToggle(l),
        KeyAction::LayerOn(l) => KeyActionView::LayerOn(l),
        KeyAction::ModTap { mod_name, key } => KeyActionView::ModTap {
            mod_name: mod_name@,
            key: Box::new(action_view(*key)),
        },
        KeyAction::LayerTap { layer, key } => KeyActionView::LayerTap {
            layer,
            key: Box::new(action_view(*key)),
        },
        KeyAction::StickyMod(s) => KeyActionView::StickyMod(s@),
        KeyAction::CapsWord => KeyActionView::CapsWord,
        KeyAction::Raw(s) => KeyActionView::Raw(s@),
    }
}

impl View for KeyAction {
    type V = KeyActionView;

    open spec fn view(&self) -> KeyActionView {
        action_view(*self)
    }
}

/// `s` starts with `p`.
pub open spec fn has_prefix(s: Seq<char>, p: Seq<char>) -> bool {
    p.len() <= s.len() && s.subrange(0, p.len() as int) == p
}

/// `s` ends with `p`.
pub open spec fn has_suffix(s: Seq<char>, p: Seq<char>) -> bool {
    p.len() <= s.len() && s.subrange(s.len() - p.len(), s.len() as int) == p
}

/// The value of a decimal digit character.
pub open spec fn digit_value(c: char) -> int {
    (c as u32) - ('0' as u32)
}

/// `c` is an ASCII decimal digit.
pub open spec fn is_ascii_digit(c: char) -> bool {
    '0' <= c && c <= '9'
}

/// Every character of `s` is an ASCII decimal digit.
pub open spec fn all_ascii_digits(s: Seq<char>) -> bool {
    forall|i: int| 0 <= i < s.len() ==> is_ascii_digit(#[trigger] s[i])
}

/// The number written by the decimal digits `s`.
pub open spec fn decimal_value(s: Seq<char>) -> int
    decreases s.len(),
{
    if s.len() == 0 {
        0
    } else {
        10 * decimal_value(s.drop_last()) + digit_value(s.last())
    }
}

/// The digits of an unsigned number as `from_str` reads them: an optional leading `+` removed.
pub open spec fn unsigned_digits(s: Seq<char>) -> Seq<char> {
    if s.len() > 0 && s[0] == '+' { s.drop_first() } else { s }
}

/// Unsigned `from_str` with largest value `max`: an optional `+`, then one or more ASCII
/// digits whose value is at most `max`.
pub open spec fn parse_unsigned_spec(s: Seq<char>, max: int) -> Option<int> {
    let d = unsigned_digits(s);
    if d.len() > 0 && all_ascii_digits(d) && decimal_value(d) <= max {
        Some(decimal_value(d))
    } else {
        None
    }
}

/// `u8::from_str`.
pub open spec fn parse_u8_spec(s: Seq<char>) -> Option<u8> {
    match parse_unsigned_spec(s, 255) {
        Some(v) => Some(v as u8),
        None => None,
    }
}

/// `u16::from_str`.
pub open spec fn parse_u16_spec(s: Seq<char>) -> Option<u16> {
    match parse_unsigned_spec(s, 65535) {
        Some(v) => Some(v as u16),
        None => None,
    }
}

/// `+1` for `(`, `-1` for `)`, `0` otherwise.
pub open spec fn paren_delta(c: char) -> int {
    if c == '(' {
        1
    } else if c == ')' {
        -1
    } else {
        0
    }
}

/// Opening minus closing parentheses in `s`.
pub open spec fn paren_balance(s: Seq<char>) -> int
    decreases s.len(),
{
    if s.len() == 0 {
        0
    } else {
        paren_balance(s.drop_last()) + paren_delta(s.last())
    }
}

/// Position `i` of `s` holds a comma outside any parentheses.
pub open spec fn is_split_point(s: Seq<char>, i: int) -> bool {
    0 <= i < s.len() && s[i] == ',' && paren_balance(s.take(i)) == 0
}

/// The first split point of `s` at or after `k`.
pub open spec fn split_point_from(s: Seq<char>, k: int) -> Option<int>
    decreases s.len() - k,
{
    if k < 0 || k >= s.len() {
        None
    } else if is_split_point(s, k) {
        Some(k)
    } else {
        split_point_from(s, k + 1)
    }
}

/// The two halves of `s` around its first comma outside parentheses.
pub open spec fn split_args_spec(s: Seq<char>) -> Option<(Seq<char>, Seq<char>)> {
    match split_point_from(s, 0) {
        Some(i) => Some((s.take(i), s.skip(i + 1))),
        None => None,
    }
}

/// `NAME(ARGS)`: the trimmed name before the first `(` and the text up to the final `)`.
pub open spec fn function_call_spec(s: Seq<char>) -> Option<(Seq<char>, Seq<char>)> {
    match first_index_of(s, '(') {
        Some(idx) => if s.len() > 0 && s.last() == ')' {
            Some((trim(s.take(idx)), s.subrange(idx + 1, s.len() - 1)))
        } else {
            None
        },
        None => None,
    }
}

/// `s` with every trailing `_T` removed (`str::trim_end_matches("_T")`).
pub open spec fn strip_t_suffixes(s: Seq<char>) -> Seq<char>
    decreases s.len(),
{
    if s.len() >= 2 && s[s.len() - 2] == '_' && s[s.len() - 1] == 'T' {
        strip_t_suffixes(s.subrange(0, s.len() - 2))
    } else {
        s
    }
}

/// Every character of `s` is alphanumeric or `_`.
pub open spec fn all_key_chars(s: Seq<char>) -> bool {
    forall|i: int| 0 <= i < s.len() ==> is_unicode_alphanumeric(#[trigger] s[i]) || s[i] == '_'
}

/// The action of a token that is neither a keyword nor a recognised call.
pub open spec fn fallback_spec(t: Seq<char>, upper: Seq<char>) -> KeyActionView {
    if t.contains('(') || t.contains(')') {
        KeyActionView::Raw(t)
    } else if !has_prefix(upper, "KC_"@) && all_key_chars(upper) {
        KeyActionView::Simple("KC_"@ + upper)
    } else {
        KeyActionView::Simple(t)
    }
}

/// The action of a recognised `NAME(ARGS)` call on the upper-cased token, if any;
/// nested tokens are parsed with one level less of nesting allowed.
pub open spec fn call_spec(upper: Seq<char>, depth: nat) -> Option<KeyActionView>
    decreases depth, 0nat,
{
    match function_call_spec(upper) {
        None => None,
        Some((name, args)) => {
            if name == "MO"@ {
                match parse_u8_spec(args) {
                    Some(l) => Some(KeyActionView::LayerMomentary(l)),
                    None => None,
                }
            } else if name == "TG"@ {
                match parse_u8_spec(args) {
                    Some(l) => Some(KeyActionView::LayerToggle(l)),
                    None => None,
                }
            } else if name == "TO"@ {
                match parse_u8_spec(args) {
                    Some(l) => Some(KeyActionView::LayerOn(l)),
                    None => None,
                }
            } else if name == "LT"@ {
                match split_args_spec(args) {
                    Some((layer_str, key_str)) => match parse_u8_spec(trim(layer_str)) {
                        Some(layer) => Some(
                            KeyActionView::LayerTap {
                                layer,
                                key: Box::new(
                                    if depth == 0 {
                                        KeyActionView::Raw(trim(key_str))
                                    } else {
                                        parse_key_spec(key_str, (depth - 1) as nat)
                                    },
                                ),
                            },
                        ),
                        None => None,
                    },
                    None => None,
                }
            } else if name == "MT"@ {
                match split_args_spec(args) {
                    Some((mod_str, key_str)) => Some(
                        KeyActionView::ModTap {
                            mod_name: trim(mod_str),
                            key: Box::new(
                                if depth == 0 {
                                    KeyActionView::Raw(trim(key_str))
                                } else {
                                    parse_key_spec(key_str, (depth - 1) as nat)
                                },
                            ),
                        },
                    ),
                    None => None,
                }
            } else if name == "SK"@ || name == "OSM"@ {
                Some(KeyActionView::StickyMod(trim(args)))
            } else if has_suffix(name, "_T"@) {
                Some(
                    KeyActionView::ModTap {
                        mod_name: strip_t_suffixes(name),
                        key: Box::new(
                            if depth == 0 {
                                KeyActionView::Raw(trim(args))
                            } else {
                                parse_key_spec(args, (depth - 1) as nat)
                            },
                        ),
                    },
                )
            } else {
                None
            }
        },
    }
}

/// The action of the trimmed token `t` whose upper-cased form is `upper`: a keyword,
/// a recognised call (nested tokens followed `depth` levels deep), or the fallback.
pub open spec fn upper_token_spec(t: Seq<char>, upper: Seq<char>, depth: nat) -> KeyActionView
    decreases depth, 1nat,
{
    if upper == "TRNS"@ || upper == "_______"@ || upper == "_"@ {
        KeyActionView::Transparent
    } else if upper == "NO"@ || upper == "XXXXXXX"@ || upper == "XXX"@ {
        KeyActionView::NoOp
    } else if upper == "CAPS_WORD"@ || upper == "CW"@ {
        KeyActionView::CapsWord
    } else {
        match call_spec(upper, depth) {
            Some(a) => a,
            None => fallback_spec(t, upper),
        }
    }
}

/// The action of `token`, following nested calls `depth` levels deep.
pub open spec fn parse_key_spec(token: Seq<char>, depth: nat) -> KeyActionView
    decreases depth, 2nat,
{
    let t = trim(token);
    if encode_utf8(t).len() > KEY_TOKEN_MAX_BYTES {
        KeyActionView::Raw(t)
    } else {
        upper_token_spec(t, unicode_upper(t), depth)
    }
}

/// The keywords are read from the upper-cased token alone: `TRNS`, `_______` and `_`
/// are transparent, `NO`, `XXXXXXX` and `XXX` do nothing, and `CAPS_WORD` and `CW`
/// toggle caps word, whatever the original token and the nesting allowed.
pub proof fn lemma_upper_keywords(t: Seq<char>, upper: Seq<char>, depth: nat)
    ensures
        (upper == "TRNS"@ || upper == "_______"@ || upper == "_"@)
            ==> upper_token_spec(t, upper, depth) == KeyActionView::Transparent,
        (upper == "NO"@ || upper == "XXXXXXX"@ || upper == "XXX"@)
            ==> upper_token_spec(t, upper, depth) == KeyActionView::NoOp,
        (upper == "CAPS_WORD"@ || upper == "CW"@)
            ==> upper_token_spec(t, upper, depth) == KeyActionView::CapsWord,
{
    reveal_strlit("TRNS");
    reveal_strlit("_______");
    reveal_strlit("_");
    reveal_strlit("NO");
    reveal_strlit("XXXXXXX");
    reveal_strlit("XXX");
    reveal_strlit("CAPS_WORD");
    reveal_strlit("CW");
}

/// A token that is not too long and whose trimmed, upper-cased form is a keyword
/// parses to that keyword's action: `TRNS`, `_______` and `_` are transparent, `NO`,
/// `XXXXXXX` and `XXX` do nothing, `CAPS_WORD` and `CW` toggle caps word.
pub proof fn lemma_parse_keywords(token: Seq<char>, depth: nat)
    requires
        encode_utf8(trim(token)).len() <= KEY_TOKEN_MAX_BYTES,
    ensures
        ({
            let upper = unicode_upper(trim(token));
            &&& (upper == "TRNS"@ || upper == "_______"@ || upper == "_"@)
                ==> parse_key_spec(token, depth) == KeyActionView::Transparent
            &&& (upper == "NO"@ || upper == "XXXXXXX"@ || upper == "XXX"@)
                ==> parse_key_spec(token, depth) == KeyActionView::NoOp
            &&& (upper == "CAPS_WORD"@ || upper == "CW"@)
                ==> parse_key_spec(token, depth) == KeyActionView::CapsWord
        }),
{
    lemma_upper_keywords(trim(token), unicode_upper(trim(token)), depth);
}

/// Whether the characters `s` spell the literal `lit`.
fn is_literal(s: &[char], lit: &str) -> (r: bool)
    ensures
        r == (s@ == lit@),
{
    let l = chars_of(lit);
    chars_eq(s, &l)
}

/// Parses an unsigned decimal number of at most `max`, the way `str::parse` does for
/// unsigned integer types.
pub fn parse_unsigned_chars(s: &[char], max: u32) -> (r: Option<u32>)
    ensures
        match r {
            Some(v) => parse_unsigned_spec(s@, max as int) == Some(v as int),
            None => parse_unsigned_spec(s@, max as int) is None,
        },
{
    let n = s.len();
    let start: usize = if n > 0 && s[0] == '+' { 1 } else { 0 };
    let ghost d = unsigned_digits(s@);
    assert(d =~= s@.skip(start as int));
    if start >= n {
        return None;
    }
    let mut acc: u64 = 0;
    let mut too_big = false;
    let mut i: usize = start;
    while i < n
        invariant
            start <= i <= n,
            n == s@.len(),
            d =~= s@.skip(start as int),
            d == unsigned_digits(s@),
            all_ascii_digits(s@.subrange(start as int, i as int)),
            too_big ==> decimal_value(s@.subrange(start as int, i as int)) > max,
            !too_big ==> acc == decimal_value(s@.subrange(start as int, i as int)) && acc <= max,
        decreases n - i,
    {
        let c = s[i];
        proof {
            let p = s@.subrange(start as int, i + 1);
            assert(p.drop_last() =~= s@.subrange(start as int, i as int));
            assert(p.last() == c);
        }
        if !('0' <= c && c <= '9') {
            assert(!all_ascii_digits(d)) by {
                assert(d[i - start] == c);
                assert(!is_ascii_digit(d[i - start]));
            }
            return None;
        }
        let dv = ((c as u32) - ('0' as u32)) as u64;
        if !too_big {
            acc = acc * 10 + dv;
            if acc > max as u64 {
                too_big = true;
            }
        }
        i += 1;
    }
    assert(s@.subrange(start as int, n as int) =~= d);
    if too_big {
        None
    } else {
        Some(acc as u32)
    }
}

/// Parses a `u8` the way `str::parse::<u8>` does.
pub fn parse_u8_chars(s: &[char]) -> (r: Option<u8>)
    ensures
        r == parse_u8_spec(s@),
{
    match parse_unsigned_chars(s, 255) {
        Some(v) => Some(v as u8),
        None => None,
    }
}

/// Parses a `u16` the way `str::parse::<u16>` does.
pub fn parse_u16_chars(s: &[char]) -> (r: Option<u16>)
    ensures
        r == parse_u16_spec(s@),
{
    match parse_unsigned_chars(s, 65535) {
        Some(v) => Some(v as u16),
        None => None,
    }
}

/// Splits `s` at its first comma outside parentheses.
fn split_args_chars(s: &[char]) -> (r: Option<(Vec<char>, Vec<char>)>)
    ensures
        match r {
            Some((a, b)) => split_args_spec(s@) == Some((a@, b@)),
            None => split_args_spec(s@) is None,
        },
{
    let n = s.len();
    let mut opens: usize = 0;
    let mut closes: usize = 0;
    let mut i: usize = 0;
    while i < n
        invariant
            i <= n,
            n == s@.len(),
            opens <= i,
            closes <= i,
            opens - closes == paren_balance(s@.take(i as int)),
            split_point_from(s@, 0) == split_point_from(s@, i as int),
        decreases n - i,
    {
        let c = s[i];
        proof {
            assert(s@.take(i + 1).drop_last() =~= s@.take(i as int));
            assert(s@.take(i + 1).last() == c);
        }
        if c == ',' && opens == closes {
            let first = sub_chars(s, 0, i);
            let second = sub_chars(s, i + 1, n);
            assert(first@ =~= s@.take(i as int));
            assert(second@ =~= s@.skip(i + 1));
            return Some((first, second));
        }
        if c == '(' {
            opens += 1;
        } else if c == ')' {
            closes += 1;
        }
        i += 1;
    }
    None
}

/// Splits arguments at the first comma that is not inside parentheses.
pub fn split_args_safe(s: &str) -> (r: Option<(String, String)>)
    ensures
        match r {
            Some((a, b)) => split_args_spec(s@) == Some((a@, b@)),
            None => split_args_spec(s@) is None,
        },
{
    let cs = chars_of(s);
    match split_args_chars(&cs) {
        Some((a, b)) => Some((string_from_chars(&a), string_from_chars(&b))),
        None => None,
    }
}

/// Splits `NAME(ARGS)` into the trimmed name and the argument text.
fn function_call_chars(s: &[char]) -> (r: Option<(Vec<char>, Vec<char>)>)
    ensures
        match r {
            Some((a, b)) => function_call_spec(s@) == Some((a@, b@)),
            None => function_call_spec(s@) is None,
        },
{
    match find_char(s, '(') {
        Some(idx) => {
            let n = s.len();
            if n > 0 && s[n - 1] == ')' {
                let name = sub_chars(s, 0, idx);
                let name = trim_chars(&name);
                let args = sub_chars(s, idx + 1, n - 1);
                assert(s@.take(idx as int) =~= s@.subrange(0, idx as int));
                Some((name, args))
            } else {
                None
            }
        },
        None => None,
    }
}

/// Extracts `NAME` and `ARGS` from `NAME(ARGS)`.
pub fn parse_function_call(s: &str) -> (r: Option<(String, String)>)
    ensures
        match r {
            Some((a, b)) => function_call_spec(s@) == Some((a@, b@)),
            None => function_call_spec(s@) is None,
        },
{
    let cs = chars_of(s);
    match function_call_chars(&cs) {
        Some((a, b)) => Some((string_from_chars(&a), string_from_chars(&b))),
        None => None,
    }
}

/// Removes every trailing `_T` from `s`.
fn strip_t_suffixes_chars(s: &[char]) -> (r: Vec<char>)
    ensures
        r@ == strip_t_suffixes(s@),
{
    let mut end: usize = s.len();
    assert(s@.subrange(0, s@.len() as int) =~= s@);
    while end >= 2 && s[end - 2] == '_' && s[end - 1] == 'T'
        invariant
            end <= s@.len(),
            strip_t_suffixes(s@.subrange(0, end as int)) == strip_t_suffixes(s@),
        decreases end,
    {
        proof {
            let p = s@.subrange(0, end as int);
            assert(p.subrange(0, p.len() - 2) =~= s@.subrange(0, end - 2));
        }
        end -= 2;
    }
    sub_chars(s, 0, end)
}

/// Every character is alphanumeric or `_`.
fn all_key_chars_exec(s: &[char]) -> (r: bool)
    ensures
        r == all_key_chars(s@),
{
    let mut i: usize = 0;
    while i < s.len()
        invariant
            i <= s@.len(),
            forall|j: int| 0 <= j < i ==> is_unicode_alphanumeric(#[trigger] s@[j]) || s@[j] == '_',
        decreases s.len() - i,
    {
        if !(char_is_alphanumeric(s[i]) || s[i] == '_') {
            return false;
        }
        i += 1;
    }
    true
}

/// The action of a token that is neither a keyword nor a recognised call.
fn fallback_chars(t: &[char], upper: &[char]) -> (r: KeyAction)
    ensures
        r@ == fallback_spec(t@, upper@),
{
    if contains_char(t, '(') || contains_char(t, ')') {
        return KeyAction::Raw(string_from_chars(t));
    }
    let kc = chars_of("KC_");
    if !starts_with_chars(upper, &kc) && all_key_chars_exec(upper) {
        let v = concat_chars(&kc, upper);
        return KeyAction::Simple(string_from_chars(&v));
    }
    KeyAction::Simple(string_from_chars(t))
}

/// Parses a nested token, or keeps it raw once the nesting limit is reached.
fn parse_nested(s: &[char], depth: u32) -> (r: KeyAction)
    ensures
        r@ == (if depth == 0 {
            KeyActionView::Raw(trim(s@))
        } else {
            parse_key_spec(s@, (depth - 1) as nat)
        }),
    decreases depth, 0nat,
{
    if depth == 0 {
        KeyAction::Raw(string_from_chars(&trim_chars(s)))
    } else {
        parse_key_chars(s, depth - 1)
    }
}

/// The action of a recognised call on the upper-cased token, if any.
fn parse_call(upper: &[char], depth: u32) -> (r: Option<KeyAction>)
    ensures
        match r {
            Some(a) => call_spec(upper@, depth as nat) == Some(a@),
            None => call_spec(upper@, depth as nat) is None,
        },
    decreases depth, 1nat,
{
    let (name, args) = match function_call_chars(upper) {
        Some(p) => p,
        None => return None,
    };
    if is_literal(&name, "MO") {
        return match parse_u8_chars(&args) {
            Some(l) => Some(KeyAction::LayerMomentary(l)),
            None => None,
        };
    }
    if is_literal(&name, "TG") {
        return match parse_u8_chars(&args) {
            Some(l) => Some(KeyAction::LayerToggle(l)),
            None => None,
        };
    }
    if is_literal(&name, "TO") {
        return match parse_u8_chars(&args) {
            Some(l) => Some(KeyAction::LayerOn(l)),
            None => None,
        };
    }
    if is_literal(&name, "LT") {
        return match split_args_chars(&args) {
            Some((layer_str, key_str)) => match parse_u8_chars(&trim_chars(&layer_str)) {
                Some(layer) => {
                    let key = parse_nested(&key_str, depth);
                    Some(KeyAction::LayerTap { layer, key: Box::new(key) })
                },
                None => None,
            },
            None => None,
        };
    }
    if is_literal(&name, "MT") {
        return match split_args_chars(&args) {
            Some((mod_str, key_str)) => {
                let key = parse_nested(&key_str, depth);
                let mod_name = string_from_chars(&trim_chars(&mod_str));
                Some(KeyAction::ModTap { mod_name, key: Box::new(key) })
            },
            None => None,
        };
    }
    if is_literal(&name, "SK") || is_literal(&name, "OSM") {
        return Some(KeyAction::StickyMod(string_from_chars(&trim_chars(&args))));
    }
    let suffix = chars_of("_T");
    if ends_with_chars(&name, &suffix) {
        let mod_name = string_from_chars(&strip_t_suffixes_chars(&name));
        let key = parse_nested(&args, depth);
        return Some(KeyAction::ModTap { mod_name, key: Box::new(key) });
    }
    None
}

/// Parses the trimmed token `t` given with its upper-cased form `upper` (the form in
/// which keywords and calls are recognised), following nested calls `depth` levels deep.
pub fn parse_key_upper(t: &[char], upper: &[char], depth: u32) -> (r: KeyAction)
    ensures
        r@ == upper_token_spec(t@, upper@, depth as nat),
    decreases depth, 2nat,
{
    if is_literal(upper, "TRNS") || is_literal(upper, "_______") || is_literal(upper, "_") {
        return KeyAction::Transparent;
    }
    if is_literal(upper, "NO") || is_literal(upper, "XXXXXXX") || is_literal(upper, "XXX") {
        return KeyAction::NoOp;
    }
    if is_literal(upper, "CAPS_WORD") || is_literal(upper, "CW") {
        return KeyAction::CapsWord;
    }
    match parse_call(upper, depth) {
        Some(a) => a,
        None => fallback_chars(t, upper),
    }
}

/// Parses a token given as characters, following nested calls `depth` levels deep.
pub fn parse_key_chars(token: &[char], depth: u32) -> (r: KeyAction)
    ensures
        r@ == parse_key_spec(token@, depth as nat),
    decreases depth, 3nat,
{
    let t = trim_chars(token);
    if utf8_len_exceeds(&t, KEY_TOKEN_MAX_BYTES) {
        return KeyAction::Raw(string_from_chars(&t));
    }
    let t_str = string_from_chars(&t);
    let upper_str = to_upper(t_str.as_str());
    let upper = chars_of(upper_str.as_str());
    parse_key_upper(&t, &upper, depth)
}

/// Parses a keymap token into a [`KeyAction`].
///
/// The token is trimmed; a token longer than [`KEY_TOKEN_MAX_BYTES`] bytes is kept raw.
/// Keywords (`TRNS`, `NO`, `CW`, ...) and calls (`MO(n)`, `TG(n)`, `TO(n)`,
/// `LT(layer, key)`, `MT(mod, key)`, `SK(mod)`, `OSM(mod)`, `MOD_T(key)`) are recognised
/// case-insensitively; the key of a call is parsed in turn. Other tokens with
/// parentheses are raw; a plain alphanumeric token gets the `KC_` prefix. Nested calls
/// are followed [`KEY_NESTING_LIMIT`] levels deep, beyond which a key is kept raw.
pub fn parse_key(token: &str) -> (r: KeyAction)
    ensures
        r@ == parse_key_spec(token@, KEY_NESTING_LIMIT as nat),
{
    let cs = chars_of(token);
    parse_key_chars(&cs, KEY_NESTING_LIMIT)
}

} // verus!
