//! Helpers for command-line settings.

use vstd::prelude::*;
use vstd::string::*;
use crate::text::{chars_of, find_char, first_index_of, string_from_chars, sub_chars};

verus! {

/// The key and the value text of `KEY=VALUE`, split at the first `=`; the error when
/// there is no `=` or the key is empty.
pub open spec fn key_val_split(s: Seq<char>) -> Result<(Seq<char>, Seq<char>), Seq<char>> {
    match first_index_of(s, '=') {
        None => Err("invalid KEY=VALUE: no '=' found in '"@ + s + "'"@),
        Some(p) => if p == 0 {
            Err("invalid KEY=VALUE: empty key"@)
        } else {
            Ok((s.subrange(0, p), s.subrange(p + 1, s.len() as int)))
        },
    }
}

/// Splits `KEY=VALUE` at the first `=` into the key and the text of the value, which
/// the caller then parses as a number.
pub fn split_key_val(s: &str) -> (r: Result<(String, String), String>)
    ensures
        match key_val_split(s@) {
            Ok(kv) => r matches Ok(p) && p.0@ == kv.0 && p.1@ == kv.1,
            Err(m) => r matches Err(e) && e@ == m,
        },
{
    let cs = chars_of(s);
    match find_char(cs.as_slice(), '=') {
        None => {
            let mut m = String::from_str("invalid KEY=VALUE: no '=' found in '");
            m.append(s);
            m.append("'");
            Err(m)
        },
        Some(p) => {
            if p == 0 {
                return Err(String::from_str("invalid KEY=VALUE: empty key"));
            }
            let key = sub_chars(cs.as_slice(), 0, p);
            let val = sub_chars(cs.as_slice(), p + 1, cs.len());
            Ok((string_from_chars(key.as_slice()), string_from_chars(val.as_slice())))
        },
    }
}

} // verus!
