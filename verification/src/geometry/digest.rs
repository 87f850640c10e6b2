//! Byte encoding of a keyboard geometry and its SHA-256 fingerprint.
//!
//! Every field enters the digest as its little-endian bytes, in declaration
//! order; the digest is rendered as lowercase hexadecimal.

use vstd::prelude::*;
use sha2::{Digest, Sha256};
use crate::geometry::{KeyNode, KeyboardGeometry};
use crate::types::KeyIndex;

verus! {

/// Little-endian bytes of a `u16`.
pub open spec fn le_u16(v: u16) -> Seq<u8> {
    seq![(v % 256) as u8, (v / 256) as u8]
}

/// Little-endian bytes of a `u32`.
pub open spec fn le_u32(v: u32) -> Seq<u8> {
    seq![
        (v % 256) as u8,
        ((v / 256) % 256) as u8,
        ((v / 65536) % 256) as u8,
        (v / 16777216) as u8,
    ]
}

/// Little-endian (two's complement) bytes of an `i32`.
pub open spec fn le_i32(v: i32) -> Seq<u8> {
    le_u32(v as u32)
}

/// The single byte of an `i8` (two's complement).
pub open spec fn byte_i8(v: i8) -> u8 {
    v as u8
}

/// The byte of a flag: 1 for true, 0 for false.
pub open spec fn byte_bool(b: bool) -> u8 {
    if b { 1 } else { 0 }
}

/// The bytes one key contributes to the digest.
pub open spec fn key_bytes(k: KeyNode) -> Seq<u8> {
    le_u16(k.index.0) + le_i32(k.x@) + le_i32(k.y@) + le_u32(k.w_bits) + le_u32(k.h_bits)
        + seq![k.hand@, k.finger@, byte_i8(k.row@), byte_i8(k.col@), byte_bool(k.is_home), byte_bool(k.is_stretch)]
        + le_u32(k.r_bits) + le_i32(k.rx@) + le_i32(k.ry@)
}

/// The bytes of a sequence of keys, key after key.
pub open spec fn keys_bytes(keys: Seq<KeyNode>) -> Seq<u8>
    decreases keys.len(),
{
    if keys.len() == 0 {
        Seq::empty()
    } else {
        keys_bytes(keys.drop_last()) + key_bytes(keys.last())
    }
}

/// The bytes of a sequence of slot indices.
pub open spec fn slots_bytes(slots: Seq<KeyIndex>) -> Seq<u8>
    decreases slots.len(),
{
    if slots.len() == 0 {
        Seq::empty()
    } else {
        slots_bytes(slots.drop_last()) + le_u16(slots.last().0)
    }
}

/// Everything the geometry digest covers: keys, the three slot tiers, then the home row.
pub open spec fn geometry_bytes(g: KeyboardGeometry) -> Seq<u8> {
    keys_bytes(g.keys@) + slots_bytes(g.prime_slots@) + slots_bytes(g.med_slots@)
        + slots_bytes(g.low_slots@) + seq![byte_i8(g.home_row@)]
}

/// The SHA-256 digest of a byte sequence, as computed by the `sha2` crate.
pub uninterp spec fn sha256_spec(data: Seq<u8>) -> Seq<u8>;

/// The hexadecimal digit for a value below 16, lowercase.
pub open spec fn hex_digit(n: int) -> char {
    if n < 10 {
        (('0' as int) + n) as char
    } else {
        (('a' as int) + n - 10) as char
    }
}

/// Lowercase hexadecimal rendering of bytes: two digits per byte, high nibble first.
pub open spec fn hex_lower(data: Seq<u8>) -> Seq<char>
    decreases data.len(),
{
    if data.len() == 0 {
        Seq::empty()
    } else {
        hex_lower(data.drop_last()) + seq![hex_digit((data.last() / 16) as int), hex_digit((data.last() % 16) as int)]
    }
}

/// `Sha256::digest` from the `sha2` crate. The digest is named by `sha256_spec`;
/// the contract adds only that it is 32 bytes long (the crate's output size).
#[verifier::external_body]
fn sha256(data: &[u8]) -> (r: Vec<u8>)
    ensures
        r@ == sha256_spec(data@),
        r@.len() == 32,
{
    Sha256::digest(data).to_vec()
}

/// `hex::encode` from the `hex` crate: each byte becomes two lowercase
/// hexadecimal digits, high nibble first.
#[verifier::external_body]
fn hex_encode(data: &[u8]) -> (r: String)
    ensures
        r@ == hex_lower(data@),
{
    hex::encode(data)
}

/// Appends the little-endian bytes of a `u16`.
fn push_u16(out: &mut Vec<u8>, v: u16)
    ensures
        final(out)@ == old(out)@ + le_u16(v),
{
    out.push((v % 256) as u8);
    out.push((v / 256) as u8);
    assert(final(out)@ =~= old(out)@ + le_u16(v));
}

/// Appends the little-endian bytes of a `u32`.
fn push_u32(out: &mut Vec<u8>, v: u32)
    ensures
        final(out)@ == old(out)@ + le_u32(v),
{
    out.push((v % 256) as u8);
    out.push(((v / 256) % 256) as u8);
    out.push(((v / 65536) % 256) as u8);
    out.push((v / 16777216) as u8);
    assert(final(out)@ =~= old(out)@ + le_u32(v));
}

/// Appends the bytes of one key.
fn push_key(out: &mut Vec<u8>, k: &KeyNode)
    ensures
        final(out)@ == old(out)@ + key_bytes(*k),
{
    push_u16(out, k.index.0);
    push_u32(out, k.x.raw() as u32);
    push_u32(out, k.y.raw() as u32);
    push_u32(out, k.w_bits);
    push_u32(out, k.h_bits);
    out.push(k.hand.as_u8());
    out.push(k.finger.as_u8());
    out.push(k.row.raw() as u8);
    out.push(k.col.raw() as u8);
    out.push(if k.is_home { 1 } else { 0 });
    out.push(if k.is_stretch { 1 } else { 0 });
    push_u32(out, k.r_bits);
    push_u32(out, k.rx.raw() as u32);
    push_u32(out, k.ry.raw() as u32);
    assert(final(out)@ =~= old(out)@ + key_bytes(*k));
}

/// Appends the bytes of a slot list.
fn push_slots(out: &mut Vec<u8>, slots: &Vec<KeyIndex>)
    ensures
        final(out)@ == old(out)@ + slots_bytes(slots@),
{
    let ghost start = out@;
    let mut i: usize = 0;
    assert(slots@.take(0) =~= Seq::<KeyIndex>::empty());
    while i < slots.len()
        invariant
            i <= slots@.len(),
            out@ == start + slots_bytes(slots@.take(i as int)),
        decreases slots.len() - i,
    {
        proof {
            assert(slots@.take(i + 1).drop_last() =~= slots@.take(i as int));
        }
        push_u16(out, slots[i].0);
        i += 1;
        assert(out@ =~= start + slots_bytes(slots@.take(i as int)));
    }
    assert(slots@.take(slots@.len() as int) =~= slots@);
}

/// The bytes covered by the geometry digest.
pub fn geometry_bytes_exec(g: &KeyboardGeometry) -> (r: Vec<u8>)
    ensures
        r@ == geometry_bytes(*g),
{
    let mut out: Vec<u8> = Vec::new();
    let mut i: usize = 0;
    assert(g.keys@.take(0) =~= Seq::<KeyNode>::empty());
    while i < g.keys.len()
        invariant
            i <= g.keys@.len(),
            out@ == keys_bytes(g.keys@.take(i as int)),
        decreases g.keys.len() - i,
    {
        proof {
            assert(g.keys@.take(i + 1).drop_last() =~= g.keys@.take(i as int));
        }
        push_key(&mut out, &g.keys[i]);
        i += 1;
        assert(out@ =~= keys_bytes(g.keys@.take(i as int)));
    }
    assert(g.keys@.take(g.keys@.len() as int) =~= g.keys@);
    push_slots(&mut out, &g.prime_slots);
    push_slots(&mut out, &g.med_slots);
    push_slots(&mut out, &g.low_slots);
    out.push(g.home_row.raw() as u8);
    assert(out@ =~= geometry_bytes(*g));
    out
}

/// The fingerprint of a geometry: lowercase hex of the SHA-256 of its bytes.
pub fn geometry_fingerprint(g: &KeyboardGeometry) -> (r: String)
    ensures
        r@ == hex_lower(sha256_spec(geometry_bytes(*g))),
        r@.len() == 64,
{
    let bytes = geometry_bytes_exec(g);
    let digest = sha256(&bytes);
    let r = hex_encode(&digest);
    proof {
        lemma_hex_lower_len(digest@);
    }
    r
}

/// Hex rendering doubles the length.
pub proof fn lemma_hex_lower_len(data: Seq<u8>)
    ensures
        hex_lower(data).len() == 2 * data.len(),
    decreases data.len(),
{
    if data.len() > 0 {
        lemma_hex_lower_len(data.drop_last());
    }
}

} // verus!
