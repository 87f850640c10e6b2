//! Comma-separated lists in configuration strings.

use vstd::prelude::*;
use vstd::utf8::encode_utf8;
use crate::text::{chars_of, string_from_chars, trim, trim_chars};

verus! {

/// The pieces of `s` between separators `sep` (`str::split`): always at least one,
/// possibly empty.
pub open spec fn split_pieces(s: Seq<char>, sep: char) -> Seq<Seq<char>>
    decreases s.len(),
{
    if s.len() == 0 {
        seq![Seq::empty()]
    } else {
        let p = split_pieces(s.drop_last(), sep);
        if s.last() == sep {
            p.push(Seq::empty())
        } else {
            p.update(p.len() - 1, p.last().push(s.last()))
        }
    }
}

/// The byte sequences of a list of byte vectors.
pub open spec fn byte_views(v: Seq<Vec<u8>>) -> Seq<Seq<u8>> {
    v.map_values(|x: Vec<u8>| x@)
}

/// The UTF-8 bytes of each comma-separated piece, trimmed.
pub open spec fn trimmed_piece_bytes(pieces: Seq<Seq<char>>) -> Seq<Seq<u8>> {
    pieces.map_values(|p: Seq<char>| encode_utf8(trim(p)))
}

proof fn lemma_split_nonempty(s: Seq<char>, sep: char)
    ensures
        split_pieces(s, sep).len() >= 1,
    decreases s.len(),
{
    if s.len() > 0 {
        lemma_split_nonempty(s.drop_last(), sep);
    }
}

/// The trimmed UTF-8 bytes of each comma-separated piece of `s`, in order.
pub fn comma_piece_bytes(s: &str) -> (r: Vec<Vec<u8>>)
    ensures
        byte_views(r@) == trimmed_piece_bytes(split_pieces(s@, ',')),
{
    let cs = chars_of(s);
    let mut out: Vec<Vec<u8>> = Vec::new();
    let mut cur: Vec<char> = Vec::new();
    let ghost mut done: Seq<Seq<char>> = Seq::empty();
    let mut i: usize = 0;
    assert(cs@.take(0) =~= Seq::<char>::empty());
    assert(split_pieces(Seq::<char>::empty(), ',') =~= done.push(cur@));
    while i < cs.len()
        invariant
            cs@ == s@,
            i <= cs@.len(),
            split_pieces(cs@.take(i as int), ',') == done.push(cur@),
            byte_views(out@) == trimmed_piece_bytes(done),
        decreases cs.len() - i,
    {
        let c = cs[i];
        proof {
            assert(cs@.take(i + 1).drop_last() =~= cs@.take(i as int));
            assert(cs@.take(i + 1).last() == c);
        }
        if c == ',' {
            let piece = trim_chars(&cur);
            let text = string_from_chars(&piece);
            let bytes = crate::text::utf8_bytes(text.as_str());
            let ghost before = out@;
            out.push(bytes);
            proof {
                assert(bytes@ == encode_utf8(trim(cur@)));
                assert(byte_views(out@) =~= byte_views(before).push(bytes@));
                assert(trimmed_piece_bytes(done.push(cur@)) =~= trimmed_piece_bytes(done).push(encode_utf8(trim(cur@))));
                assert(byte_views(out@) =~= trimmed_piece_bytes(done.push(cur@)));
                done = done.push(cur@);
            }
            cur = Vec::new();
            proof {
                assert(split_pieces(cs@.take(i + 1), ',') =~= done.push(cur@));
            }
        } else {
            let ghost old_cur = cur@;
            cur.push(c);
            proof {
                assert(split_pieces(cs@.take(i + 1), ',') =~= done.push(cur@));
            }
        }
        i += 1;
    }
    assert(cs@.take(cs@.len() as int) =~= cs@);
    let piece = trim_chars(&cur);
    let text = string_from_chars(&piece);
    let bytes = crate::text::utf8_bytes(text.as_str());
    let ghost before = out@;
    out.push(bytes);
    proof {
        assert(bytes@ == encode_utf8(trim(cur@)));
        assert(byte_views(out@) =~= byte_views(before).push(bytes@));
        assert(trimmed_piece_bytes(done.push(cur@)) =~= trimmed_piece_bytes(done).push(encode_utf8(trim(cur@))));
        assert(byte_views(out@) =~= trimmed_piece_bytes(done.push(cur@)));
    }
    out
}

/// The two-byte pieces, as byte pairs.
pub open spec fn two_byte_pieces(pieces: Seq<Seq<u8>>) -> Seq<[u8; 2]>
    decreases pieces.len(),
{
    if pieces.len() == 0 {
        Seq::empty()
    } else {
        let rest = two_byte_pieces(pieces.drop_last());
        let b = pieces.last();
        if b.len() == 2 {
            rest.push([b[0], b[1]])
        } else {
            rest
        }
    }
}

/// The critical bigrams of a comma-separated list: each trimmed piece of exactly two
/// bytes, in order; other pieces are skipped.
pub fn critical_bigrams(s: &str) -> (r: Vec<[u8; 2]>)
    ensures
        r@ == two_byte_pieces(trimmed_piece_bytes(split_pieces(s@, ','))),
{
    let pieces = comma_piece_bytes(s);
    let ghost pv = byte_views(pieces@);
    let mut out: Vec<[u8; 2]> = Vec::new();
    let mut i: usize = 0;
    assert(pv.take(0) =~= Seq::<Seq<u8>>::empty());
    while i < pieces.len()
        invariant
            i <= pieces@.len(),
            pv == byte_views(pieces@),
            out@ == two_byte_pieces(pv.take(i as int)),
        decreases pieces.len() - i,
    {
        proof {
            assert(pv.take(i + 1).drop_last() =~= pv.take(i as int));
            assert(pv.take(i + 1).last() == pieces@[i as int]@);
        }
        let b = &pieces[i];
        if b.len() == 2 {
            out.push([b[0], b[1]]);
            proof {
                assert([b@[0], b@[1]] == [b[0 as int], b[1 as int]]);
            }
        }
        i += 1;
    }
    assert(pv.take(pieces@.len() as int) =~= pv);
    out
}

/// The finger pairs of a comma-separated list: each trimmed piece of exactly two bytes,
/// both at least `'0'`, as their offsets from `'0'`; other pieces are skipped.
pub open spec fn digit_pairs(pieces: Seq<Seq<u8>>) -> Seq<(u8, u8)>
    decreases pieces.len(),
{
    if pieces.len() == 0 {
        Seq::empty()
    } else {
        let rest = digit_pairs(pieces.drop_last());
        let b = pieces.last();
        if b.len() == 2 && b[0] >= 48 && b[1] >= 48 {
            rest.push(((b[0] - 48) as u8, (b[1] - 48) as u8))
        } else {
            rest
        }
    }
}

/// Parses a list of comfortable scissor finger pairs such as `21,23,34`.
pub fn comfortable_scissors(s: &str) -> (r: Vec<(u8, u8)>)
    ensures
        r@ == digit_pairs(trimmed_piece_bytes(split_pieces(s@, ','))),
{
    let pieces = comma_piece_bytes(s);
    let ghost pv = byte_views(pieces@);
    let mut out: Vec<(u8, u8)> = Vec::new();
    let mut i: usize = 0;
    assert(pv.take(0) =~= Seq::<Seq<u8>>::empty());
    while i < pieces.len()
        invariant
            i <= pieces@.len(),
            pv == byte_views(pieces@),
            out@ == digit_pairs(pv.take(i as int)),
        decreases pieces.len() - i,
    {
        proof {
            assert(pv.take(i + 1).drop_last() =~= pv.take(i as int));
            assert(pv.take(i + 1).last() == pieces@[i as int]@);
        }
        let b = &pieces[i];
        if b.len() == 2 && b[0] >= 48 && b[1] >= 48 {
            out.push((b[0] - 48, b[1] - 48));
        }
        i += 1;
    }
    assert(pv.take(pieces@.len() as int) =~= pv);
    out
}

} // verus!
