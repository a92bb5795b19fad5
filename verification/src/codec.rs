//! Byte encoding for the values the keyed store persists.
//!
//! Every pixel quantity lies in the coordinate range, so a signed value is
//! stored biased by [`MAX_COORD`] as an unsigned 64-bit little-endian word.
//! Decoding validates the range, so corrupt bytes are detected rather than
//! silently miscast.

use vstd::prelude::*;
use vstd::bytes::{
    lemma_auto_spec_u64_to_from_le_bytes, spec_u64_from_le_bytes, spec_u64_to_le_bytes,
    u64_from_le_bytes, u64_to_le_bytes,
};
use vstd::slice::slice_subrange;
use crate::geom::{in_coord, MAX_COORD};

verus! {

/// The eight bytes that stand for the coordinate `x`.
pub open spec fn spec_i64_to_le(x: i64) -> Seq<u8>
    recommends
        in_coord(x),
{
    spec_u64_to_le_bytes((x + MAX_COORD) as u64)
}

/// The coordinate eight bytes stand for, or `None` when they are out of
/// range.
pub open spec fn spec_i64_from_le(s: Seq<u8>) -> Option<i64>
    recommends
        s.len() == 8,
{
    let u = spec_u64_from_le_bytes(s);
    if u <= 2 * (MAX_COORD as u64) {
        Some((u - (MAX_COORD as u64)) as i64)
    } else {
        None
    }
}

/// Encoding a coordinate takes eight bytes and decodes back to itself.
pub proof fn lemma_i64_round_trip(x: i64)
    requires
        in_coord(x),
    ensures
        spec_i64_to_le(x).len() == 8,
        spec_i64_from_le(spec_i64_to_le(x)) == Some(x),
{
    lemma_auto_spec_u64_to_from_le_bytes();
}

/// Append the encoding of `x` to `buf`.
pub fn encode_i64_into(buf: &mut Vec<u8>, x: i64)
    requires
        in_coord(x),
    ensures
        final(buf)@ == old(buf)@ + spec_i64_to_le(x),
{
    let u: u64 = (x + MAX_COORD) as u64;
    let mut bytes = u64_to_le_bytes(u);
    buf.append(&mut bytes);
}

/// Decode the eight bytes of `b` starting at `start`.
pub fn decode_i64_at(b: &[u8], start: usize) -> (r: Option<i64>)
    requires
        start + 8 <= b@.len(),
    ensures
        r == spec_i64_from_le(b@.subrange(start as int, start as int + 8)),
        r matches Some(x) ==> in_coord(x),
{
    let blen = b.len();
    let chunk = slice_subrange(b, start, start + 8);
    let u = u64_from_le_bytes(chunk);
    if u <= 2 * (MAX_COORD as u64) {
        Some((u as i64) - MAX_COORD)
    } else {
        None
    }
}

/// The bytes that stand for the coordinate sequence `s`: the items in
/// order, eight bytes each.
pub open spec fn spec_i64s_to_le(s: Seq<i64>) -> Seq<u8>
    decreases s.len(),
{
    if s.len() == 0 {
        Seq::empty()
    } else {
        spec_i64s_to_le(s.drop_last()) + spec_i64_to_le(s.last())
    }
}

/// The coordinate sequence a byte string stands for, or `None` when its
/// length is not a multiple of eight or an item is out of range.
pub open spec fn spec_i64s_from_le(b: Seq<u8>) -> Option<Seq<i64>>
    decreases b.len(),
{
    if b.len() == 0 {
        Some(Seq::empty())
    } else if b.len() < 8 {
        None
    } else {
        match spec_i64s_from_le(b.subrange(0, b.len() - 8)) {
            Some(s) => match spec_i64_from_le(b.subrange(b.len() - 8, b.len() as int)) {
                Some(x) => Some(s.push(x)),
                None => None,
            },
            None => None,
        }
    }
}

/// The encoding of a sequence takes eight bytes per item.
pub proof fn lemma_i64s_len(s: Seq<i64>)
    ensures
        spec_i64s_to_le(s).len() == 8 * s.len(),
    decreases s.len(),
{
    if s.len() > 0 {
        lemma_i64s_len(s.drop_last());
        if in_coord(s.last()) {
            lemma_i64_round_trip(s.last());
        } else {
            lemma_auto_spec_u64_to_from_le_bytes();
        }
    }
}

/// Encoding a sequence of coordinates decodes back to itself.
pub proof fn lemma_i64s_round_trip(s: Seq<i64>)
    requires
        forall|i: int| 0 <= i < s.len() ==> in_coord(s[i]),
    ensures
        spec_i64s_from_le(spec_i64s_to_le(s)) == Some(s),
    decreases s.len(),
{
    if s.len() == 0 {
        assert(spec_i64s_from_le(spec_i64s_to_le(s)) == Some(s));
    } else {
        let head = s.drop_last();
        let b = spec_i64s_to_le(s);
        lemma_i64s_round_trip(head);
        lemma_i64s_len(head);
        lemma_i64_round_trip(s.last());
        assert(b.len() == 8 * head.len() + 8);
        assert(b.subrange(0, b.len() - 8) =~= spec_i64s_to_le(head));
        assert(b.subrange(b.len() - 8, b.len() as int) =~= spec_i64_to_le(s.last()));
        assert(head.push(s.last()) =~= s);
    }
}

/// Append the encoding of every item of `v` to `buf`.
pub fn encode_i64s_into(buf: &mut Vec<u8>, v: &Vec<i64>)
    requires
        forall|i: int| 0 <= i < v@.len() ==> in_coord(v@[i]),
    ensures
        final(buf)@ == old(buf)@ + spec_i64s_to_le(v@),
{
    let ghost orig = buf@;
    let mut i: usize = 0;
    while i < v.len()
        invariant
            i <= v@.len(),
            forall|j: int| 0 <= j < v@.len() ==> in_coord(v@[j]),
            buf@ == orig + spec_i64s_to_le(v@.subrange(0, i as int)),
        decreases v@.len() - i,
    {
        encode_i64_into(buf, v[i]);
        proof {
            let pre = v@.subrange(0, i as int);
            let post = v@.subrange(0, i + 1 as int);
            assert(post.drop_last() =~= pre);
            assert(post.last() == v@[i as int]);
        }
        i = i + 1;
    }
    proof {
        assert(v@.subrange(0, v@.len() as int) =~= v@);
    }
}

/// Decode `count` coordinates from the bytes of `b` starting at `start`.
pub fn decode_i64s_at(b: &[u8], start: usize, count: usize) -> (r: Option<Vec<i64>>)
    requires
        start + 8 * count <= b@.len(),
    ensures
        r matches Some(v) ==> Some(v@) == spec_i64s_from_le(
            b@.subrange(start as int, start + 8 * count),
        ),
        r is None ==> spec_i64s_from_le(b@.subrange(start as int, start + 8 * count)) is None,
        r matches Some(v) ==> forall|i: int| 0 <= i < v@.len() ==> in_coord(#[trigger] v@[i]),
{
    let blen = b.len();
    let mut out: Vec<i64> = Vec::new();
    let mut i: usize = 0;
    while i < count
        invariant
            i <= count,
            blen == b@.len(),
            start + 8 * count <= b@.len(),
            Some(out@) == spec_i64s_from_le(b@.subrange(start as int, start + 8 * i)),
            forall|j: int| 0 <= j < out@.len() ==> in_coord(#[trigger] out@[j]),
        decreases count - i,
    {
        match decode_i64_at(b, start + 8 * i) {
            Some(x) => {
                out.push(x);
                proof {
                    let whole = b@.subrange(start as int, start + 8 * (i + 1));
                    assert(whole.len() == 8 * (i + 1));
                    assert(whole.subrange(0, whole.len() - 8) =~= b@.subrange(
                        start as int,
                        start + 8 * i,
                    ));
                    assert(whole.subrange(whole.len() - 8, whole.len() as int) =~= b@.subrange(
                        start + 8 * i,
                        start + 8 * i + 8,
                    ));
                }
            },
            None => {
                proof {
                    let whole = b@.subrange(start as int, start + 8 * count);
                    lemma_i64s_prefix_none(b@, start as int, i as int, count as int);
                }
                return None;
            },
        }
        i = i + 1;
    }
    Some(out)
}

/// When the item at position `i` of a packed coordinate array is corrupt,
/// the whole array fails to decode.
proof fn lemma_i64s_prefix_none(b: Seq<u8>, start: int, i: int, count: int)
    requires
        0 <= start,
        0 <= i < count,
        start + 8 * count <= b.len(),
        spec_i64_from_le(b.subrange(start + 8 * i, start + 8 * i + 8)) is None,
    ensures
        spec_i64s_from_le(b.subrange(start, start + 8 * count)) is None,
    decreases count,
{
    let whole = b.subrange(start, start + 8 * count);
    assert(whole.len() == 8 * count);
    if i == count - 1 {
        assert(whole.subrange(whole.len() - 8, whole.len() as int) =~= b.subrange(
            start + 8 * i,
            start + 8 * i + 8,
        ));
    } else {
        lemma_i64s_prefix_none(b, start, i, count - 1);
        assert(whole.subrange(0, whole.len() - 8) =~= b.subrange(start, start + 8 * (count - 1)));
    }
}

} // verus!
