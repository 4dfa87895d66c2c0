//! The ledger's compact binary encoding, as far as this client frames bytes
//! itself: little-endian integers, compact lengths and call payloads.

use vstd::prelude::*;
use parity_scale_codec::{Compact, Decode, Encode};

verus! {

pub open spec fn le2(v: u16) -> Seq<u8> {
    seq![v as u8, (v >> 8u16) as u8]
}

pub open spec fn le4(v: u32) -> Seq<u8> {
    seq![v as u8, (v >> 8u32) as u8, (v >> 16u32) as u8, (v >> 24u32) as u8]
}

/// Compact encoding of a 32-bit value: the two low bits of the first byte
/// select a one-, two-, four-byte or big-integer form, and the smallest form
/// that holds the value is the only valid one.
pub open spec fn compact_u32(v: u32) -> Seq<u8> {
    if v <= 0x3f {
        seq![(v << 2u32) as u8]
    } else if v <= 0x3fff {
        le2((((v as u16) << 2u16) | 1u16) as u16)
    } else if v <= 0x3fff_ffff {
        le4(((v << 2u32) | 2u32) as u32)
    } else {
        seq![3u8] + le4(v)
    }
}

pub open spec fn starts_with(s: Seq<u8>, p: Seq<u8>) -> bool {
    p.len() <= s.len() && s.subrange(0, p.len() as int) == p
}

pub proof fn starts_with_concat(p: Seq<u8>, q: Seq<u8>)
    ensures
        starts_with(p + q, p),
{
    assert((p + q).subrange(0, p.len() as int) =~= p);
}

/// Relies on `Compact::<u32>::encode` of parity-scale-codec.
#[verifier::external_body]
pub(crate) fn compact_bytes(v: u32) -> (r: Vec<u8>)
    ensures
        r@ == compact_u32(v),
{
    Compact(v).encode()
}

/// Relies on `Compact::<u32>::decode` of parity-scale-codec, which reads one
/// compact value from the front of the input and rejects any form that is
/// not the smallest. Returns the value and how many bytes are left.
#[verifier::external_body]
pub(crate) fn compact_prefix(b: &[u8]) -> (r: Option<(u32, usize)>)
    ensures
        match r {
            Some((v, rest)) => compact_u32(v).len() + rest == b@.len() && starts_with(
                b@,
                compact_u32(v),
            ),
            None => forall|v: u32| !starts_with(b@, #[trigger] compact_u32(v)),
        },
{
    let mut input = b;
    match Compact::<u32>::decode(&mut input) {
        Ok(c) => Some((c.0, input.len())),
        Err(_) => None,
    }
}

proof fn le4_injective(x: u32, y: u32)
    requires
        le4(x) == le4(y),
    ensures
        x == y,
{
    assert(le4(x)[0] == le4(y)[0] && le4(x)[1] == le4(y)[1]);
    assert(le4(x)[2] == le4(y)[2] && le4(x)[3] == le4(y)[3]);
    assert(x as u8 == y as u8 && (x >> 8u32) as u8 == (y >> 8u32) as u8 && (x >> 16u32) as u8
        == (y >> 16u32) as u8 && (x >> 24u32) as u8 == (y >> 24u32) as u8 ==> x == y)
        by (bit_vector);
}

proof fn le2_injective(x: u16, y: u16)
    requires
        le2(x) == le2(y),
    ensures
        x == y,
{
    assert(le2(x)[0] == le2(y)[0] && le2(x)[1] == le2(y)[1]);
    assert(x as u8 == y as u8 && (x >> 8u16) as u8 == (y >> 8u16) as u8 ==> x == y)
        by (bit_vector);
}

/// The mode bits of the first byte of a compact encoding.
pub(crate) proof fn compact_mode(v: u32)
    ensures
        compact_u32(v).len() >= 1,
        v <= 0x3f ==> compact_u32(v).len() == 1 && compact_u32(v)[0] & 3 == 0,
        0x3f < v <= 0x3fff ==> compact_u32(v).len() == 2 && compact_u32(v)[0] & 3 == 1,
        0x3fff < v <= 0x3fff_ffff ==> compact_u32(v).len() == 4 && compact_u32(v)[0] & 3 == 2,
        0x3fff_ffff < v ==> compact_u32(v).len() == 5 && compact_u32(v)[0] & 3 == 3,
{
    let a = (v << 2u32) as u8;
    assert(a & 3 == 0) by (bit_vector)
        requires
            a == (v << 2u32) as u8,
    ;
    let x = (((v as u16) << 2u16) | 1u16) as u16;
    assert((x as u8) & 3 == 1) by (bit_vector)
        requires
            x == (((v as u16) << 2u16) | 1u16) as u16,
    ;
    let y = ((v << 2u32) | 2u32) as u32;
    assert((y as u8) & 3 == 2) by (bit_vector)
        requires
            y == ((v << 2u32) | 2u32) as u32,
    ;
    assert(3u8 & 3 == 3) by (bit_vector);
}

/// Two compact encodings that both start the same bytes encode the same value.
pub proof fn compact_prefix_unique(s: Seq<u8>, v: u32, w: u32)
    requires
        starts_with(s, compact_u32(v)),
        starts_with(s, compact_u32(w)),
    ensures
        v == w,
{
    compact_mode(v);
    compact_mode(w);
    let (p, q) = (compact_u32(v), compact_u32(w));
    assert(p[0] == s.subrange(0, p.len() as int)[0]);
    assert(q[0] == s.subrange(0, q.len() as int)[0]);
    assert(p.len() == q.len());
    assert(p == q);
    if v <= 0x3f {
        assert((v << 2u32) as u8 == (w << 2u32) as u8);
        assert(v <= 0x3f && w <= 0x3f && (v << 2u32) as u8 == (w << 2u32) as u8 ==> v == w)
            by (bit_vector);
    } else if v <= 0x3fff {
        le2_injective((((v as u16) << 2u16) | 1u16) as u16, (((w as u16) << 2u16) | 1u16) as u16);
        assert(0x3f < v <= 0x3fff && 0x3f < w <= 0x3fff && (((v as u16) << 2u16) | 1u16) as u16
            == (((w as u16) << 2u16) | 1u16) as u16 ==> v == w) by (bit_vector);
    } else if v <= 0x3fff_ffff {
        le4_injective(((v << 2u32) | 2u32) as u32, ((w << 2u32) | 2u32) as u32);
        assert(v <= 0x3fff_ffff && w <= 0x3fff_ffff && ((v << 2u32) | 2u32) as u32 == ((w << 2u32)
            | 2u32) as u32 ==> v == w) by (bit_vector);
    } else {
        assert(p.subrange(1, 5) == le4(v));
        assert(q.subrange(1, 5) == le4(w));
        le4_injective(v, w);
    }
}

/// Appends `src` to `out`.
pub fn push_all(out: &mut Vec<u8>, src: &[u8])
    ensures
        final(out)@ == old(out)@ + src@,
{
    let ghost start = out@;
    let mut i: usize = 0;
    while i < src.len()
        invariant
            i <= src@.len(),
            out@ == start + src@.subrange(0, i as int),
        decreases src@.len() - i,
    {
        out.push(src[i]);
        i += 1;
        assert(out@ =~= start + src@.subrange(0, i as int));
    }
    assert(src@.subrange(0, src@.len() as int) =~= src@);
}

/// A byte string as the ledger encodes it: compact length, then the bytes.
pub open spec fn bytes_encoding(b: Seq<u8>) -> Seq<u8> {
    compact_u32(b.len() as u32) + b
}

pub fn encode_bytes(b: &[u8]) -> (r: Vec<u8>)
    requires
        b@.len() <= u32::MAX,
    ensures
        r@ == bytes_encoding(b@),
{
    let mut r = compact_bytes(b.len() as u32);
    push_all(&mut r, b);
    r
}

/// The number that little-endian bytes stand for.
pub open spec fn le_value(s: Seq<u8>) -> nat
    decreases s.len(),
{
    if s.len() == 0 {
        0
    } else {
        s[0] as nat + 256 * le_value(s.subrange(1, s.len() as int))
    }
}

/// 256 to the power `k`.
pub open spec fn byte_bound(k: nat) -> nat
    decreases k,
{
    if k == 0 {
        1
    } else {
        256 * byte_bound((k - 1) as nat)
    }
}

proof fn le_value_bound(s: Seq<u8>)
    ensures
        le_value(s) < byte_bound(s.len()),
    decreases s.len(),
{
    if s.len() > 0 {
        let t = s.subrange(1, s.len() as int);
        le_value_bound(t);
        assert(byte_bound(s.len()) == 256 * byte_bound(t.len()));
        assert(s[0] as nat + 256 * le_value(t) < 256 * byte_bound(t.len())) by (nonlinear_arith)
            requires
                s[0] < 256,
                le_value(t) < byte_bound(t.len()),
        ;
    }
}

proof fn byte_bound_grows(j: nat, k: nat)
    requires
        j <= k,
    ensures
        byte_bound(j) <= byte_bound(k),
    decreases k,
{
    if j < k {
        byte_bound_grows(j, (k - 1) as nat);
    }
}

/// Reads `n` bytes from `start` as a little-endian number.
pub fn read_le(b: &[u8], start: usize, n: usize) -> (r: u128)
    requires
        n <= 16,
        start + n <= b@.len(),
    ensures
        r as nat == le_value(b@.subrange(start as int, start + n)),
        (r as nat) < byte_bound(n as nat),
{
    let len = b.len();
    let mut v: u128 = 0;
    let mut i: usize = n;
    proof {
        assert(b@.subrange(start + n, start + n) =~= Seq::<u8>::empty());
        reveal_with_fuel(byte_bound, 17);
        assert(byte_bound(16) == 0x1_0000_0000_0000_0000_0000_0000_0000_0000);
    }
    while i > 0
        invariant
            i <= n <= 16,
            start + n <= b@.len(),
            len == b@.len(),
            v as nat == le_value(b@.subrange(start + i, start + n)),
            byte_bound(16) == 0x1_0000_0000_0000_0000_0000_0000_0000_0000,
        decreases i,
    {
        proof {
            le_value_bound(b@.subrange(start + i, start + n));
            byte_bound_grows((n - i + 1) as nat, 16);
            assert(byte_bound((n - i + 1) as nat) == 256 * byte_bound((n - i) as nat));
        }
        i -= 1;
        let byte = b[start + i];
        v = v * 256 + byte as u128;
        proof {
            let s = b@.subrange(start + i, start + n);
            assert(s.subrange(1, s.len() as int) =~= b@.subrange(start + i + 1, start + n));
            assert(s[0] == byte);
        }
    }
    proof {
        le_value_bound(b@.subrange(start as int, start + n));
    }
    v
}

} // verus!
