//! The byte layout of stored values, and decoders that read exactly it.
//!
//! Each type states the bytes that stand for a value (`enc`). Its decoder,
//! given a position in a buffer, returns a value and the end of its bytes
//! exactly when the buffer holds some value's bytes there; no encoding is a
//! proper prefix of another, so that value is the only one.

use vstd::prelude::*;
use vstd::slice::slice_subrange;
use crate::scale::{
    byte_bound, compact_prefix, compact_prefix_unique, compact_u32, le_value, read_le, starts_with,
};

verus! {

pub open spec fn rest_of(b: Seq<u8>, pos: int) -> Seq<u8> {
    b.subrange(pos, b.len() as int)
}

pub trait Layout: Sized {
    /// The bytes that stand for this value.
    spec fn enc(&self) -> Seq<u8>;

    /// Two encodings that both start `s` are the same bytes.
    proof fn prefix_free(s: Seq<u8>, a: Self, b: Self)
        requires
            starts_with(s, a.enc()),
            starts_with(s, b.enc()),
        ensures
            a.enc() == b.enc(),
    ;

    /// Reads one value at `pos`: a value whose bytes lie between `pos` and
    /// the returned end, or nothing when no value's bytes start there.
    fn take(b: &[u8], pos: usize) -> (r: Option<(Self, usize)>)
        requires
            pos <= b@.len(),
        ensures
            match r {
                Some((v, p)) => pos <= p <= b@.len() && b@.subrange(pos as int, p as int)
                    == v.enc(),
                None => forall|v: Self| !starts_with(rest_of(b@, pos as int), #[trigger] v.enc()),
            },
    ;
}

// ---------------------------------------------------------- sequence facts

pub proof fn starts_with_split(s: Seq<u8>, x: Seq<u8>, y: Seq<u8>)
    ensures
        starts_with(s, x + y) <==> (starts_with(s, x) && starts_with(
            s.subrange(x.len() as int, s.len() as int),
            y,
        )),
{
    if starts_with(s, x + y) {
        assert(s.subrange(0, x.len() as int) =~= (x + y).subrange(0, x.len() as int));
        assert((x + y).subrange(0, x.len() as int) =~= x);
        assert(s.subrange(x.len() as int, s.len() as int).subrange(0, y.len() as int)
            =~= (x + y).subrange(x.len() as int, (x + y).len() as int));
        assert((x + y).subrange(x.len() as int, (x + y).len() as int) =~= y);
    }
    if starts_with(s, x) && starts_with(s.subrange(x.len() as int, s.len() as int), y) {
        assert(s.subrange(0, (x + y).len() as int) =~= s.subrange(0, x.len() as int) + s.subrange(
            x.len() as int,
            s.len() as int,
        ).subrange(0, y.len() as int));
    }
}

pub proof fn rest_split(b: Seq<u8>, pos: int, p: int)
    requires
        0 <= pos <= p <= b.len(),
    ensures
        rest_of(b, pos) == b.subrange(pos, p) + rest_of(b, p),
{
    assert(rest_of(b, pos) =~= b.subrange(pos, p) + rest_of(b, p));
}

/// Having read `e` between `pos` and `p`, the bytes at `pos` start with `e + f`
/// exactly when the bytes at `p` start with `f`.
pub proof fn starts_with_after(b: Seq<u8>, pos: int, p: int, e: Seq<u8>, f: Seq<u8>)
    requires
        0 <= pos <= p <= b.len(),
        b.subrange(pos, p) == e,
    ensures
        starts_with(rest_of(b, pos), e + f) <==> starts_with(rest_of(b, p), f),
{
    rest_split(b, pos, p);
    starts_with_split(rest_of(b, pos), e, f);
    assert(rest_of(b, pos).subrange(e.len() as int, rest_of(b, pos).len() as int) =~= rest_of(
        b,
        p,
    ));
    assert(rest_of(b, pos).subrange(0, e.len() as int) =~= e);
}

// ---------------------------------------------------------- fixed widths

/// `n` little-endian bytes of `v`.
pub open spec fn le_bytes(v: nat, n: nat) -> Seq<u8>
    decreases n,
{
    if n == 0 {
        seq![]
    } else {
        seq![(v % 256) as u8] + le_bytes(v / 256, (n - 1) as nat)
    }
}

proof fn le_bytes_of_value(s: Seq<u8>)
    ensures
        le_bytes(le_value(s), s.len()) == s,
    decreases s.len(),
{
    if s.len() > 0 {
        let t = s.subrange(1, s.len() as int);
        le_bytes_of_value(t);
        let v = le_value(s);
        assert(v == s[0] as nat + 256 * le_value(t));
        assert(v % 256 == s[0] as nat && v / 256 == le_value(t)) by (nonlinear_arith)
            requires
                v == s[0] as nat + 256 * le_value(t),
                s[0] < 256,
        ;
        assert(s =~= seq![s[0]] + t);
    }
}

proof fn le_bytes_len(v: nat, n: nat)
    ensures
        le_bytes(v, n).len() == n,
    decreases n,
{
    if n > 0 {
        le_bytes_len(v / 256, (n - 1) as nat);
    }
}

/// The `n` little-endian bytes of `v`.
pub fn encode_le(v: u128, n: usize) -> (r: Vec<u8>)
    ensures
        r@ == le_bytes(v as nat, n as nat),
{
    let mut r: Vec<u8> = Vec::new();
    let mut x = v;
    let mut i: usize = 0;
    while i < n
        invariant
            i <= n,
            r@ + le_bytes(x as nat, (n - i) as nat) == le_bytes(v as nat, n as nat),
        decreases n - i,
    {
        let ghost before = r@;
        r.push((x % 256) as u8);
        proof {
            let k = (n - i) as nat;
            assert(le_bytes(x as nat, k) == seq![(x as nat % 256) as u8] + le_bytes(
                x as nat / 256,
                (k - 1) as nat,
            ));
            assert(r@ + le_bytes(x as nat / 256, (k - 1) as nat) =~= before + le_bytes(
                x as nat,
                k,
            ));
        }
        x = x / 256;
        i += 1;
    }
    proof {
        assert(le_bytes(x as nat, 0) =~= Seq::<u8>::empty());
        assert(r@ =~= r@ + le_bytes(x as nat, 0));
    }
    r
}

/// Reads `n` bytes at `pos` as a little-endian number.
fn take_le(b: &[u8], pos: usize, n: usize) -> (r: Option<(u128, usize)>)
    requires
        pos <= b@.len(),
        1 <= n <= 16,
    ensures
        match r {
            Some((v, p)) => p == pos + n && p <= b@.len() && b@.subrange(pos as int, p as int)
                == le_bytes(v as nat, n as nat) && (v as nat) < byte_bound(n as nat),
            None => b@.len() < pos + n,
        },
{
    if b.len() - pos < n {
        return None;
    }
    let v = read_le(b, pos, n);
    proof {
        le_bytes_of_value(b@.subrange(pos as int, pos + n));
    }
    Some((v, pos + n))
}

impl Layout for u8 {
    open spec fn enc(&self) -> Seq<u8> {
        seq![*self]
    }

    proof fn prefix_free(s: Seq<u8>, a: u8, b: u8) {
    }

    fn take(b: &[u8], pos: usize) -> (r: Option<(u8, usize)>) {
        if pos < b.len() {
            let v = b[pos];
            assert(b@.subrange(pos as int, pos + 1) =~= seq![v]);
            Some((v, pos + 1))
        } else {
            None
        }
    }
}

impl Layout for bool {
    open spec fn enc(&self) -> Seq<u8> {
        if *self {
            seq![1u8]
        } else {
            seq![0u8]
        }
    }

    proof fn prefix_free(s: Seq<u8>, a: bool, b: bool) {
    }

    fn take(b: &[u8], pos: usize) -> (r: Option<(bool, usize)>) {
        if pos < b.len() && b[pos] <= 1 {
            let v = b[pos] == 1;
            assert(b@.subrange(pos as int, pos + 1) =~= v.enc());
            Some((v, pos + 1))
        } else {
            proof {
                assert forall|v: bool| !starts_with(rest_of(b@, pos as int), #[trigger] v.enc()) by {
                    let r = rest_of(b@, pos as int);
                    if starts_with(r, v.enc()) {
                        assert(r.subrange(0, 1)[0] == r[0]);
                        assert(r[0] == b@[pos as int]);
                    }
                }
            }
            None
        }
    }
}

impl Layout for u32 {
    open spec fn enc(&self) -> Seq<u8> {
        le_bytes(*self as nat, 4)
    }

    proof fn prefix_free(s: Seq<u8>, a: u32, b: u32) {
        le_bytes_len(a as nat, 4);
        le_bytes_len(b as nat, 4);
    }

    fn take(b: &[u8], pos: usize) -> (r: Option<(u32, usize)>) {
        proof {
            reveal_with_fuel(byte_bound, 5);
        }
        match take_le(b, pos, 4) {
            Some((v, p)) => Some((v as u32, p)),
            None => {
                proof {
                    assert forall|v: u32| !starts_with(rest_of(b@, pos as int), #[trigger] v.enc()) by {
                        le_bytes_len(v as nat, 4);
                    }
                }
                None
            },
        }
    }
}

impl Layout for u64 {
    open spec fn enc(&self) -> Seq<u8> {
        le_bytes(*self as nat, 8)
    }

    proof fn prefix_free(s: Seq<u8>, a: u64, b: u64) {
        le_bytes_len(a as nat, 8);
        le_bytes_len(b as nat, 8);
    }

    fn take(b: &[u8], pos: usize) -> (r: Option<(u64, usize)>) {
        proof {
            reveal_with_fuel(byte_bound, 9);
        }
        match take_le(b, pos, 8) {
            Some((v, p)) => Some((v as u64, p)),
            None => {
                proof {
                    assert forall|v: u64| !starts_with(rest_of(b@, pos as int), #[trigger] v.enc()) by {
                        le_bytes_len(v as nat, 8);
                    }
                }
                None
            },
        }
    }
}

impl Layout for u128 {
    open spec fn enc(&self) -> Seq<u8> {
        le_bytes(*self as nat, 16)
    }

    proof fn prefix_free(s: Seq<u8>, a: u128, b: u128) {
        le_bytes_len(a as nat, 16);
        le_bytes_len(b as nat, 16);
    }

    fn take(b: &[u8], pos: usize) -> (r: Option<(u128, usize)>) {
        match take_le(b, pos, 16) {
            Some((v, p)) => Some((v, p)),
            None => {
                proof {
                    assert forall|v: u128| !starts_with(rest_of(b@, pos as int), #[trigger] v.enc()) by {
                        le_bytes_len(v as nat, 16);
                    }
                }
                None
            },
        }
    }
}

impl Layout for [u8; 32] {
    open spec fn enc(&self) -> Seq<u8> {
        self@
    }

    proof fn prefix_free(s: Seq<u8>, a: [u8; 32], b: [u8; 32]) {
    }

    fn take(b: &[u8], pos: usize) -> (r: Option<([u8; 32], usize)>) {
        if b.len() - pos < 32 {
            return None;
        }
        let mut a = [0u8; 32];
        let mut i: usize = 0;
        while i < 32
            invariant
                i <= 32,
                pos + 32 <= b@.len(),
                a@.len() == 32,
                forall|j: int| 0 <= j < i ==> a@[j] == b@[pos + j],
            decreases 32 - i,
        {
            a[i] = b[pos + i];
            i += 1;
        }
        assert(b@.subrange(pos as int, pos + 32) =~= a@);
        Some((a, pos + 32))
    }
}

// ---------------------------------------------------------- combinations

pub proof fn read_prefix(b: Seq<u8>, pos: int, p: int, e: Seq<u8>)
    requires
        0 <= pos <= p <= b.len(),
        b.subrange(pos, p) == e,
    ensures
        starts_with(rest_of(b, pos), e),
{
    rest_split(b, pos, p);
    assert(rest_of(b, pos).subrange(0, e.len() as int) =~= e);
}

/// Two values one after the other.
impl<A: Layout, B: Layout> Layout for (A, B) {
    open spec fn enc(&self) -> Seq<u8> {
        self.0.enc() + self.1.enc()
    }

    proof fn prefix_free(s: Seq<u8>, a: (A, B), b: (A, B)) {
        starts_with_split(s, a.0.enc(), a.1.enc());
        starts_with_split(s, b.0.enc(), b.1.enc());
        A::prefix_free(s, a.0, b.0);
        let t = s.subrange(a.0.enc().len() as int, s.len() as int);
        B::prefix_free(t, a.1, b.1);
    }

    fn take(b: &[u8], pos: usize) -> (r: Option<((A, B), usize)>) {
        let (x, p1) = match A::take(b, pos) {
            Some(found) => found,
            None => {
                proof {
                    assert forall|v: (A, B)| !starts_with(rest_of(b@, pos as int), #[trigger] v.enc())
                        by {
                        starts_with_split(rest_of(b@, pos as int), v.0.enc(), v.1.enc());
                    }
                }
                return None;
            },
        };
        match B::take(b, p1) {
            Some((y, p2)) => {
                proof {
                    assert(b@.subrange(pos as int, p2 as int) =~= b@.subrange(pos as int, p1 as int)
                        + b@.subrange(p1 as int, p2 as int));
                }
                Some(((x, y), p2))
            },
            None => {
                proof {
                    assert forall|v: (A, B)| !starts_with(rest_of(b@, pos as int), #[trigger] v.enc())
                        by {
                        let rest = rest_of(b@, pos as int);
                        if starts_with(rest, v.0.enc() + v.1.enc()) {
                            starts_with_split(rest, v.0.enc(), v.1.enc());
                            read_prefix(b@, pos as int, p1 as int, x.enc());
                            A::prefix_free(rest, x, v.0);
                            starts_with_after(b@, pos as int, p1 as int, x.enc(), v.1.enc());
                        }
                    }
                }
                None
            },
        }
    }
}

/// A tag byte, 0 for nothing or 1 followed by the value.
impl<T: Layout> Layout for Option<T> {
    open spec fn enc(&self) -> Seq<u8> {
        match self {
            None => seq![0u8],
            Some(x) => seq![1u8] + x.enc(),
        }
    }

    proof fn prefix_free(s: Seq<u8>, a: Option<T>, b: Option<T>) {
        assert(a.enc()[0] == s[0]) by {
            assert(s.subrange(0, a.enc().len() as int)[0] == s[0]);
        }
        assert(b.enc()[0] == s[0]) by {
            assert(s.subrange(0, b.enc().len() as int)[0] == s[0]);
        }
        if a is Some && b is Some {
            let (x, y) = (a->Some_0, b->Some_0);
            starts_with_split(s, seq![1u8], x.enc());
            starts_with_split(s, seq![1u8], y.enc());
            T::prefix_free(s.subrange(1, s.len() as int), x, y);
        }
    }

    fn take(b: &[u8], pos: usize) -> (r: Option<(Option<T>, usize)>) {
        if pos >= b.len() {
            return None;
        }
        let tag = b[pos];
        proof {
            assert forall|v: Option<T>| starts_with(rest_of(b@, pos as int), #[trigger] v.enc())
                implies v.enc()[0] == tag by {
                let r = rest_of(b@, pos as int);
                assert(r.subrange(0, v.enc().len() as int)[0] == r[0]);
            }
        }
        if tag == 0 {
            assert(b@.subrange(pos as int, pos + 1) =~= seq![0u8]);
            Some((None, pos + 1))
        } else if tag == 1 {
            match T::take(b, pos + 1) {
                Some((x, p)) => {
                    assert(b@.subrange(pos as int, p as int) =~= seq![1u8] + b@.subrange(
                        pos + 1,
                        p as int,
                    ));
                    Some((Some(x), p))
                },
                None => {
                    proof {
                        assert(b@.subrange(pos as int, pos + 1) =~= seq![1u8]);
                        assert forall|v: Option<T>| !starts_with(
                            rest_of(b@, pos as int),
                            #[trigger] v.enc(),
                        ) by {
                            if v is Some {
                                starts_with_after(
                                    b@,
                                    pos as int,
                                    pos + 1,
                                    seq![1u8],
                                    v->Some_0.enc(),
                                );
                            }
                        }
                    }
                    None
                },
            }
        } else {
            None
        }
    }
}

// ---------------------------------------------------------- sequences

/// The items' bytes one after the other.
pub open spec fn enc_seq<T: Layout>(s: Seq<T>) -> Seq<u8>
    decreases s.len(),
{
    if s.len() == 0 {
        seq![]
    } else {
        enc_seq(s.drop_last()) + s.last().enc()
    }
}

/// Encodings of equally many items that both start `s` are the same bytes.
pub proof fn enc_seq_prefix_free<T: Layout>(s: Seq<u8>, a: Seq<T>, b: Seq<T>)
    requires
        a.len() == b.len(),
        starts_with(s, enc_seq(a)),
        starts_with(s, enc_seq(b)),
    ensures
        enc_seq(a) == enc_seq(b),
    decreases a.len(),
{
    if a.len() > 0 {
        let (a1, b1) = (a.drop_last(), b.drop_last());
        starts_with_split(s, enc_seq(a1), a.last().enc());
        starts_with_split(s, enc_seq(b1), b.last().enc());
        enc_seq_prefix_free(s, a1, b1);
        T::prefix_free(s.subrange(enc_seq(a1).len() as int, s.len() as int), a.last(), b.last());
    }
}

pub proof fn enc_seq_split<T: Layout>(s: Seq<T>, k: int)
    requires
        0 <= k <= s.len(),
    ensures
        enc_seq(s) == enc_seq(s.take(k)) + enc_seq(s.skip(k)),
    decreases s.len(),
{
    if k == s.len() {
        assert(s.take(k) =~= s);
        assert(s.skip(k) =~= Seq::<T>::empty());
        assert(enc_seq(s) =~= enc_seq(s) + Seq::<u8>::empty());
    } else {
        let s1 = s.drop_last();
        enc_seq_split(s1, k);
        assert(s1.take(k) =~= s.take(k));
        assert(s.skip(k).drop_last() =~= s1.skip(k));
        assert(s.skip(k).last() == s.last());
        assert(enc_seq(s) =~= enc_seq(s.take(k)) + enc_seq(s.skip(k)));
    }
}

pub proof fn enc_seq_front<T: Layout>(s: Seq<T>)
    requires
        s.len() > 0,
    ensures
        enc_seq(s) == s[0].enc() + enc_seq(s.skip(1)),
{
    enc_seq_split(s, 1);
    let one = s.take(1);
    assert(one.drop_last() =~= Seq::<T>::empty());
    assert(enc_seq(one.drop_last()) =~= Seq::<u8>::empty());
    assert(one.last() == s[0]);
    assert(enc_seq(one) =~= s[0].enc());
}

/// Stands for a vector too long for a 32-bit count, which has no encoding:
/// more bytes than any buffer holds, so no read ever matches it.
pub open spec fn overlong() -> Seq<u8> {
    Seq::new((usize::MAX + 1) as nat, |i: int| 0xffu8)
}

proof fn compact_first_byte(v: u32)
    ensures
        compact_u32(v).len() >= 1,
        compact_u32(v)[0] != 0xffu8,
{
    crate::scale::compact_mode(v);
    let x = compact_u32(v)[0];
    assert(x & 3 != 3 ==> x != 0xff) by (bit_vector);
}

/// A compact count, then the items.
impl<T: Layout> Layout for Vec<T> {
    open spec fn enc(&self) -> Seq<u8> {
        if self@.len() <= u32::MAX {
            compact_u32(self@.len() as u32) + enc_seq(self@)
        } else {
            overlong()
        }
    }

    proof fn prefix_free(s: Seq<u8>, a: Vec<T>, b: Vec<T>) {
        let (la, lb) = (a@.len(), b@.len());
        if la <= u32::MAX && lb <= u32::MAX {
            starts_with_split(s, compact_u32(la as u32), enc_seq(a@));
            starts_with_split(s, compact_u32(lb as u32), enc_seq(b@));
            compact_prefix_unique(s, la as u32, lb as u32);
            let t = s.subrange(compact_u32(la as u32).len() as int, s.len() as int);
            enc_seq_prefix_free(t, a@, b@);
        } else if la <= u32::MAX || lb <= u32::MAX {
            let short = if la <= u32::MAX {
                la
            } else {
                lb
            };
            compact_first_byte(short as u32);
            assert(s.subrange(0, a.enc().len() as int)[0] == s[0]);
            assert(s.subrange(0, b.enc().len() as int)[0] == s[0]);
            assert((compact_u32(short as u32) + enc_seq(if la <= u32::MAX {
                a@
            } else {
                b@
            }))[0] == compact_u32(short as u32)[0]);
        }
    }

    fn take(b: &[u8], pos: usize) -> (r: Option<(Vec<T>, usize)>) {
        let len = b.len();
        let tail = slice_subrange(b, pos, len);
        let (n, left) = match compact_prefix(tail) {
            Some(found) => found,
            None => {
                proof {
                    assert forall|v: Vec<T>| !starts_with(rest_of(b@, pos as int), #[trigger] v.enc())
                        by {
                        if v@.len() <= u32::MAX {
                            starts_with_split(
                                rest_of(b@, pos as int),
                                compact_u32(v@.len() as u32),
                                enc_seq(v@),
                            );
                        }
                    }
                }
                return None;
            },
        };
        let start = len - left;
        proof {
            assert(b@.subrange(pos as int, start as int) =~= tail@.subrange(
                0,
                compact_u32(n).len() as int,
            ));
        }
        let mut items: Vec<T> = Vec::new();
        let mut p = start;
        let mut i: u32 = 0;
        while i < n
            invariant
                len == b@.len(),
                pos <= start <= p <= len,
                b@.subrange(pos as int, start as int) == compact_u32(n),
                b@.subrange(start as int, p as int) == enc_seq(items@),
                items@.len() == i,
                i <= n,
            decreases n - i,
        {
            match T::take(b, p) {
                Some((x, q)) => {
                    let ghost prev = items@;
                    items.push(x);
                    proof {
                        assert(items@.drop_last() =~= prev);
                        assert(b@.subrange(start as int, q as int) =~= b@.subrange(
                            start as int,
                            p as int,
                        ) + b@.subrange(p as int, q as int));
                    }
                    p = q;
                    i = i + 1;
                },
                None => {
                    proof {
                        assert forall|v: Vec<T>| !starts_with(
                            rest_of(b@, pos as int),
                            #[trigger] v.enc(),
                        ) by {
                            let rest = rest_of(b@, pos as int);
                            if v@.len() <= u32::MAX && starts_with(rest, v.enc()) {
                                let m = v@.len() as u32;
                                starts_with_split(rest, compact_u32(m), enc_seq(v@));
                                read_prefix(b@, pos as int, start as int, compact_u32(n));
                                compact_prefix_unique(rest, m, n);
                                starts_with_after(
                                    b@,
                                    pos as int,
                                    start as int,
                                    compact_u32(n),
                                    enc_seq(v@),
                                );
                                let rs = rest_of(b@, start as int);
                                enc_seq_split(v@, i as int);
                                enc_seq_front(v@.skip(i as int));
                                starts_with_split(
                                    rs,
                                    enc_seq(v@.take(i as int)),
                                    enc_seq(v@.skip(i as int)),
                                );
                                read_prefix(b@, start as int, p as int, enc_seq(items@));
                                enc_seq_prefix_free(rs, items@, v@.take(i as int));
                                starts_with_after(
                                    b@,
                                    start as int,
                                    p as int,
                                    enc_seq(items@),
                                    enc_seq(v@.skip(i as int)),
                                );
                                assert(v@.skip(i as int)[0] == v@[i as int]);
                                starts_with_split(
                                    rest_of(b@, p as int),
                                    v@[i as int].enc(),
                                    enc_seq(v@.skip(i as int).skip(1)),
                                );
                            }
                        }
                    }
                    return None;
                },
            }
        }
        proof {
            assert(b@.subrange(pos as int, p as int) =~= b@.subrange(pos as int, start as int)
                + b@.subrange(start as int, p as int));
        }
        Some((items, p))
    }
}

} // verus!
