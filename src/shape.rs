//! Layouts of payloads this library does not decode, described part by
//! part, so that a reader can find where such a payload ends and go on.

use vstd::prelude::*;
use vstd::slice::slice_subrange;
use crate::layout::rest_of;
use crate::scale::{compact_prefix, compact_prefix_unique, compact_u32, starts_with};

verus! {

/// One part of a payload's layout.
#[derive(Clone, Copy, Debug, PartialEq, Eq)]
pub enum Part {
    /// A fixed number of bytes (an integer, an account, a unit enum).
    Fixed(u32),
    /// A compact number.
    Compact,
    /// A byte string: compact length, then that many bytes.
    Bytes,
    /// A list of fixed-size items: compact count, then the items.
    Items(u32),
    /// An optional fixed-size value: tag 0, or tag 1 and the value.
    Maybe(u32),
}

/// The compact number that `s` starts with, if any.
pub open spec fn compact_at(s: Seq<u8>) -> Option<u32> {
    if exists|v: u32| starts_with(s, #[trigger] compact_u32(v)) {
        Some(choose|v: u32| starts_with(s, #[trigger] compact_u32(v)))
    } else {
        None
    }
}

pub proof fn compact_at_is(s: Seq<u8>, v: u32)
    requires
        starts_with(s, compact_u32(v)),
    ensures
        compact_at(s) == Some(v),
{
    let w = choose|w: u32| starts_with(s, #[trigger] compact_u32(w));
    compact_prefix_unique(s, v, w);
}

/// How many bytes at the start of `s` a part spans, or nothing when `s`
/// does not start with such a part.
pub open spec fn part_len(p: Part, s: Seq<u8>) -> Option<nat> {
    match p {
        Part::Fixed(n) => if n <= s.len() {
            Some(n as nat)
        } else {
            None
        },
        Part::Compact => match compact_at(s) {
            Some(v) => Some(compact_u32(v).len()),
            None => None,
        },
        Part::Bytes => match compact_at(s) {
            Some(v) => if compact_u32(v).len() + v <= s.len() {
                Some((compact_u32(v).len() + v) as nat)
            } else {
                None
            },
            None => None,
        },
        Part::Items(k) => match compact_at(s) {
            Some(v) => if compact_u32(v).len() + v * k <= s.len() {
                Some((compact_u32(v).len() + v * k) as nat)
            } else {
                None
            },
            None => None,
        },
        Part::Maybe(k) => if s.len() == 0 {
            None
        } else if s[0] == 0 {
            Some(1)
        } else if s[0] == 1 && 1 + k <= s.len() {
            Some((1 + k) as nat)
        } else {
            None
        },
    }
}

/// How many bytes at the start of `s` the parts span one after the other.
pub open spec fn parts_len(ps: Seq<Part>, s: Seq<u8>) -> Option<nat>
    decreases ps.len(),
{
    if ps.len() == 0 {
        Some(0)
    } else {
        match part_len(ps[0], s) {
            Some(n) => match parts_len(ps.skip(1), s.skip(n as int)) {
                Some(m) => Some(n + m),
                None => None,
            },
            None => None,
        }
    }
}

proof fn part_len_bound(p: Part, s: Seq<u8>)
    ensures
        part_len(p, s) matches Some(n) ==> n <= s.len(),
{
}

proof fn parts_len_bound(ps: Seq<Part>, s: Seq<u8>)
    ensures
        parts_len(ps, s) matches Some(n) ==> n <= s.len(),
    decreases ps.len(),
{
    if ps.len() > 0 {
        part_len_bound(ps[0], s);
        if let Some(k) = part_len(ps[0], s) {
            parts_len_bound(ps.skip(1), s.skip(k as int));
        }
    }
}

/// A part's span depends only on the bytes it spans.
proof fn part_local(p: Part, s: Seq<u8>, t: Seq<u8>, n: nat)
    requires
        part_len(p, s) == Some(n),
        n <= t.len(),
        t.take(n as int) == s.take(n as int),
    ensures
        part_len(p, t) == Some(n),
{
    match p {
        Part::Fixed(_) => {},
        Part::Maybe(_) => {
            assert(s.take(n as int)[0] == s[0]);
            assert(t.take(n as int)[0] == t[0]);
        },
        _ => {
            let v = compact_at(s)->Some_0;
            let c = compact_u32(v);
            assert(starts_with(s, c));
            assert(c.len() <= n);
            assert(t.subrange(0, c.len() as int) =~= t.take(n as int).subrange(0, c.len() as int));
            assert(s.subrange(0, c.len() as int) =~= s.take(n as int).subrange(0, c.len() as int));
            compact_at_is(t, v);
        },
    }
}

/// The parts' span depends only on the bytes they span.
pub proof fn parts_local(ps: Seq<Part>, s: Seq<u8>, t: Seq<u8>, n: nat)
    requires
        parts_len(ps, s) == Some(n),
        n <= t.len(),
        t.take(n as int) == s.take(n as int),
    ensures
        parts_len(ps, t) == Some(n),
    decreases ps.len(),
{
    if ps.len() > 0 {
        let k = part_len(ps[0], s)->Some_0;
        part_len_bound(ps[0], s);
        parts_len_bound(ps, s);
        let m = parts_len(ps.skip(1), s.skip(k as int))->Some_0;
        assert(t.take(k as int) =~= t.take(n as int).take(k as int));
        assert(s.take(k as int) =~= s.take(n as int).take(k as int));
        part_local(ps[0], s, t, k);
        assert(t.skip(k as int).take(m as int) =~= t.take(n as int).subrange(k as int, n as int));
        assert(s.skip(k as int).take(m as int) =~= s.take(n as int).subrange(k as int, n as int));
        parts_local(ps.skip(1), s.skip(k as int), t.skip(k as int), m);
    }
}

pub open spec fn shifted(o: Option<nat>, d: nat) -> Option<nat> {
    match o {
        Some(m) => Some(m + d),
        None => None,
    }
}

/// The end of a part that starts at `pos`.
fn skip_part(b: &[u8], pos: usize, p: Part) -> (r: Option<usize>)
    requires
        pos <= b@.len(),
    ensures
        match r {
            Some(q) => pos <= q <= b@.len() && part_len(p, rest_of(b@, pos as int)) == Some(
                (q - pos) as nat,
            ),
            None => part_len(p, rest_of(b@, pos as int)) is None,
        },
{
    let len = b.len();
    let left = len - pos;
    let ghost s = rest_of(b@, pos as int);
    match p {
        Part::Fixed(n) => if n as usize <= left {
            Some(pos + n as usize)
        } else {
            None
        },
        Part::Maybe(k) => {
            if left == 0 {
                return None;
            }
            let tag = b[pos];
            assert(s[0] == tag);
            if tag == 0 {
                Some(pos + 1)
            } else if tag == 1 && (k as usize) < left {
                Some(pos + 1 + k as usize)
            } else {
                None
            }
        },
        _ => {
            let tail = slice_subrange(b, pos, len);
            assert(tail@ == s);
            match compact_prefix(tail) {
                None => {
                    assert(compact_at(s) is None);
                    None
                },
                Some((v, rest)) => {
                    proof {
                        compact_at_is(s, v);
                    }
                    let clen = left - rest;
                    let extra: u64 = match p {
                        Part::Bytes => v as u64,
                        Part::Items(k) => {
                            assert((v as int) * (k as int) <= 0xffff_ffff * 0xffff_ffff)
                                by (nonlinear_arith)
                                requires
                                    v <= 0xffff_ffff,
                                    k <= 0xffff_ffff,
                            ;
                            (v as u64) * (k as u64)
                        },
                        _ => 0,
                    };
                    if extra <= rest as u64 {
                        Some(pos + clen + extra as usize)
                    } else {
                        None
                    }
                },
            }
        },
    }
}

/// The end of the parts that start at `pos`.
pub fn skip_parts(b: &[u8], pos: usize, ps: &Vec<Part>) -> (r: Option<usize>)
    requires
        pos <= b@.len(),
    ensures
        match r {
            Some(q) => pos <= q <= b@.len() && parts_len(ps@, rest_of(b@, pos as int)) == Some(
                (q - pos) as nat,
            ),
            None => parts_len(ps@, rest_of(b@, pos as int)) is None,
        },
{
    let mut q = pos;
    let mut i: usize = 0;
    proof {
        assert(ps@.skip(0) =~= ps@);
    }
    while i < ps.len()
        invariant
            pos <= q <= b@.len(),
            i <= ps@.len(),
            parts_len(ps@, rest_of(b@, pos as int)) == shifted(
                parts_len(ps@.skip(i as int), rest_of(b@, q as int)),
                (q - pos) as nat,
            ),
        decreases ps@.len() - i,
    {
        let ghost rs = ps@.skip(i as int);
        proof {
            assert(rs[0] == ps@[i as int]);
            assert(rs.skip(1) =~= ps@.skip(i + 1));
        }
        match skip_part(b, q, ps[i]) {
            Some(q2) => {
                proof {
                    assert(rest_of(b@, q as int).skip((q2 - q) as int) =~= rest_of(b@, q2 as int));
                }
                q = q2;
                i += 1;
            },
            None => {
                return None;
            },
        }
    }
    proof {
        assert(ps@.skip(i as int) =~= Seq::<Part>::empty());
    }
    Some(q)
}

} // verus!
