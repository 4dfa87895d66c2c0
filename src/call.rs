//! Transaction call payloads: the pallet index and call index that select a
//! function of the runtime, followed by its encoded byte-string argument.

use vstd::prelude::*;
use vstd::string::StringSliceAdditionalSpecFns;
use crate::scale::{compact_prefix, bytes_encoding, compact_prefix_unique, compact_u32, encode_bytes, starts_with,
    starts_with_concat};

verus! {

#[derive(Clone, Debug, PartialEq, Eq)]
pub struct Call {
    pub pallet_index: u8,
    pub call_index: u8,
    pub arg: Vec<u8>,
}

impl View for Call {
    type V = (u8, u8, Seq<u8>);

    open spec fn view(&self) -> (u8, u8, Seq<u8>) {
        (self.pallet_index, self.call_index, self.arg@)
    }
}

/// The payload of a call: both indices, then the argument as a byte string.
pub open spec fn call_bytes(c: (u8, u8, Seq<u8>)) -> Seq<u8> {
    seq![c.0, c.1] + bytes_encoding(c.2)
}

pub open spec fn arg_fits(c: (u8, u8, Seq<u8>)) -> bool {
    c.2.len() <= u32::MAX
}

/// What decoding `b` yields: the call that encodes to exactly `b`, or nothing
/// when no call does.
pub open spec fn decodes_to(b: Seq<u8>, r: Option<(u8, u8, Seq<u8>)>) -> bool {
    match r {
        Some(c) => arg_fits(c) && call_bytes(c) == b,
        None => forall|c: (u8, u8, Seq<u8>)| arg_fits(c) ==> #[trigger] call_bytes(c) != b,
    }
}

pub open spec fn call_view(r: Option<Call>) -> Option<(u8, u8, Seq<u8>)> {
    match r {
        Some(c) => Some(c@),
        None => None,
    }
}

impl Call {
    /// A call whose argument is the UTF-8 bytes of `text`.
    pub fn with_text(pallet_index: u8, call_index: u8, text: &str) -> (r: Call)
        ensures
            r@ == (pallet_index, call_index, text.spec_bytes()),
    {
        let b = text.as_bytes();
        let mut arg: Vec<u8> = Vec::new();
        crate::scale::push_all(&mut arg, b);
        Call { pallet_index, call_index, arg }
    }

    pub fn encode(&self) -> (r: Vec<u8>)
        requires
            arg_fits(self@),
        ensures
            r@ == call_bytes(self@),
    {
        let mut r: Vec<u8> = vec![self.pallet_index, self.call_index];
        let tail = encode_bytes(self.arg.as_slice());
        crate::scale::push_all(&mut r, tail.as_slice());
        assert(r@ =~= call_bytes(self@));
        r
    }

    pub fn decode(b: &[u8]) -> (r: Option<Call>)
        ensures
            decodes_to(b@, call_view(r)),
    {
        if b.len() < 2 {
            proof {
                assert forall|c: (u8, u8, Seq<u8>)| arg_fits(c) implies #[trigger] call_bytes(c)
                    != b@ by {
                    assert(call_bytes(c).len() >= 2);
                }
            }
            return None;
        }
        let rest = slice_from(b, 2);
        match compact_prefix(rest.as_slice()) {
            None => {
                proof {
                    assert forall|c: (u8, u8, Seq<u8>)| arg_fits(c) implies #[trigger] call_bytes(
                        c,
                    ) != b@ by {
                        if call_bytes(c) == b@ {
                            assert(rest@ =~= bytes_encoding(c.2));
                            starts_with_concat(compact_u32(c.2.len() as u32), c.2);
                        }
                    }
                }
                None
            },
            Some((n, left)) => {
                if left as u64 != n as u64 {
                    proof {
                        assert forall|c: (u8, u8, Seq<u8>)| arg_fits(c) implies #[trigger] call_bytes(
                            c,
                        ) != b@ by {
                            if call_bytes(c) == b@ {
                                assert(rest@ =~= bytes_encoding(c.2));
                                starts_with_concat(compact_u32(c.2.len() as u32), c.2);
                                compact_prefix_unique(rest@, n, c.2.len() as u32);
                            }
                        }
                    }
                    None
                } else {
                    let head = rest.len() - left;
                    let arg = slice_from(rest.as_slice(), head);
                    let r = Call { pallet_index: b[0], call_index: b[1], arg };
                    proof {
                        assert(rest@ =~= rest@.subrange(0, head as int) + arg@);
                        assert(b@ =~= seq![b@[0], b@[1]] + rest@);
                        assert(b@ =~= call_bytes(r@));
                    }
                    Some(r)
                }
            },
        }
    }
}

/// A copy of `b` from `start` on.
fn slice_from(b: &[u8], start: usize) -> (r: Vec<u8>)
    requires
        start <= b@.len(),
    ensures
        r@ == b@.subrange(start as int, b@.len() as int),
{
    let mut r: Vec<u8> = Vec::new();
    let mut i: usize = start;
    while i < b.len()
        invariant
            start <= i <= b@.len(),
            r@ == b@.subrange(start as int, i as int),
        decreases b@.len() - i,
    {
        r.push(b[i]);
        i += 1;
        assert(r@ =~= b@.subrange(start as int, i as int));
    }
    r
}

/// Encoding a call and decoding the bytes gives the same call back.
pub proof fn call_round_trip(c: (u8, u8, Seq<u8>), r: Option<(u8, u8, Seq<u8>)>)
    requires
        arg_fits(c),
        decodes_to(call_bytes(c), r),
    ensures
        r == Some(c),
{
    assert(call_bytes(c) == call_bytes(c));
    let d = r.unwrap();
    let (b1, b2) = (call_bytes(c), call_bytes(d));
    assert(b1[0] == c.0 && b2[0] == d.0 && b1[1] == c.1 && b2[1] == d.1);
    let tail = b1.subrange(2, b1.len() as int);
    assert(tail =~= bytes_encoding(c.2));
    assert(tail =~= b2.subrange(2, b2.len() as int));
    assert(b2.subrange(2, b2.len() as int) =~= bytes_encoding(d.2));
    starts_with_concat(compact_u32(c.2.len() as u32), c.2);
    starts_with_concat(compact_u32(d.2.len() as u32), d.2);
    compact_prefix_unique(tail, c.2.len() as u32, d.2.len() as u32);
    let k = compact_u32(c.2.len() as u32).len() as int;
    assert(c.2 =~= tail.subrange(k, tail.len() as int));
    assert(d.2 =~= tail.subrange(k, tail.len() as int));
}

} // verus!
