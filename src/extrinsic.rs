//! Framing of a signed transaction: the payload the signer signs, and the
//! bytes sent to the node once the signature is known. Transactions are
//! immortal, signed by a 32-byte account with an sr25519 signature.

use vstd::prelude::*;
use crate::layout::{encode_le, Layout};
use crate::scale::{bytes_encoding, compact_u32, encode_bytes, push_all};
use crate::types::{AccountId32, H256};

verus! {

/// The 256-bit BLAKE2b digest of `data`.
pub uninterp spec fn blake2_256_of(data: Seq<u8>) -> Seq<u8>;

/// Relies on `sp_core_hashing::blake2_256`: a digest of the input alone.
#[verifier::external_body]
fn blake2_256(data: &[u8]) -> (r: [u8; 32])
    ensures
        r@ == blake2_256_of(data@),
{
    sp_core_hashing::blake2_256(data)
}

/// What a transaction carries besides its call: an immortal era, the
/// sender's nonce and the tip, both compact.
pub open spec fn extra_bytes(nonce: u32, tip: u32) -> Seq<u8> {
    seq![0u8] + compact_u32(nonce) + compact_u32(tip)
}

/// The payload covered by the signature: call, extra, then the runtime's
/// spec and transaction versions and the genesis hash, twice (once as the
/// chain, once as the era's block).
pub open spec fn signed_payload(
    call: Seq<u8>,
    nonce: u32,
    tip: u32,
    spec_version: u32,
    tx_version: u32,
    genesis: Seq<u8>,
) -> Seq<u8> {
    call + extra_bytes(nonce, tip) + spec_version.enc() + tx_version.enc() + genesis + genesis
}

/// Payloads longer than 256 bytes are signed through their BLAKE2b-256 digest.
pub open spec fn to_sign(payload: Seq<u8>) -> Seq<u8> {
    if payload.len() > 256 {
        blake2_256_of(payload)
    } else {
        payload
    }
}

/// The body of a signed transaction: version byte (signed, format 4), the
/// sender as an account address, the signature tagged sr25519, the extra
/// and the call.
pub open spec fn extrinsic_body(
    signer: Seq<u8>,
    signature: Seq<u8>,
    nonce: u32,
    tip: u32,
    call: Seq<u8>,
) -> Seq<u8> {
    seq![0x84u8, 0u8] + signer + seq![1u8] + signature + extra_bytes(nonce, tip) + call
}

fn extra(nonce: u32, tip: u32) -> (r: Vec<u8>)
    ensures
        r@ == extra_bytes(nonce, tip),
{
    let mut r: Vec<u8> = vec![0u8];
    let n = crate::scale::compact_bytes(nonce);
    push_all(&mut r, n.as_slice());
    let t = crate::scale::compact_bytes(tip);
    push_all(&mut r, t.as_slice());
    assert(r@ =~= extra_bytes(nonce, tip));
    r
}

/// The bytes the sender signs for `call`.
pub fn signing_payload(
    call: &[u8],
    nonce: u32,
    tip: u32,
    spec_version: u32,
    tx_version: u32,
    genesis: &H256,
) -> (r: Vec<u8>)
    ensures
        r@ == to_sign(
            signed_payload(call@, nonce, tip, spec_version, tx_version, genesis.bytes@),
        ),
{
    let mut p: Vec<u8> = Vec::new();
    push_all(&mut p, call);
    let e = extra(nonce, tip);
    push_all(&mut p, e.as_slice());
    let sv = encode_le(spec_version as u128, 4);
    push_all(&mut p, sv.as_slice());
    let tv = encode_le(tx_version as u128, 4);
    push_all(&mut p, tv.as_slice());
    push_all(&mut p, genesis.bytes.as_slice());
    push_all(&mut p, genesis.bytes.as_slice());
    assert(p@ =~= signed_payload(call@, nonce, tip, spec_version, tx_version, genesis.bytes@));
    if p.len() > 256 {
        let h = blake2_256(p.as_slice());
        let mut r: Vec<u8> = Vec::new();
        push_all(&mut r, h.as_slice());
        r
    } else {
        p
    }
}

/// The signed transaction as sent to the node: its body as a byte string.
pub fn signed_extrinsic(
    signer: &AccountId32,
    signature: &[u8; 64],
    nonce: u32,
    tip: u32,
    call: &[u8],
) -> (r: Option<Vec<u8>>)
    ensures
        ({
            let body = extrinsic_body(signer.bytes@, signature@, nonce, tip, call@);
            if body.len() <= u32::MAX {
                r is Some && r->Some_0@ == bytes_encoding(body)
            } else {
                r is None
            }
        }),
{
    let mut body: Vec<u8> = vec![0x84u8, 0u8];
    push_all(&mut body, signer.bytes.as_slice());
    body.push(1u8);
    push_all(&mut body, signature.as_slice());
    let e = extra(nonce, tip);
    push_all(&mut body, e.as_slice());
    push_all(&mut body, call);
    assert(body@ =~= extrinsic_body(signer.bytes@, signature@, nonce, tip, call@));
    if body.len() > u32::MAX as usize {
        return None;
    }
    Some(encode_bytes(body.as_slice()))
}

} // verus!
