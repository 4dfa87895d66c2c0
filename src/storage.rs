//! Storage key resolution: where the ledger keeps a module's item, and the
//! entry of a map item under a given key.

use vstd::prelude::*;
use vstd::string::StringSliceAdditionalSpecFns;
use crate::layout::{encode_le, Layout};
use crate::scale::{bytes_encoding, encode_bytes, push_all};
use crate::types::AccountId32;

verus! {

/// The 128-bit xxHash digest (two 64-bit hashes, seeds 0 and 1) of `data`.
pub uninterp spec fn twox128_of(data: Seq<u8>) -> Seq<u8>;

/// The 128-bit BLAKE2b digest of `data`.
pub uninterp spec fn blake2_128_of(data: Seq<u8>) -> Seq<u8>;

/// Relies on `sp_core_hashing::twox_128`: a digest of the input alone.
#[verifier::external_body]
fn twox_128(data: &[u8]) -> (r: [u8; 16])
    ensures
        r@ == twox128_of(data@),
{
    sp_core_hashing::twox_128(data)
}

/// Relies on `sp_core_hashing::blake2_128`: a digest of the input alone.
#[verifier::external_body]
fn blake2_128(data: &[u8]) -> (r: [u8; 16])
    ensures
        r@ == blake2_128_of(data@),
{
    sp_core_hashing::blake2_128(data)
}

/// Location of a module's item: the hashes of both names.
pub open spec fn item_key(module: Seq<u8>, item: Seq<u8>) -> Seq<u8> {
    twox128_of(module) + twox128_of(item)
}

/// Location of one entry of a map item; the encoded key is hashed and then
/// appended in the clear, so entries can be listed back.
pub open spec fn entry_key(module: Seq<u8>, item: Seq<u8>, key: Seq<u8>) -> Seq<u8> {
    item_key(module, item) + blake2_128_of(key) + key
}

pub fn storage_value_key(module: &str, item: &str) -> (r: Vec<u8>)
    ensures
        r@ == item_key(module.spec_bytes(), item.spec_bytes()),
{
    let mut r: Vec<u8> = Vec::new();
    let m = twox_128(module.as_bytes());
    push_all(&mut r, m.as_slice());
    let i = twox_128(item.as_bytes());
    push_all(&mut r, i.as_slice());
    r
}

pub fn storage_map_key(module: &str, item: &str, key: &[u8]) -> (r: Vec<u8>)
    ensures
        r@ == entry_key(module.spec_bytes(), item.spec_bytes(), key@),
{
    let mut r = storage_value_key(module, item);
    let h = blake2_128(key);
    push_all(&mut r, h.as_slice());
    push_all(&mut r, key);
    r
}

pub fn twin_key(id: u32) -> (r: Vec<u8>)
    ensures
        r@ == entry_key("TfgridModule".spec_bytes(), "Twins".spec_bytes(), id.enc()),
{
    storage_map_key("TfgridModule", "Twins", encode_le(id as u128, 4).as_slice())
}

pub fn farm_key(id: u32) -> (r: Vec<u8>)
    ensures
        r@ == entry_key("TfgridModule".spec_bytes(), "Farms".spec_bytes(), id.enc()),
{
    storage_map_key("TfgridModule", "Farms", encode_le(id as u128, 4).as_slice())
}

pub fn farm_id_by_name_key(name: &str) -> (r: Vec<u8>)
    requires
        name.spec_bytes().len() <= u32::MAX,
    ensures
        r@ == entry_key(
            "TfgridModule".spec_bytes(),
            "FarmIdByName".spec_bytes(),
            bytes_encoding(name.spec_bytes()),
        ),
{
    storage_map_key("TfgridModule", "FarmIdByName", encode_bytes(name.as_bytes()).as_slice())
}

pub fn node_key(id: u32) -> (r: Vec<u8>)
    ensures
        r@ == entry_key("TfgridModule".spec_bytes(), "Nodes".spec_bytes(), id.enc()),
{
    storage_map_key("TfgridModule", "Nodes", encode_le(id as u128, 4).as_slice())
}

pub fn contract_key(id: u64) -> (r: Vec<u8>)
    ensures
        r@ == entry_key("SmartContractModule".spec_bytes(), "Contracts".spec_bytes(), id.enc()),
{
    storage_map_key("SmartContractModule", "Contracts", encode_le(id as u128, 8).as_slice())
}

pub fn account_key(account: &AccountId32) -> (r: Vec<u8>)
    ensures
        r@ == entry_key("System".spec_bytes(), "Account".spec_bytes(), account.bytes@),
{
    storage_map_key("System", "Account", account.bytes.as_slice())
}

pub fn events_key() -> (r: Vec<u8>)
    ensures
        r@ == item_key("System".spec_bytes(), "Events".spec_bytes()),
{
    storage_value_key("System", "Events")
}

} // verus!
