//! On-chain layout of the current schema, and the shapes that the legacy
//! schema shares with it. Text is held as the raw bytes the ledger stores.

use vstd::prelude::*;
use crate::types::{
    AccountId32, Cause, EntityProof, FarmCertification, FarmingPolicyLimit, NodeCertification,
    RentContract, Resources, StellarSignature,
};

verus! {

#[derive(Clone, Debug, PartialEq, Eq)]
pub struct PublicIP {
    pub ip: Vec<u8>,
    pub gateway: Vec<u8>,
    pub contract_id: u64,
}

#[derive(Clone, Debug, PartialEq, Eq)]
pub struct Location {
    pub longitude: Vec<u8>,
    pub latitude: Vec<u8>,
}

#[derive(Clone, Debug, PartialEq, Eq)]
pub struct Interface {
    pub name: Vec<u8>,
    pub mac: Vec<u8>,
    pub ips: Vec<Vec<u8>>,
}

#[derive(Clone, Debug, PartialEq, Eq)]
pub struct PublicConfig {
    pub ipv4: Vec<u8>,
    pub ipv6: Vec<u8>,
    pub gw4: Vec<u8>,
    pub gw6: Vec<u8>,
    pub domain: Vec<u8>,
}

#[derive(Clone, Debug, PartialEq, Eq)]
pub struct Twin {
    pub version: u32,
    pub id: u32,
    pub account_id: AccountId32,
    pub ip: Vec<u8>,
    pub entities: Vec<EntityProof>,
}

#[derive(Clone, Debug, PartialEq, Eq)]
pub struct FarmingPolicy {
    pub version: u32,
    pub id: u32,
    pub name: Vec<u8>,
    pub cu: u32,
    pub su: u32,
    pub nu: u32,
    pub ipv4: u32,
    pub minimal_uptime: u16,
    pub policy_created: u32,
    pub policy_end: u32,
    pub immutable: bool,
    pub default: bool,
    pub node_certification: NodeCertification,
    pub farm_certification: FarmCertification,
}

#[derive(Clone, Debug, PartialEq, Eq)]
pub struct Farm {
    pub version: u32,
    pub id: u32,
    pub name: Vec<u8>,
    pub twin_id: u32,
    pub pricing_policy_id: u32,
    pub public_ips: Vec<PublicIP>,
    pub dedicated_farm: bool,
    pub certification: FarmCertification,
    pub farming_policy_limits: Option<FarmingPolicyLimit>,
}

#[derive(Clone, Debug, PartialEq, Eq)]
pub struct Node {
    pub version: u32,
    pub id: u32,
    pub farm_id: u32,
    pub twin_id: u32,
    pub resources: Resources,
    pub location: Location,
    pub country: Vec<u8>,
    pub city: Vec<u8>,
    pub public_config: Option<PublicConfig>,
    pub created: u64,
    pub farming_policy_id: u32,
    pub interfaces: Vec<Interface>,
    pub certification: NodeCertification,
    pub secure_boot: bool,
    pub virtualized: bool,
    pub serial_number: Vec<u8>,
    pub connection_price: u32,
}

#[derive(Clone, Debug, PartialEq, Eq)]
pub struct NodeContract {
    pub node_id: u32,
    pub deployment_data: Vec<u8>,
    pub deployment_hash: Vec<u8>,
    pub public_ips: u32,
    pub public_ips_list: Vec<PublicIP>,
}

#[derive(Clone, Debug, PartialEq, Eq)]
pub struct NameContract {
    pub name: Vec<u8>,
}

#[derive(Clone, Debug, PartialEq, Eq)]
pub enum ContractData {
    NodeContract(NodeContract),
    NameContract(NameContract),
    RentContract(RentContract),
}

/// Contract state of the current schema; the grace period is stored as a
/// 64-bit block number.
#[derive(Clone, Copy, Debug, PartialEq, Eq)]
pub enum ContractState {
    Created,
    Deleted(Cause),
    GracePeriod(u64),
}

#[derive(Clone, Debug, PartialEq, Eq)]
pub struct Contract {
    pub version: u32,
    pub state: ContractState,
    pub contract_id: u64,
    pub twin_id: u32,
    pub contract_type: ContractData,
}

#[derive(Clone, Copy, Debug, PartialEq, Eq)]
pub struct MintTransaction {
    pub amount: u64,
    pub target: AccountId32,
    pub block: u32,
    pub votes: u32,
}

#[derive(Clone, Debug, PartialEq, Eq)]
pub struct BurnTransaction {
    pub block: u32,
    pub amount: u64,
    pub target: Vec<u8>,
    pub signatures: Vec<StellarSignature>,
    pub sequence_number: u64,
}

#[derive(Clone, Debug, PartialEq, Eq)]
pub struct RefundTransaction {
    pub block: u32,
    pub amount: u64,
    pub target: Vec<u8>,
    pub tx_hash: Vec<u8>,
    pub signatures: Vec<StellarSignature>,
    pub sequence_number: u64,
}

#[derive(Clone, Copy, Debug, PartialEq, Eq)]
pub enum Unit {
    Bytes,
    Kilobytes,
    Megabytes,
    Gigabytes,
    Terrabytes,
}

#[derive(Clone, Copy, Debug, PartialEq, Eq)]
pub struct Policy {
    pub value: u32,
    pub unit: Unit,
}

#[derive(Clone, Debug, PartialEq, Eq)]
pub struct PricingPolicy {
    pub version: u32,
    pub id: u32,
    pub name: Vec<u8>,
    pub su: Policy,
    pub cu: Policy,
    pub nu: Policy,
    pub ipu: Policy,
    pub unique_name: Policy,
    pub domain_name: Policy,
    pub foundation_account: AccountId32,
    pub certified_sales_account: AccountId32,
    pub discount_for_dedication_nodes: u8,
}

#[derive(Clone, Debug, PartialEq, Eq)]
pub struct Entity {
    pub version: u32,
    pub id: u32,
    pub name: Vec<u8>,
    pub account_id: AccountId32,
    pub country: Vec<u8>,
    pub city: Vec<u8>,
}

#[derive(Clone, Copy, Debug, PartialEq, Eq)]
pub struct Consumption {
    pub contract_id: u64,
    pub timestamp: u64,
    pub cru: u64,
    pub sru: u64,
    pub hru: u64,
    pub mru: u64,
    pub nru: u64,
}

#[derive(Clone, Copy, Debug, PartialEq, Eq)]
pub enum DiscountLevel {
    NoDiscount,
    Default,
    Bronze,
    Silver,
    Gold,
}

#[derive(Clone, Copy, Debug, PartialEq, Eq)]
pub struct ContractBill {
    pub contract_id: u64,
    pub timestamp: u64,
    pub discount_level: DiscountLevel,
    pub amount_billed: u128,
}

} // verus!
