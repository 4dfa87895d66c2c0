//! On-chain layout of the legacy schema, where it differs from the current
//! one: a two-valued certification type, no farming policy limits, no
//! connection price, no grace period. The policy, entity, consumption and
//! bill records have the current layout but are types of their own.

use vstd::prelude::*;
use crate::types::{AccountId32, Cause, Resources};
use crate::wire;

verus! {

#[derive(Clone, Copy, Debug, PartialEq, Eq)]
pub enum CertificationType {
    Diy,
    Certified,
}

#[derive(Clone, Debug, PartialEq, Eq)]
pub struct FarmingPolicy {
    pub version: u32,
    pub id: u32,
    pub name: Vec<u8>,
    pub cu: u32,
    pub su: u32,
    pub nu: u32,
    pub ipv4: u32,
    pub timestamp: u64,
    pub certification_type: CertificationType,
}

#[derive(Clone, Debug, PartialEq, Eq)]
pub struct Farm {
    pub version: u32,
    pub id: u32,
    pub name: Vec<u8>,
    pub twin_id: u32,
    pub pricing_policy_id: u32,
    pub certification_type: CertificationType,
    pub public_ips: Vec<wire::PublicIP>,
    pub dedicated_farm: bool,
}

#[derive(Clone, Debug, PartialEq, Eq)]
pub struct Node {
    pub version: u32,
    pub id: u32,
    pub farm_id: u32,
    pub twin_id: u32,
    pub resources: Resources,
    pub location: wire::Location,
    pub country: Vec<u8>,
    pub city: Vec<u8>,
    pub public_config: Option<wire::PublicConfig>,
    pub created: u64,
    pub farming_policy_id: u32,
    pub interfaces: Vec<wire::Interface>,
    pub certification_type: CertificationType,
    pub secure_boot: bool,
    pub virtualized: bool,
    pub serial_number: Vec<u8>,
}

#[derive(Clone, Copy, Debug, PartialEq, Eq)]
pub enum ContractState {
    Created,
    Deleted(Cause),
}

#[derive(Clone, Debug, PartialEq, Eq)]
pub struct Contract {
    pub version: u32,
    pub state: ContractState,
    pub contract_id: u64,
    pub twin_id: u32,
    pub contract_type: wire::ContractData,
}

#[derive(Clone, Copy, Debug, PartialEq, Eq)]
pub enum Unit {
    Bytes,
    Kilobytes,
    Megabytes,
    Gigabytes,
    Terrabytes,
}

#[derive(Clone, Copy, Debug, PartialEq, Eq)]
pub struct Policy {
    pub value: u32,
    pub unit: Unit,
}

#[derive(Clone, Debug, PartialEq, Eq)]
pub struct PricingPolicy {
    pub version: u32,
    pub id: u32,
    pub name: Vec<u8>,
    pub su: Policy,
    pub cu: Policy,
    pub nu: Policy,
    pub ipu: Policy,
    pub unique_name: Policy,
    pub domain_name: Policy,
    pub foundation_account: AccountId32,
    pub certified_sales_account: AccountId32,
    pub discount_for_dedication_nodes: u8,
}

#[derive(Clone, Debug, PartialEq, Eq)]
pub struct Entity {
    pub version: u32,
    pub id: u32,
    pub name: Vec<u8>,
    pub account_id: AccountId32,
    pub country: Vec<u8>,
    pub city: Vec<u8>,
}

#[derive(Clone, Copy, Debug, PartialEq, Eq)]
pub struct Consumption {
    pub contract_id: u64,
    pub timestamp: u64,
    pub cru: u64,
    pub sru: u64,
    pub hru: u64,
    pub mru: u64,
    pub nru: u64,
}

#[derive(Clone, Copy, Debug, PartialEq, Eq)]
pub enum DiscountLevel {
    NoDiscount,
    Default,
    Bronze,
    Silver,
    Gold,
}

#[derive(Clone, Copy, Debug, PartialEq, Eq)]
pub struct ContractBill {
    pub contract_id: u64,
    pub timestamp: u64,
    pub discount_level: DiscountLevel,
    pub amount_billed: u128,
}

#[derive(Clone, Copy, Debug, PartialEq, Eq)]
pub enum CertificationCodeType {
    Farm,
    Entity,
}

#[derive(Clone, Debug, PartialEq, Eq)]
pub struct CertificationCodes {
    pub version: u32,
    pub id: u32,
    pub name: Vec<u8>,
    pub description: Vec<u8>,
    pub certification_code_type: CertificationCodeType,
}

} // verus!
