//! Conversion of each wire schema into the domain model. Every conversion is
//! total; fields that the legacy schema lacks get a fixed default, which means
//! "unknown in legacy data", not a measured zero.

use vstd::prelude::*;
use crate::legacy;
use crate::text::{lossy_utf8, text_of};
use crate::types::{
    BlockNumber, BurnTransaction, Contract, ContractData, ContractState, Farm, FarmCertification,
    FarmingPolicy, Interface, Location, MintTransaction, NameContract, Node, NodeCertification,
    NodeContract, PublicConfig, PublicIP, RefundTransaction, Twin, Balance, CertificationCodeType,
    CertificationCodes, Consumption, ContractBill, DiscountLevel, Entity, Policy, PricingPolicy, Unit,
};
use crate::wire;

verus! {

// ---------------------------------------------------------------- relations

pub open spec fn texts_from(r: Seq<String>, w: Seq<Vec<u8>>) -> bool {
    &&& r.len() == w.len()
    &&& forall|i: int| 0 <= i < r.len() ==> (#[trigger] r[i])@ == lossy_utf8(w[i]@)
}

pub open spec fn public_ip_from(r: PublicIP, w: wire::PublicIP) -> bool {
    &&& r.ip@ == lossy_utf8(w.ip@)
    &&& r.gateway@ == lossy_utf8(w.gateway@)
    &&& r.contract_id == w.contract_id
}

pub open spec fn public_ips_from(r: Seq<PublicIP>, w: Seq<wire::PublicIP>) -> bool {
    &&& r.len() == w.len()
    &&& forall|i: int| 0 <= i < r.len() ==> #[trigger] public_ip_from(r[i], w[i])
}

pub open spec fn location_from(r: Location, w: wire::Location) -> bool {
    &&& r.longitude@ == lossy_utf8(w.longitude@)
    &&& r.latitude@ == lossy_utf8(w.latitude@)
}

pub open spec fn interface_from(r: Interface, w: wire::Interface) -> bool {
    &&& r.name@ == lossy_utf8(w.name@)
    &&& r.mac@ == lossy_utf8(w.mac@)
    &&& texts_from(r.ips@, w.ips@)
}

pub open spec fn interfaces_from(r: Seq<Interface>, w: Seq<wire::Interface>) -> bool {
    &&& r.len() == w.len()
    &&& forall|i: int| 0 <= i < r.len() ==> #[trigger] interface_from(r[i], w[i])
}

pub open spec fn public_config_from(r: PublicConfig, w: wire::PublicConfig) -> bool {
    &&& r.ipv4@ == lossy_utf8(w.ipv4@)
    &&& r.ipv6@ == lossy_utf8(w.ipv6@)
    &&& r.gw4@ == lossy_utf8(w.gw4@)
    &&& r.gw6@ == lossy_utf8(w.gw6@)
    &&& r.domain@ == lossy_utf8(w.domain@)
}

pub open spec fn public_config_opt_from(
    r: Option<PublicConfig>,
    w: Option<wire::PublicConfig>,
) -> bool {
    match (r, w) {
        (Some(a), Some(b)) => public_config_from(a, b),
        (None, None) => true,
        _ => false,
    }
}

/// The legacy certification type seen as a node certification.
pub open spec fn node_certification_of(c: legacy::CertificationType) -> NodeCertification {
    match c {
        legacy::CertificationType::Diy => NodeCertification::Diy,
        legacy::CertificationType::Certified => NodeCertification::Certified,
    }
}

/// The legacy certification type seen as a farm certification.
pub open spec fn farm_certification_of(c: legacy::CertificationType) -> FarmCertification {
    match c {
        legacy::CertificationType::Diy => FarmCertification::NotCertified,
        legacy::CertificationType::Certified => FarmCertification::Gold,
    }
}

pub open spec fn twin_from(r: Twin, w: wire::Twin) -> bool {
    &&& r.version == w.version
    &&& r.id == w.id
    &&& r.account_id == w.account_id
    &&& r.ip@ == lossy_utf8(w.ip@)
    &&& r.entities@ == w.entities@
}

pub open spec fn farm_from_current(r: Farm, w: wire::Farm) -> bool {
    &&& r.version == w.version
    &&& r.id == w.id
    &&& r.name@ == lossy_utf8(w.name@)
    &&& r.twin_id == w.twin_id
    &&& r.pricing_policy_id == w.pricing_policy_id
    &&& r.certification == w.certification
    &&& public_ips_from(r.public_ips@, w.public_ips@)
    &&& r.dedicated_farm == w.dedicated_farm
    &&& r.farming_policy_limits == w.farming_policy_limits
}

pub open spec fn farm_from_legacy(r: Farm, w: legacy::Farm) -> bool {
    &&& r.version == w.version
    &&& r.id == w.id
    &&& r.name@ == lossy_utf8(w.name@)
    &&& r.twin_id == w.twin_id
    &&& r.pricing_policy_id == w.pricing_policy_id
    &&& r.certification == farm_certification_of(w.certification_type)
    &&& public_ips_from(r.public_ips@, w.public_ips@)
    &&& r.dedicated_farm == w.dedicated_farm
    &&& r.farming_policy_limits.is_none()
}

pub open spec fn farming_policy_from_current(r: FarmingPolicy, w: wire::FarmingPolicy) -> bool {
    &&& r.version == w.version
    &&& r.id == w.id
    &&& r.name@ == lossy_utf8(w.name@)
    &&& r.cu == w.cu
    &&& r.su == w.su
    &&& r.nu == w.nu
    &&& r.ipv4 == w.ipv4
    &&& r.minimal_uptime == w.minimal_uptime
    &&& r.policy_created == w.policy_created
    &&& r.policy_end == w.policy_end
    &&& r.immutable == w.immutable
    &&& r.default == w.default
    &&& r.node_certification == w.node_certification
    &&& r.farm_certification == w.farm_certification
}

/// The legacy policy knows none of the fields after `ipv4`; they take the
/// zero value, and the legacy timestamp and certification type are dropped.
pub open spec fn farming_policy_from_legacy(r: FarmingPolicy, w: legacy::FarmingPolicy) -> bool {
    &&& r.version == w.version
    &&& r.id == w.id
    &&& r.name@ == lossy_utf8(w.name@)
    &&& r.cu == w.cu
    &&& r.su == w.su
    &&& r.nu == w.nu
    &&& r.ipv4 == w.ipv4
    &&& r.minimal_uptime == 0
    &&& r.policy_created == 0
    &&& r.policy_end == 0
    &&& !r.immutable
    &&& !r.default
    &&& r.node_certification == NodeCertification::Diy
    &&& r.farm_certification == FarmCertification::NotCertified
}

pub open spec fn node_from_current(r: Node, w: wire::Node) -> bool {
    &&& r.version == w.version
    &&& r.id == w.id
    &&& r.farm_id == w.farm_id
    &&& r.twin_id == w.twin_id
    &&& r.resources == w.resources
    &&& location_from(r.location, w.location)
    &&& r.country@ == lossy_utf8(w.country@)
    &&& r.city@ == lossy_utf8(w.city@)
    &&& public_config_opt_from(r.public_config, w.public_config)
    &&& r.created == w.created
    &&& r.farming_policy_id == w.farming_policy_id
    &&& interfaces_from(r.interfaces@, w.interfaces@)
    &&& r.certification == w.certification
    &&& r.secure_boot == w.secure_boot
    &&& r.virtualized == w.virtualized
    &&& r.serial_number@ == lossy_utf8(w.serial_number@)
    &&& r.connection_price == w.connection_price
}

/// The legacy node has no connection price: it reads as 0.
pub open spec fn node_from_legacy(r: Node, w: legacy::Node) -> bool {
    &&& r.version == w.version
    &&& r.id == w.id
    &&& r.farm_id == w.farm_id
    &&& r.twin_id == w.twin_id
    &&& r.resources == w.resources
    &&& location_from(r.location, w.location)
    &&& r.country@ == lossy_utf8(w.country@)
    &&& r.city@ == lossy_utf8(w.city@)
    &&& public_config_opt_from(r.public_config, w.public_config)
    &&& r.created == w.created
    &&& r.farming_policy_id == w.farming_policy_id
    &&& interfaces_from(r.interfaces@, w.interfaces@)
    &&& r.certification == node_certification_of(w.certification_type)
    &&& r.secure_boot == w.secure_boot
    &&& r.virtualized == w.virtualized
    &&& r.serial_number@ == lossy_utf8(w.serial_number@)
    &&& r.connection_price == 0
}

pub open spec fn node_contract_from(r: NodeContract, w: wire::NodeContract) -> bool {
    &&& r.node_id == w.node_id
    &&& r.deployment_data@ == w.deployment_data@
    &&& r.deployment_hash@ == w.deployment_hash@
    &&& r.public_ips == w.public_ips
    &&& public_ips_from(r.public_ips_list@, w.public_ips_list@)
}

/// The body keeps its variant; its payload is converted.
pub open spec fn contract_data_from(r: ContractData, w: wire::ContractData) -> bool {
    match (r, w) {
        (ContractData::NodeContract(a), wire::ContractData::NodeContract(b)) => node_contract_from(
            a,
            b,
        ),
        (ContractData::NameContract(a), wire::ContractData::NameContract(b)) => a.name@
            == lossy_utf8(b.name@),
        (ContractData::RentContract(a), wire::ContractData::RentContract(b)) => a == b,
        _ => false,
    }
}

/// The current state; the 64-bit grace period block is cut to a block number.
pub open spec fn contract_state_of_current(s: wire::ContractState) -> ContractState {
    match s {
        wire::ContractState::Created => ContractState::Created,
        wire::ContractState::Deleted(c) => ContractState::Deleted(c),
        wire::ContractState::GracePeriod(n) => ContractState::GracePeriod(n as BlockNumber),
    }
}

pub open spec fn contract_state_of_legacy(s: legacy::ContractState) -> ContractState {
    match s {
        legacy::ContractState::Created => ContractState::Created,
        legacy::ContractState::Deleted(c) => ContractState::Deleted(c),
    }
}

pub open spec fn contract_from_current(r: Contract, w: wire::Contract) -> bool {
    &&& r.version == w.version
    &&& r.state == contract_state_of_current(w.state)
    &&& r.contract_id == w.contract_id
    &&& r.twin_id == w.twin_id
    &&& contract_data_from(r.contract_type, w.contract_type)
}

pub open spec fn contract_from_legacy(r: Contract, w: legacy::Contract) -> bool {
    &&& r.version == w.version
    &&& r.state == contract_state_of_legacy(w.state)
    &&& r.contract_id == w.contract_id
    &&& r.twin_id == w.twin_id
    &&& contract_data_from(r.contract_type, w.contract_type)
}

/// One for one, by variant name.
pub open spec fn unit_of_current(u: wire::Unit) -> Unit {
    match u {
        wire::Unit::Bytes => Unit::Bytes,
        wire::Unit::Kilobytes => Unit::Kilobytes,
        wire::Unit::Megabytes => Unit::Megabytes,
        wire::Unit::Gigabytes => Unit::Gigabytes,
        wire::Unit::Terrabytes => Unit::Terrabytes,
    }
}

/// One for one, by variant name.
pub open spec fn discount_level_of_current(u: wire::DiscountLevel) -> DiscountLevel {
    match u {
        wire::DiscountLevel::NoDiscount => DiscountLevel::NoDiscount,
        wire::DiscountLevel::Default => DiscountLevel::Default,
        wire::DiscountLevel::Bronze => DiscountLevel::Bronze,
        wire::DiscountLevel::Silver => DiscountLevel::Silver,
        wire::DiscountLevel::Gold => DiscountLevel::Gold,
    }
}

pub open spec fn policy_of_current(p: wire::Policy) -> Policy {
    Policy { value: p.value, unit: unit_of_current(p.unit) }
}

pub open spec fn pricing_policy_from_current(r: PricingPolicy, w: wire::PricingPolicy) -> bool {
    &&& r.version == w.version
    &&& r.id == w.id
    &&& r.name@ == w.name@
    &&& r.su == policy_of_current(w.su)
    &&& r.cu == policy_of_current(w.cu)
    &&& r.nu == policy_of_current(w.nu)
    &&& r.ipu == policy_of_current(w.ipu)
    &&& r.unique_name == policy_of_current(w.unique_name)
    &&& r.domain_name == policy_of_current(w.domain_name)
    &&& r.foundation_account == w.foundation_account
    &&& r.certified_sales_account == w.certified_sales_account
    &&& r.discount_for_dedication_nodes == w.discount_for_dedication_nodes
}

pub open spec fn entity_from_current(r: Entity, w: wire::Entity) -> bool {
    &&& r.version == w.version
    &&& r.id == w.id
    &&& r.name@ == w.name@
    &&& r.account_id == w.account_id
    &&& r.country@ == w.country@
    &&& r.city@ == w.city@
}

pub open spec fn consumption_of_current(w: wire::Consumption) -> Consumption {
    Consumption {
        contract_id: w.contract_id,
        timestamp: w.timestamp,
        cru: w.cru,
        sru: w.sru,
        hru: w.hru,
        mru: w.mru,
        nru: w.nru,
    }
}

pub open spec fn contract_bill_of_current(w: wire::ContractBill) -> ContractBill {
    ContractBill {
        contract_id: w.contract_id,
        timestamp: w.timestamp,
        discount_level: discount_level_of_current(w.discount_level),
        amount_billed: w.amount_billed,
    }
}

/// One for one, by variant name.
pub open spec fn unit_of_legacy(u: legacy::Unit) -> Unit {
    match u {
        legacy::Unit::Bytes => Unit::Bytes,
        legacy::Unit::Kilobytes => Unit::Kilobytes,
        legacy::Unit::Megabytes => Unit::Megabytes,
        legacy::Unit::Gigabytes => Unit::Gigabytes,
        legacy::Unit::Terrabytes => Unit::Terrabytes,
    }
}

/// One for one, by variant name.
pub open spec fn discount_level_of_legacy(u: legacy::DiscountLevel) -> DiscountLevel {
    match u {
        legacy::DiscountLevel::NoDiscount => DiscountLevel::NoDiscount,
        legacy::DiscountLevel::Default => DiscountLevel::Default,
        legacy::DiscountLevel::Bronze => DiscountLevel::Bronze,
        legacy::DiscountLevel::Silver => DiscountLevel::Silver,
        legacy::DiscountLevel::Gold => DiscountLevel::Gold,
    }
}

pub open spec fn policy_of_legacy(p: legacy::Policy) -> Policy {
    Policy { value: p.value, unit: unit_of_legacy(p.unit) }
}

pub open spec fn pricing_policy_from_legacy(r: PricingPolicy, w: legacy::PricingPolicy) -> bool {
    &&& r.version == w.version
    &&& r.id == w.id
    &&& r.name@ == w.name@
    &&& r.su == policy_of_legacy(w.su)
    &&& r.cu == policy_of_legacy(w.cu)
    &&& r.nu == policy_of_legacy(w.nu)
    &&& r.ipu == policy_of_legacy(w.ipu)
    &&& r.unique_name == policy_of_legacy(w.unique_name)
    &&& r.domain_name == policy_of_legacy(w.domain_name)
    &&& r.foundation_account == w.foundation_account
    &&& r.certified_sales_account == w.certified_sales_account
    &&& r.discount_for_dedication_nodes == w.discount_for_dedication_nodes
}

pub open spec fn entity_from_legacy(r: Entity, w: legacy::Entity) -> bool {
    &&& r.version == w.version
    &&& r.id == w.id
    &&& r.name@ == w.name@
    &&& r.account_id == w.account_id
    &&& r.country@ == w.country@
    &&& r.city@ == w.city@
}

pub open spec fn consumption_of_legacy(w: legacy::Consumption) -> Consumption {
    Consumption {
        contract_id: w.contract_id,
        timestamp: w.timestamp,
        cru: w.cru,
        sru: w.sru,
        hru: w.hru,
        mru: w.mru,
        nru: w.nru,
    }
}

pub open spec fn contract_bill_of_legacy(w: legacy::ContractBill) -> ContractBill {
    ContractBill {
        contract_id: w.contract_id,
        timestamp: w.timestamp,
        discount_level: discount_level_of_legacy(w.discount_level),
        amount_billed: w.amount_billed,
    }
}

pub open spec fn certification_code_type_of_legacy(
    c: legacy::CertificationCodeType,
) -> CertificationCodeType {
    match c {
        legacy::CertificationCodeType::Farm => CertificationCodeType::Farm,
        legacy::CertificationCodeType::Entity => CertificationCodeType::Entity,
    }
}

pub open spec fn certification_codes_from_legacy(
    r: CertificationCodes,
    w: legacy::CertificationCodes,
) -> bool {
    &&& r.version == w.version
    &&& r.id == w.id
    &&& r.name@ == w.name@
    &&& r.description@ == w.description@
    &&& r.certification_code_type == certification_code_type_of_legacy(w.certification_code_type)
}

// -------------------------------------------------------------- conversions

pub fn texts_from_wire(w: &Vec<Vec<u8>>) -> (r: Vec<String>)
    ensures
        texts_from(r@, w@),
{
    let mut r: Vec<String> = Vec::new();
    let mut i: usize = 0;
    while i < w.len()
        invariant
            i <= w@.len(),
            r@.len() == i,
            forall|j: int| 0 <= j < i ==> (#[trigger] r@[j])@ == lossy_utf8(w@[j]@),
        decreases w@.len() - i,
    {
        r.push(text_of(&w[i]));
        i += 1;
    }
    r
}

impl PublicIP {
    pub fn from_wire(w: &wire::PublicIP) -> (r: PublicIP)
        ensures
            public_ip_from(r, *w),
    {
        PublicIP { ip: text_of(&w.ip), gateway: text_of(&w.gateway), contract_id: w.contract_id }
    }
}

pub fn public_ips_from_wire(w: &Vec<wire::PublicIP>) -> (r: Vec<PublicIP>)
    ensures
        public_ips_from(r@, w@),
{
    let mut r: Vec<PublicIP> = Vec::new();
    let mut i: usize = 0;
    while i < w.len()
        invariant
            i <= w@.len(),
            r@.len() == i,
            forall|j: int| 0 <= j < i ==> #[trigger] public_ip_from(r@[j], w@[j]),
        decreases w@.len() - i,
    {
        r.push(PublicIP::from_wire(&w[i]));
        i += 1;
    }
    r
}

impl Location {
    pub fn from_wire(w: &wire::Location) -> (r: Location)
        ensures
            location_from(r, *w),
    {
        Location { longitude: text_of(&w.longitude), latitude: text_of(&w.latitude) }
    }
}

impl Interface {
    pub fn from_wire(w: &wire::Interface) -> (r: Interface)
        ensures
            interface_from(r, *w),
    {
        Interface { name: text_of(&w.name), mac: text_of(&w.mac), ips: texts_from_wire(&w.ips) }
    }
}

pub fn interfaces_from_wire(w: &Vec<wire::Interface>) -> (r: Vec<Interface>)
    ensures
        interfaces_from(r@, w@),
{
    let mut r: Vec<Interface> = Vec::new();
    let mut i: usize = 0;
    while i < w.len()
        invariant
            i <= w@.len(),
            r@.len() == i,
            forall|j: int| 0 <= j < i ==> #[trigger] interface_from(r@[j], w@[j]),
        decreases w@.len() - i,
    {
        r.push(Interface::from_wire(&w[i]));
        i += 1;
    }
    r
}

impl PublicConfig {
    pub fn from_wire(w: &wire::PublicConfig) -> (r: PublicConfig)
        ensures
            public_config_from(r, *w),
    {
        PublicConfig {
            ipv4: text_of(&w.ipv4),
            ipv6: text_of(&w.ipv6),
            gw4: text_of(&w.gw4),
            gw6: text_of(&w.gw6),
            domain: text_of(&w.domain),
        }
    }
}

pub fn public_config_opt_from_wire(w: &Option<wire::PublicConfig>) -> (r: Option<PublicConfig>)
    ensures
        public_config_opt_from(r, *w),
{
    match w {
        Some(c) => Some(PublicConfig::from_wire(c)),
        None => None,
    }
}

impl NodeCertification {
    /// Narrowing map from the legacy certification type.
    pub fn from_legacy(c: legacy::CertificationType) -> (r: NodeCertification)
        ensures
            r == node_certification_of(c),
    {
        match c {
            legacy::CertificationType::Diy => NodeCertification::Diy,
            legacy::CertificationType::Certified => NodeCertification::Certified,
        }
    }
}

impl FarmCertification {
    /// Narrowing map from the legacy certification type.
    pub fn from_legacy(c: legacy::CertificationType) -> (r: FarmCertification)
        ensures
            r == farm_certification_of(c),
    {
        match c {
            legacy::CertificationType::Diy => FarmCertification::NotCertified,
            legacy::CertificationType::Certified => FarmCertification::Gold,
        }
    }
}

impl Twin {
    /// The twin layout is the same in both schemas.
    pub fn from_wire(w: wire::Twin) -> (r: Twin)
        ensures
            twin_from(r, w),
    {
        let ip = text_of(&w.ip);
        let wire::Twin { version, id, account_id, ip: _, entities } = w;
        Twin { version, id, account_id, ip, entities }
    }
}

impl Farm {
    pub fn from_current(w: wire::Farm) -> (r: Farm)
        ensures
            farm_from_current(r, w),
    {
        Farm {
            version: w.version,
            id: w.id,
            name: text_of(&w.name),
            twin_id: w.twin_id,
            pricing_policy_id: w.pricing_policy_id,
            certification: w.certification,
            public_ips: public_ips_from_wire(&w.public_ips),
            dedicated_farm: w.dedicated_farm,
            farming_policy_limits: w.farming_policy_limits,
        }
    }

    /// Legacy farms have no farming policy limits; their certification type
    /// maps Diy to NotCertified and Certified to Gold.
    pub fn from_legacy(w: legacy::Farm) -> (r: Farm)
        ensures
            farm_from_legacy(r, w),
    {
        Farm {
            version: w.version,
            id: w.id,
            name: text_of(&w.name),
            twin_id: w.twin_id,
            pricing_policy_id: w.pricing_policy_id,
            certification: FarmCertification::from_legacy(w.certification_type),
            public_ips: public_ips_from_wire(&w.public_ips),
            dedicated_farm: w.dedicated_farm,
            farming_policy_limits: None,
        }
    }
}

impl FarmingPolicy {
    pub fn from_current(w: wire::FarmingPolicy) -> (r: FarmingPolicy)
        ensures
            farming_policy_from_current(r, w),
    {
        FarmingPolicy {
            version: w.version,
            id: w.id,
            name: text_of(&w.name),
            cu: w.cu,
            su: w.su,
            nu: w.nu,
            ipv4: w.ipv4,
            minimal_uptime: w.minimal_uptime,
            policy_created: w.policy_created,
            policy_end: w.policy_end,
            immutable: w.immutable,
            default: w.default,
            node_certification: w.node_certification,
            farm_certification: w.farm_certification,
        }
    }

    pub fn from_legacy(w: legacy::FarmingPolicy) -> (r: FarmingPolicy)
        ensures
            farming_policy_from_legacy(r, w),
    {
        FarmingPolicy {
            version: w.version,
            id: w.id,
            name: text_of(&w.name),
            cu: w.cu,
            su: w.su,
            nu: w.nu,
            ipv4: w.ipv4,
            minimal_uptime: 0,
            policy_created: 0,
            policy_end: 0,
            immutable: false,
            default: false,
            node_certification: NodeCertification::Diy,
            farm_certification: FarmCertification::NotCertified,
        }
    }
}

impl Node {
    pub fn from_current(w: wire::Node) -> (r: Node)
        ensures
            node_from_current(r, w),
    {
        Node {
            version: w.version,
            id: w.id,
            farm_id: w.farm_id,
            twin_id: w.twin_id,
            resources: w.resources,
            location: Location::from_wire(&w.location),
            country: text_of(&w.country),
            city: text_of(&w.city),
            public_config: public_config_opt_from_wire(&w.public_config),
            created: w.created,
            farming_policy_id: w.farming_policy_id,
            interfaces: interfaces_from_wire(&w.interfaces),
            certification: w.certification,
            secure_boot: w.secure_boot,
            virtualized: w.virtualized,
            serial_number: text_of(&w.serial_number),
            connection_price: w.connection_price,
        }
    }

    pub fn from_legacy(w: legacy::Node) -> (r: Node)
        ensures
            node_from_legacy(r, w),
    {
        Node {
            version: w.version,
            id: w.id,
            farm_id: w.farm_id,
            twin_id: w.twin_id,
            resources: w.resources,
            location: Location::from_wire(&w.location),
            country: text_of(&w.country),
            city: text_of(&w.city),
            public_config: public_config_opt_from_wire(&w.public_config),
            created: w.created,
            farming_policy_id: w.farming_policy_id,
            interfaces: interfaces_from_wire(&w.interfaces),
            certification: NodeCertification::from_legacy(w.certification_type),
            secure_boot: w.secure_boot,
            virtualized: w.virtualized,
            serial_number: text_of(&w.serial_number),
            connection_price: 0,
        }
    }
}

impl NodeContract {
    pub fn from_wire(w: wire::NodeContract) -> (r: NodeContract)
        ensures
            node_contract_from(r, w),
    {
        let public_ips_list = public_ips_from_wire(&w.public_ips_list);
        let wire::NodeContract {
            node_id,
            deployment_data,
            deployment_hash,
            public_ips,
            public_ips_list: _,
        } = w;
        NodeContract { node_id, deployment_data, deployment_hash, public_ips, public_ips_list }
    }
}

impl ContractData {
    /// Keeps the variant and converts its payload.
    pub fn from_wire(w: wire::ContractData) -> (r: ContractData)
        ensures
            contract_data_from(r, w),
    {
        match w {
            wire::ContractData::NodeContract(c) => ContractData::NodeContract(
                NodeContract::from_wire(c),
            ),
            wire::ContractData::NameContract(c) => ContractData::NameContract(
                NameContract { name: text_of(&c.name) },
            ),
            wire::ContractData::RentContract(c) => ContractData::RentContract(c),
        }
    }
}

impl ContractState {
    pub fn from_current(s: wire::ContractState) -> (r: ContractState)
        ensures
            r == contract_state_of_current(s),
    {
        match s {
            wire::ContractState::Created => ContractState::Created,
            wire::ContractState::Deleted(c) => ContractState::Deleted(c),
            wire::ContractState::GracePeriod(n) => ContractState::GracePeriod(n as BlockNumber),
        }
    }

    /// The legacy schema has no grace period: only `Created` and `Deleted`.
    pub fn from_legacy(s: legacy::ContractState) -> (r: ContractState)
        ensures
            r == contract_state_of_legacy(s),
    {
        match s {
            legacy::ContractState::Created => ContractState::Created,
            legacy::ContractState::Deleted(c) => ContractState::Deleted(c),
        }
    }
}

impl Contract {
    pub fn from_current(w: wire::Contract) -> (r: Contract)
        ensures
            contract_from_current(r, w),
    {
        let wire::Contract { version, state, contract_id, twin_id, contract_type } = w;
        Contract {
            version,
            state: ContractState::from_current(state),
            contract_id,
            twin_id,
            contract_type: ContractData::from_wire(contract_type),
        }
    }

    pub fn from_legacy(w: legacy::Contract) -> (r: Contract)
        ensures
            contract_from_legacy(r, w),
    {
        let legacy::Contract { version, state, contract_id, twin_id, contract_type } = w;
        Contract {
            version,
            state: ContractState::from_legacy(state),
            contract_id,
            twin_id,
            contract_type: ContractData::from_wire(contract_type),
        }
    }
}

impl MintTransaction {
    pub fn from_wire(w: wire::MintTransaction) -> (r: MintTransaction)
        ensures
            r.amount.0 == w.amount && r.target == w.target,
            r.block == w.block && r.votes == w.votes,
    {
        MintTransaction {
            amount: Balance::from(w.amount),
            target: w.target,
            block: w.block,
            votes: w.votes,
        }
    }
}

impl BurnTransaction {
    pub fn from_wire(w: wire::BurnTransaction) -> (r: BurnTransaction)
        ensures
            r.block == w.block && r.amount.0 == w.amount && r.target@ == w.target@,
            r.signatures@ == w.signatures@ && r.sequence_number == w.sequence_number,
    {
        let wire::BurnTransaction { block, amount, target, signatures, sequence_number } = w;
        BurnTransaction { block, amount: Balance::from(amount), target, signatures, sequence_number }
    }
}

impl RefundTransaction {
    pub fn from_wire(w: wire::RefundTransaction) -> (r: RefundTransaction)
        ensures
            r.block == w.block && r.amount.0 == w.amount && r.target@ == w.target@,
            r.tx_hash@ == w.tx_hash@ && r.signatures@ == w.signatures@,
            r.sequence_number == w.sequence_number,
    {
        let wire::RefundTransaction {
            block,
            amount,
            target,
            tx_hash,
            signatures,
            sequence_number,
        } = w;
        RefundTransaction {
            block,
            amount: Balance::from(amount),
            target,
            tx_hash,
            signatures,
            sequence_number,
        }
    }
}

impl Unit {
    pub fn from_current(u: wire::Unit) -> (r: Unit)
        ensures
            r == unit_of_current(u),
    {
        match u {
            wire::Unit::Bytes => Unit::Bytes,
            wire::Unit::Kilobytes => Unit::Kilobytes,
            wire::Unit::Megabytes => Unit::Megabytes,
            wire::Unit::Gigabytes => Unit::Gigabytes,
            wire::Unit::Terrabytes => Unit::Terrabytes,
        }
    }

    pub fn from_legacy(u: legacy::Unit) -> (r: Unit)
        ensures
            r == unit_of_legacy(u),
    {
        match u {
            legacy::Unit::Bytes => Unit::Bytes,
            legacy::Unit::Kilobytes => Unit::Kilobytes,
            legacy::Unit::Megabytes => Unit::Megabytes,
            legacy::Unit::Gigabytes => Unit::Gigabytes,
            legacy::Unit::Terrabytes => Unit::Terrabytes,
        }
    }
}

impl DiscountLevel {
    pub fn from_current(u: wire::DiscountLevel) -> (r: DiscountLevel)
        ensures
            r == discount_level_of_current(u),
    {
        match u {
            wire::DiscountLevel::NoDiscount => DiscountLevel::NoDiscount,
            wire::DiscountLevel::Default => DiscountLevel::Default,
            wire::DiscountLevel::Bronze => DiscountLevel::Bronze,
            wire::DiscountLevel::Silver => DiscountLevel::Silver,
            wire::DiscountLevel::Gold => DiscountLevel::Gold,
        }
    }

    pub fn from_legacy(u: legacy::DiscountLevel) -> (r: DiscountLevel)
        ensures
            r == discount_level_of_legacy(u),
    {
        match u {
            legacy::DiscountLevel::NoDiscount => DiscountLevel::NoDiscount,
            legacy::DiscountLevel::Default => DiscountLevel::Default,
            legacy::DiscountLevel::Bronze => DiscountLevel::Bronze,
            legacy::DiscountLevel::Silver => DiscountLevel::Silver,
            legacy::DiscountLevel::Gold => DiscountLevel::Gold,
        }
    }
}

impl Policy {
    pub fn from_current(p: wire::Policy) -> (r: Policy)
        ensures
            r == policy_of_current(p),
    {
        Policy { value: p.value, unit: Unit::from_current(p.unit) }
    }

    pub fn from_legacy(p: legacy::Policy) -> (r: Policy)
        ensures
            r == policy_of_legacy(p),
    {
        Policy { value: p.value, unit: Unit::from_legacy(p.unit) }
    }
}

impl PricingPolicy {
    pub fn from_current(w: wire::PricingPolicy) -> (r: PricingPolicy)
        ensures
            pricing_policy_from_current(r, w),
    {
        let wire::PricingPolicy {
            version,
            id,
            name,
            su,
            cu,
            nu,
            ipu,
            unique_name,
            domain_name,
            foundation_account,
            certified_sales_account,
            discount_for_dedication_nodes,
        } = w;
        PricingPolicy {
            version,
            id,
            name,
            su: Policy::from_current(su),
            cu: Policy::from_current(cu),
            nu: Policy::from_current(nu),
            ipu: Policy::from_current(ipu),
            unique_name: Policy::from_current(unique_name),
            domain_name: Policy::from_current(domain_name),
            foundation_account,
            certified_sales_account,
            discount_for_dedication_nodes,
        }
    }

    pub fn from_legacy(w: legacy::PricingPolicy) -> (r: PricingPolicy)
        ensures
            pricing_policy_from_legacy(r, w),
    {
        let legacy::PricingPolicy {
            version,
            id,
            name,
            su,
            cu,
            nu,
            ipu,
            unique_name,
            domain_name,
            foundation_account,
            certified_sales_account,
            discount_for_dedication_nodes,
        } = w;
        PricingPolicy {
            version,
            id,
            name,
            su: Policy::from_legacy(su),
            cu: Policy::from_legacy(cu),
            nu: Policy::from_legacy(nu),
            ipu: Policy::from_legacy(ipu),
            unique_name: Policy::from_legacy(unique_name),
            domain_name: Policy::from_legacy(domain_name),
            foundation_account,
            certified_sales_account,
            discount_for_dedication_nodes,
        }
    }
}

impl Entity {
    pub fn from_current(w: wire::Entity) -> (r: Entity)
        ensures
            entity_from_current(r, w),
    {
        let wire::Entity { version, id, name, account_id, country, city } = w;
        Entity { version, id, name, account_id, country, city }
    }

    pub fn from_legacy(w: legacy::Entity) -> (r: Entity)
        ensures
            entity_from_legacy(r, w),
    {
        let legacy::Entity { version, id, name, account_id, country, city } = w;
        Entity { version, id, name, account_id, country, city }
    }
}

impl Consumption {
    pub fn from_current(w: wire::Consumption) -> (r: Consumption)
        ensures
            r == consumption_of_current(w),
    {
        Consumption {
            contract_id: w.contract_id,
            timestamp: w.timestamp,
            cru: w.cru,
            sru: w.sru,
            hru: w.hru,
            mru: w.mru,
            nru: w.nru,
        }
    }

    pub fn from_legacy(w: legacy::Consumption) -> (r: Consumption)
        ensures
            r == consumption_of_legacy(w),
    {
        Consumption {
            contract_id: w.contract_id,
            timestamp: w.timestamp,
            cru: w.cru,
            sru: w.sru,
            hru: w.hru,
            mru: w.mru,
            nru: w.nru,
        }
    }
}

impl ContractBill {
    pub fn from_current(w: wire::ContractBill) -> (r: ContractBill)
        ensures
            r == contract_bill_of_current(w),
    {
        ContractBill {
            contract_id: w.contract_id,
            timestamp: w.timestamp,
            discount_level: DiscountLevel::from_current(w.discount_level),
            amount_billed: w.amount_billed,
        }
    }

    pub fn from_legacy(w: legacy::ContractBill) -> (r: ContractBill)
        ensures
            r == contract_bill_of_legacy(w),
    {
        ContractBill {
            contract_id: w.contract_id,
            timestamp: w.timestamp,
            discount_level: DiscountLevel::from_legacy(w.discount_level),
            amount_billed: w.amount_billed,
        }
    }
}

impl CertificationCodeType {
    pub fn from_legacy(c: legacy::CertificationCodeType) -> (r: CertificationCodeType)
        ensures
            r == certification_code_type_of_legacy(c),
    {
        match c {
            legacy::CertificationCodeType::Farm => CertificationCodeType::Farm,
            legacy::CertificationCodeType::Entity => CertificationCodeType::Entity,
        }
    }
}

impl CertificationCodes {
    pub fn from_legacy(w: legacy::CertificationCodes) -> (r: CertificationCodes)
        ensures
            certification_codes_from_legacy(r, w),
    {
        let legacy::CertificationCodes { version, id, name, description, certification_code_type } =
            w;
        CertificationCodes {
            version,
            id,
            name,
            description,
            certification_code_type: CertificationCodeType::from_legacy(certification_code_type),
        }
    }
}

} // verus!
