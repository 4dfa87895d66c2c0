//! The version-agnostic domain model that every wire schema maps into.

use vstd::prelude::*;

verus! {

/// Block height on the ledger.
pub type BlockNumber = u32;

/// A 32-byte account identifier (public key).
#[derive(Clone, Copy, Debug, PartialEq, Eq, PartialOrd, Ord, Hash)]
pub struct AccountId32 {
    pub bytes: [u8; 32],
}

impl Default for AccountId32 {
    fn default() -> (r: AccountId32)
        ensures
            forall|i: int| 0 <= i < 32 ==> r.bytes@[i] == 0u8,
    {
        AccountId32 { bytes: [0u8; 32] }
    }
}

/// A 32-byte block or transaction hash.
#[derive(Clone, Copy, Debug, PartialEq, Eq, PartialOrd, Ord, Hash)]
pub struct H256 {
    pub bytes: [u8; 32],
}

#[derive(Clone, Copy, Debug, PartialEq, Eq, PartialOrd, Ord)]
pub enum NodeCertification {
    Diy,
    Certified,
}

impl Default for NodeCertification {
    fn default() -> (r: NodeCertification)
        ensures
            r == NodeCertification::Diy,
    {
        NodeCertification::Diy
    }
}

#[derive(Clone, Copy, Debug, PartialEq, Eq, PartialOrd, Ord)]
pub enum FarmCertification {
    NotCertified,
    Gold,
}

impl Default for FarmCertification {
    fn default() -> (r: FarmCertification)
        ensures
            r == FarmCertification::NotCertified,
    {
        FarmCertification::NotCertified
    }
}

/// Farming policy; the fields after `ipv4` exist in the current schema only.
#[derive(Clone, Debug, PartialEq, Eq, PartialOrd, Ord)]
pub struct FarmingPolicy {
    pub version: u32,
    pub id: u32,
    pub name: String,
    pub cu: u32,
    pub su: u32,
    pub nu: u32,
    pub ipv4: u32,
    pub minimal_uptime: u16,
    pub policy_created: BlockNumber,
    pub policy_end: BlockNumber,
    pub immutable: bool,
    pub default: bool,
    pub node_certification: NodeCertification,
    pub farm_certification: FarmCertification,
}

#[derive(Clone, Copy, Debug, PartialEq, Eq, PartialOrd, Ord)]
pub enum Unit {
    Bytes,
    Kilobytes,
    Megabytes,
    Gigabytes,
    Terrabytes,
}

impl Default for Unit {
    fn default() -> (r: Unit)
        ensures
            r == Unit::Gigabytes,
    {
        Unit::Gigabytes
    }
}

#[derive(Clone, Copy, Debug, PartialEq, Eq, PartialOrd, Ord)]
pub struct Policy {
    pub value: u32,
    pub unit: Unit,
}

/// Capacity counters; passed through every schema unchanged.
#[derive(Clone, Copy, Debug, PartialEq, Eq, PartialOrd, Ord)]
pub struct Resources {
    pub hru: u64,
    pub sru: u64,
    pub cru: u64,
    pub mru: u64,
}

impl Default for Resources {
    fn default() -> (r: Resources)
        ensures
            r == (Resources { hru: 0, sru: 0, cru: 0, mru: 0 }),
    {
        Resources { hru: 0, sru: 0, cru: 0, mru: 0 }
    }
}

#[derive(Clone, Copy, Debug, PartialEq, Eq, PartialOrd, Ord)]
pub struct ContractResources {
    pub contract_id: u64,
    pub used: Resources,
}

/// Pricing policy.
#[derive(Clone, Debug, PartialEq, Eq, PartialOrd, Ord)]
pub struct PricingPolicy {
    pub version: u32,
    pub id: u32,
    pub name: Vec<u8>,
    pub su: Policy,
    pub cu: Policy,
    pub nu: Policy,
    pub ipu: Policy,
    pub unique_name: Policy,
    pub domain_name: Policy,
    pub foundation_account: AccountId32,
    pub certified_sales_account: AccountId32,
    pub discount_for_dedication_nodes: u8,
}

/// An amount of token units.
#[derive(Clone, Copy, Debug, PartialEq, Eq)]
pub struct Balance(pub u64);

impl From<u64> for Balance {
    fn from(amount: u64) -> (r: Balance) {
        Balance(amount)
    }
}

impl vstd::std_specs::convert::FromSpecImpl<u64> for Balance {
    open spec fn obeys_from_spec() -> bool {
        true
    }

    open spec fn from_spec(amount: u64) -> Balance {
        Balance(amount)
    }
}

impl Balance {
    /// The balance as the amount of units expressed as a u64.
    pub fn as_u64(self) -> (r: u64)
        ensures
            r == self.0,
    {
        self.0
    }
}

/// The balance fields of an account.
#[derive(Clone, Copy, Debug, PartialEq, Eq)]
pub struct AccountData {
    pub free: u128,
    pub reserved: u128,
    pub misc_frozen: u128,
    pub fee_frozen: u128,
}

/// The account record kept by the ledger's system module.
#[derive(Clone, Copy, Debug, PartialEq, Eq)]
pub struct AccountInfo {
    pub nonce: u32,
    pub consumers: u32,
    pub providers: u32,
    pub sufficients: u32,
    pub data: AccountData,
}

#[derive(Clone, Debug, PartialEq, Eq, PartialOrd, Ord)]
pub struct Twin {
    pub version: u32,
    pub id: u32,
    pub account_id: AccountId32,
    pub ip: String,
    pub entities: Vec<EntityProof>,
}

impl Twin {
    /// The zero value that stands for a twin that is not registered.
    pub open spec fn is_zero(&self) -> bool {
        &&& self.version == 0 && self.id == 0 && self.account_id.bytes@ == seq![0u8; 32]
        &&& self.ip@.len() == 0 && self.entities@.len() == 0
    }
}

impl Default for Twin {
    fn default() -> (r: Twin)
        ensures
            r.is_zero(),
    {
        let r = Twin {
            version: 0,
            id: 0,
            account_id: AccountId32::default(),
            ip: String::new(),
            entities: Vec::new(),
        };
        assert(r.account_id.bytes@ =~= seq![0u8; 32]);
        r
    }
}

/// Entity; text kept as raw bytes.
#[derive(Clone, Debug, PartialEq, Eq, PartialOrd, Ord)]
pub struct Entity {
    pub version: u32,
    pub id: u32,
    pub name: Vec<u8>,
    pub account_id: AccountId32,
    pub country: Vec<u8>,
    pub city: Vec<u8>,
}

#[derive(Clone, Debug, PartialEq, Eq, PartialOrd, Ord)]
pub struct EntityProof {
    pub entity_id: u32,
    pub signature: Vec<u8>,
}

#[derive(Clone, Debug, PartialEq, Eq, PartialOrd, Ord)]
pub struct Farm {
    pub version: u32,
    pub id: u32,
    pub name: String,
    pub twin_id: u32,
    pub pricing_policy_id: u32,
    pub certification: FarmCertification,
    pub public_ips: Vec<PublicIP>,
    pub dedicated_farm: bool,
    pub farming_policy_limits: Option<FarmingPolicyLimit>,
}

impl Farm {
    /// The zero value that stands for a farm that is not registered.
    pub open spec fn is_zero(&self) -> bool {
        &&& self.version == 0 && self.id == 0 && self.name@.len() == 0
        &&& self.twin_id == 0 && self.pricing_policy_id == 0
        &&& self.certification == FarmCertification::NotCertified
        &&& self.public_ips@.len() == 0 && !self.dedicated_farm
        &&& self.farming_policy_limits.is_none()
    }
}

impl Default for Farm {
    fn default() -> (r: Farm)
        ensures
            r.is_zero(),
    {
        Farm {
            version: 0,
            id: 0,
            name: String::new(),
            twin_id: 0,
            pricing_policy_id: 0,
            certification: FarmCertification::NotCertified,
            public_ips: Vec::new(),
            dedicated_farm: false,
            farming_policy_limits: None,
        }
    }
}

/// Limits a farm places on a farming policy; current schema only.
#[derive(Clone, Copy, Debug, PartialEq, Eq, PartialOrd, Ord)]
pub struct FarmingPolicyLimit {
    pub farming_policy_id: u32,
    pub cu: Option<u64>,
    pub su: Option<u64>,
    pub end: Option<u64>,
    pub node_count: Option<u32>,
    pub node_certification: bool,
}

#[derive(Clone, Debug, PartialEq, Eq, PartialOrd, Ord)]
pub struct PublicIP {
    pub ip: String,
    pub gateway: String,
    pub contract_id: u64,
}

#[derive(Clone, Debug, PartialEq, Eq, PartialOrd, Ord)]
pub struct Node {
    pub version: u32,
    pub id: u32,
    pub farm_id: u32,
    pub twin_id: u32,
    pub resources: Resources,
    pub location: Location,
    pub country: String,
    pub city: String,
    pub public_config: Option<PublicConfig>,
    pub created: u64,
    pub farming_policy_id: u32,
    pub interfaces: Vec<Interface>,
    pub certification: NodeCertification,
    pub secure_boot: bool,
    pub virtualized: bool,
    pub serial_number: String,
    pub connection_price: u32,
}

impl Node {
    /// The zero value that stands for a node that is not registered.
    pub open spec fn is_zero(&self) -> bool {
        &&& self.version == 0 && self.id == 0 && self.farm_id == 0 && self.twin_id == 0
        &&& self.resources == (Resources { hru: 0, sru: 0, cru: 0, mru: 0 })
        &&& self.location.longitude@.len() == 0 && self.location.latitude@.len() == 0
        &&& self.country@.len() == 0 && self.city@.len() == 0 && self.public_config.is_none()
        &&& self.created == 0 && self.farming_policy_id == 0 && self.interfaces@.len() == 0
        &&& self.certification == NodeCertification::Diy
        &&& !self.secure_boot && !self.virtualized
        &&& self.serial_number@.len() == 0 && self.connection_price == 0
    }
}

impl Default for Node {
    fn default() -> (r: Node)
        ensures
            r.is_zero(),
    {
        Node {
            version: 0,
            id: 0,
            farm_id: 0,
            twin_id: 0,
            resources: Resources::default(),
            location: Location { longitude: String::new(), latitude: String::new() },
            country: String::new(),
            city: String::new(),
            public_config: None,
            created: 0,
            farming_policy_id: 0,
            interfaces: Vec::new(),
            certification: NodeCertification::Diy,
            secure_boot: false,
            virtualized: false,
            serial_number: String::new(),
            connection_price: 0,
        }
    }
}

#[derive(Clone, Debug, PartialEq, Eq, PartialOrd, Ord)]
pub struct Location {
    pub longitude: String,
    pub latitude: String,
}

#[derive(Clone, Debug, PartialEq, Eq, PartialOrd, Ord)]
pub struct Interface {
    pub name: String,
    pub mac: String,
    pub ips: Vec<String>,
}

#[derive(Clone, Debug, PartialEq, Eq, PartialOrd, Ord)]
pub struct PublicConfig {
    pub ipv4: String,
    pub ipv6: String,
    pub gw4: String,
    pub gw6: String,
    pub domain: String,
}

#[derive(Clone, Copy, Debug, PartialEq, Eq, PartialOrd, Ord)]
pub enum DiscountLevel {
    NoDiscount,
    Default,
    Bronze,
    Silver,
    Gold,
}

impl Default for DiscountLevel {
    fn default() -> (r: DiscountLevel)
        ensures
            r == DiscountLevel::NoDiscount,
    {
        DiscountLevel::NoDiscount
    }
}

/// Resource consumption report.
#[derive(Clone, Copy, Debug, PartialEq, Eq, PartialOrd, Ord)]
pub struct Consumption {
    pub contract_id: u64,
    pub timestamp: u64,
    pub cru: u64,
    pub sru: u64,
    pub hru: u64,
    pub mru: u64,
    pub nru: u64,
}

/// Bill of a contract.
#[derive(Clone, Copy, Debug, PartialEq, Eq, PartialOrd, Ord)]
pub struct ContractBill {
    pub contract_id: u64,
    pub timestamp: u64,
    pub discount_level: DiscountLevel,
    pub amount_billed: u128,
}

#[derive(Clone, Debug, PartialEq, Eq, PartialOrd, Ord)]
pub struct Contract {
    pub version: u32,
    pub state: ContractState,
    pub contract_id: u64,
    pub twin_id: u32,
    pub contract_type: ContractData,
}

impl Contract {
    /// The zero value that stands for a contract that does not exist: an
    /// empty node contract in the `Created` state.
    pub open spec fn is_zero(&self) -> bool {
        &&& self.version == 0 && self.contract_id == 0 && self.twin_id == 0
        &&& self.state == ContractState::Created
        &&& self.contract_type is NodeContract
        &&& self.contract_type->NodeContract_0.node_id == 0
        &&& self.contract_type->NodeContract_0.deployment_data@.len() == 0
        &&& self.contract_type->NodeContract_0.deployment_hash@.len() == 0
        &&& self.contract_type->NodeContract_0.public_ips == 0
        &&& self.contract_type->NodeContract_0.public_ips_list@.len() == 0
    }
}

impl Default for Contract {
    fn default() -> (r: Contract)
        ensures
            r.is_zero(),
    {
        Contract {
            version: 0,
            state: ContractState::Created,
            contract_id: 0,
            twin_id: 0,
            contract_type: ContractData::default(),
        }
    }
}

#[derive(Clone, Debug, PartialEq, Eq, PartialOrd, Ord)]
pub struct NodeContract {
    pub node_id: u32,
    /// Deployment body, encrypted with the user's key.
    pub deployment_data: Vec<u8>,
    /// Hash of the deployment, set by the user.
    pub deployment_hash: Vec<u8>,
    pub public_ips: u32,
    pub public_ips_list: Vec<PublicIP>,
}

#[derive(Clone, Debug, PartialEq, Eq, PartialOrd, Ord)]
pub struct NameContract {
    pub name: String,
}

#[derive(Clone, Copy, Debug, PartialEq, Eq, PartialOrd, Ord)]
pub struct RentContract {
    pub node_id: u32,
}

/// The closed set of contract bodies.
#[derive(Clone, Debug, PartialEq, Eq, PartialOrd, Ord)]
pub enum ContractData {
    NodeContract(NodeContract),
    NameContract(NameContract),
    RentContract(RentContract),
}

impl Default for ContractData {
    fn default() -> (r: ContractData)
        ensures
            r is NodeContract,
            r->NodeContract_0.node_id == 0 && r->NodeContract_0.public_ips == 0,
            r->NodeContract_0.deployment_data@.len() == 0,
            r->NodeContract_0.deployment_hash@.len() == 0,
            r->NodeContract_0.public_ips_list@.len() == 0,
    {
        ContractData::NodeContract(
            NodeContract {
                node_id: 0,
                deployment_data: Vec::new(),
                deployment_hash: Vec::new(),
                public_ips: 0,
                public_ips_list: Vec::new(),
            },
        )
    }
}

/// Lifecycle of a contract: `Created` is initial, `GracePeriod` carries the
/// block at which deletion takes effect, `Deleted` is terminal.
#[derive(Clone, Copy, Debug, PartialEq, Eq, PartialOrd, Ord)]
pub enum ContractState {
    Created,
    Deleted(Cause),
    GracePeriod(BlockNumber),
}

impl Default for ContractState {
    fn default() -> (r: ContractState)
        ensures
            r == ContractState::Created,
    {
        ContractState::Created
    }
}

#[derive(Clone, Copy, Debug, PartialEq, Eq, PartialOrd, Ord)]
pub enum Cause {
    CanceledByUser,
    OutOfFunds,
}

/// Certification code.
#[derive(Clone, Debug, PartialEq, Eq, PartialOrd, Ord)]
pub struct CertificationCodes {
    pub version: u32,
    pub id: u32,
    pub name: Vec<u8>,
    pub description: Vec<u8>,
    pub certification_code_type: CertificationCodeType,
}

#[derive(Clone, Copy, Debug, PartialEq, Eq, PartialOrd, Ord)]
pub enum CertificationCodeType {
    Farm,
    Entity,
}

impl Default for CertificationCodeType {
    fn default() -> (r: CertificationCodeType)
        ensures
            r == CertificationCodeType::Farm,
    {
        CertificationCodeType::Farm
    }
}

/// A Stellar to ledger minting transaction; it is minted once more than half
/// of the validators voted for it.
#[derive(Clone, Copy, Debug)]
pub struct MintTransaction {
    pub amount: Balance,
    pub target: AccountId32,
    pub block: BlockNumber,
    pub votes: u32,
}

/// A ledger to Stellar burn transaction; it is ready once more than half of
/// the validators signed it.
#[derive(Clone, Debug)]
pub struct BurnTransaction {
    pub block: BlockNumber,
    pub amount: Balance,
    pub target: Vec<u8>,
    pub signatures: Vec<StellarSignature>,
    pub sequence_number: u64,
}

#[derive(Clone, Debug)]
pub struct RefundTransaction {
    pub block: BlockNumber,
    pub amount: Balance,
    pub target: Vec<u8>,
    pub tx_hash: Vec<u8>,
    pub signatures: Vec<StellarSignature>,
    pub sequence_number: u64,
}

#[derive(Clone, Debug, PartialEq, Eq, PartialOrd, Ord)]
pub struct StellarSignature {
    pub signature: Vec<u8>,
    pub stellar_pub_key: Vec<u8>,
}

} // verus!
