//! Properties that relate the legacy and the current schema mappings.

use vstd::prelude::*;
use crate::legacy;
use crate::mapping::{
    contract_from_current, contract_from_legacy, farm_certification_of, farm_from_current,
    farm_from_legacy, farming_policy_from_current, farming_policy_from_legacy,
    interface_from, node_certification_of, node_contract_from, node_from_current,
    node_from_legacy, public_ip_from, consumption_of_current, consumption_of_legacy,
    contract_bill_of_current, contract_bill_of_legacy, discount_level_of_legacy, entity_from_current,
    entity_from_legacy, pricing_policy_from_current, pricing_policy_from_legacy, unit_of_legacy,
};
use crate::stored::{
    legacy_discountlevel_index, legacy_unit_index, wire_discountlevel_index, wire_unit_index,
};
use crate::types::{
    Cause, Contract, ContractData, ContractState, Farm, FarmCertification, FarmingPolicy,
    Interface, Node, NodeCertification, PublicIP, Entity, PricingPolicy,
};
use crate::wire;

verus! {

// ------------------------------------------------ equality of domain values

pub open spec fn public_ips_same(a: Seq<PublicIP>, b: Seq<PublicIP>) -> bool {
    &&& a.len() == b.len()
    &&& forall|i: int|
        0 <= i < a.len() ==> {
            &&& (#[trigger] a[i]).ip@ == b[i].ip@
            &&& a[i].gateway@ == b[i].gateway@
            &&& a[i].contract_id == b[i].contract_id
        }
}

pub open spec fn interfaces_same(a: Seq<Interface>, b: Seq<Interface>) -> bool {
    &&& a.len() == b.len()
    &&& forall|i: int|
        0 <= i < a.len() ==> {
            &&& (#[trigger] a[i]).name@ == b[i].name@
            &&& a[i].mac@ == b[i].mac@
            &&& a[i].ips@.len() == b[i].ips@.len()
            &&& forall|j: int| 0 <= j < a[i].ips@.len() ==> a[i].ips@[j]@ == b[i].ips@[j]@
        }
}

pub open spec fn contract_data_same(a: ContractData, b: ContractData) -> bool {
    match (a, b) {
        (ContractData::NodeContract(x), ContractData::NodeContract(y)) => {
            &&& x.node_id == y.node_id
            &&& x.deployment_data@ == y.deployment_data@
            &&& x.deployment_hash@ == y.deployment_hash@
            &&& x.public_ips == y.public_ips
            &&& public_ips_same(x.public_ips_list@, y.public_ips_list@)
        },
        (ContractData::NameContract(x), ContractData::NameContract(y)) => x.name@ == y.name@,
        (ContractData::RentContract(x), ContractData::RentContract(y)) => x == y,
        _ => false,
    }
}

// ------------------------------------- legacy and current fixtures that agree

/// The legacy certification type and a farm certification denote the same level.
pub open spec fn farm_certifications_agree(
    l: legacy::CertificationType,
    c: FarmCertification,
) -> bool {
    match (l, c) {
        (legacy::CertificationType::Diy, FarmCertification::NotCertified) => true,
        (legacy::CertificationType::Certified, FarmCertification::Gold) => true,
        _ => false,
    }
}

/// The legacy certification type and a node certification denote the same level.
pub open spec fn node_certifications_agree(
    l: legacy::CertificationType,
    c: NodeCertification,
) -> bool {
    match (l, c) {
        (legacy::CertificationType::Diy, NodeCertification::Diy) => true,
        (legacy::CertificationType::Certified, NodeCertification::Certified) => true,
        _ => false,
    }
}

pub open spec fn farms_agree(l: legacy::Farm, c: wire::Farm) -> bool {
    &&& l.version == c.version
    &&& l.id == c.id
    &&& l.name@ == c.name@
    &&& l.twin_id == c.twin_id
    &&& l.pricing_policy_id == c.pricing_policy_id
    &&& farm_certifications_agree(l.certification_type, c.certification)
    &&& l.public_ips@ == c.public_ips@
    &&& l.dedicated_farm == c.dedicated_farm
}

pub open spec fn farming_policies_agree(l: legacy::FarmingPolicy, c: wire::FarmingPolicy) -> bool {
    &&& l.version == c.version
    &&& l.id == c.id
    &&& l.name@ == c.name@
    &&& l.cu == c.cu
    &&& l.su == c.su
    &&& l.nu == c.nu
    &&& l.ipv4 == c.ipv4
}

pub open spec fn nodes_agree(l: legacy::Node, c: wire::Node) -> bool {
    &&& l.version == c.version
    &&& l.id == c.id
    &&& l.farm_id == c.farm_id
    &&& l.twin_id == c.twin_id
    &&& l.resources == c.resources
    &&& l.location == c.location
    &&& l.country@ == c.country@
    &&& l.city@ == c.city@
    &&& l.public_config == c.public_config
    &&& l.created == c.created
    &&& l.farming_policy_id == c.farming_policy_id
    &&& l.interfaces@ == c.interfaces@
    &&& node_certifications_agree(l.certification_type, c.certification)
    &&& l.secure_boot == c.secure_boot
    &&& l.virtualized == c.virtualized
    &&& l.serial_number@ == c.serial_number@
}

pub open spec fn contract_states_agree(l: legacy::ContractState, c: wire::ContractState) -> bool {
    match (l, c) {
        (legacy::ContractState::Created, wire::ContractState::Created) => true,
        (legacy::ContractState::Deleted(x), wire::ContractState::Deleted(y)) => x == y,
        _ => false,
    }
}

pub open spec fn contracts_agree(l: legacy::Contract, c: wire::Contract) -> bool {
    &&& l.version == c.version
    &&& contract_states_agree(l.state, c.state)
    &&& l.contract_id == c.contract_id
    &&& l.twin_id == c.twin_id
    &&& l.contract_type == c.contract_type
}

// ------------------------------------------------------------------ laws

/// A legacy farm and a current farm that hold the same data map to farms
/// that are equal on every field both schemas have.
pub proof fn farm_schemas_converge(l: legacy::Farm, c: wire::Farm, a: Farm, b: Farm)
    requires
        farms_agree(l, c),
        farm_from_legacy(a, l),
        farm_from_current(b, c),
    ensures
        a.version == b.version && a.id == b.id && a.name@ == b.name@,
        a.twin_id == b.twin_id && a.pricing_policy_id == b.pricing_policy_id,
        a.certification == b.certification,
        public_ips_same(a.public_ips@, b.public_ips@),
        a.dedicated_farm == b.dedicated_farm,
{
    assert forall|i: int| 0 <= i < a.public_ips@.len() implies {
        &&& (#[trigger] a.public_ips@[i]).ip@ == b.public_ips@[i].ip@
        &&& a.public_ips@[i].gateway@ == b.public_ips@[i].gateway@
        &&& a.public_ips@[i].contract_id == b.public_ips@[i].contract_id
    } by {
        assert(public_ip_from(a.public_ips@[i], l.public_ips@[i]));
        assert(public_ip_from(b.public_ips@[i], c.public_ips@[i]));
    }
}

/// A legacy farming policy and a current one that hold the same data map to
/// policies that are equal on every field both schemas have.
pub proof fn farming_policy_schemas_converge(
    l: legacy::FarmingPolicy,
    c: wire::FarmingPolicy,
    a: FarmingPolicy,
    b: FarmingPolicy,
)
    requires
        farming_policies_agree(l, c),
        farming_policy_from_legacy(a, l),
        farming_policy_from_current(b, c),
    ensures
        a.version == b.version && a.id == b.id && a.name@ == b.name@,
        a.cu == b.cu && a.su == b.su && a.nu == b.nu && a.ipv4 == b.ipv4,
{
}

/// A legacy node and a current node that hold the same data map to nodes that
/// are equal on every field both schemas have.
pub proof fn node_schemas_converge(l: legacy::Node, c: wire::Node, a: Node, b: Node)
    requires
        nodes_agree(l, c),
        node_from_legacy(a, l),
        node_from_current(b, c),
    ensures
        a.version == b.version && a.id == b.id && a.farm_id == b.farm_id,
        a.twin_id == b.twin_id && a.resources == b.resources,
        a.location.longitude@ == b.location.longitude@,
        a.location.latitude@ == b.location.latitude@,
        a.country@ == b.country@ && a.city@ == b.city@,
        a.public_config.is_some() == b.public_config.is_some(),
        a.public_config.is_some() ==> {
            let (x, y) = (a.public_config.unwrap(), b.public_config.unwrap());
            &&& x.ipv4@ == y.ipv4@ && x.ipv6@ == y.ipv6@
            &&& x.gw4@ == y.gw4@ && x.gw6@ == y.gw6@ && x.domain@ == y.domain@
        },
        a.created == b.created && a.farming_policy_id == b.farming_policy_id,
        interfaces_same(a.interfaces@, b.interfaces@),
        a.certification == b.certification,
        a.secure_boot == b.secure_boot && a.virtualized == b.virtualized,
        a.serial_number@ == b.serial_number@,
{
    assert forall|i: int| 0 <= i < a.interfaces@.len() implies {
        &&& (#[trigger] a.interfaces@[i]).name@ == b.interfaces@[i].name@
        &&& a.interfaces@[i].mac@ == b.interfaces@[i].mac@
        &&& a.interfaces@[i].ips@.len() == b.interfaces@[i].ips@.len()
        &&& forall|j: int|
            0 <= j < a.interfaces@[i].ips@.len() ==> a.interfaces@[i].ips@[j]@
                == b.interfaces@[i].ips@[j]@
    } by {
        assert(interface_from(a.interfaces@[i], l.interfaces@[i]));
        assert(interface_from(b.interfaces@[i], c.interfaces@[i]));
        assert forall|j: int| 0 <= j < a.interfaces@[i].ips@.len() implies a.interfaces@[i].ips@[j]@
            == b.interfaces@[i].ips@[j]@ by {
            assert(a.interfaces@[i].ips@[j]@ == crate::text::lossy_utf8(
                l.interfaces@[i].ips@[j]@,
            ));
            assert(b.interfaces@[i].ips@[j]@ == crate::text::lossy_utf8(
                c.interfaces@[i].ips@[j]@,
            ));
        }
    }
}

/// A legacy contract and a current contract that hold the same data map to
/// contracts that are equal on every field both schemas have.
pub proof fn contract_schemas_converge(
    l: legacy::Contract,
    c: wire::Contract,
    a: Contract,
    b: Contract,
)
    requires
        contracts_agree(l, c),
        contract_from_legacy(a, l),
        contract_from_current(b, c),
    ensures
        a.version == b.version && a.state == b.state,
        a.contract_id == b.contract_id && a.twin_id == b.twin_id,
        contract_data_same(a.contract_type, b.contract_type),
{
    match (a.contract_type, b.contract_type, c.contract_type) {
        (
            ContractData::NodeContract(x),
            ContractData::NodeContract(y),
            wire::ContractData::NodeContract(w),
        ) => {
            assert(node_contract_from(x, w));
            assert(node_contract_from(y, w));
            assert forall|i: int| 0 <= i < x.public_ips_list@.len() implies {
                &&& (#[trigger] x.public_ips_list@[i]).ip@ == y.public_ips_list@[i].ip@
                &&& x.public_ips_list@[i].gateway@ == y.public_ips_list@[i].gateway@
                &&& x.public_ips_list@[i].contract_id == y.public_ips_list@[i].contract_id
            } by {
                assert(public_ip_from(x.public_ips_list@[i], w.public_ips_list@[i]));
                assert(public_ip_from(y.public_ips_list@[i], w.public_ips_list@[i]));
            }
        },
        _ => {},
    }
}

/// Same variant of the unit in both schemas.
pub open spec fn units_agree(l: legacy::Unit, c: wire::Unit) -> bool {
    legacy_unit_index(l) == wire_unit_index(c)
}

pub open spec fn policies_agree(l: legacy::Policy, c: wire::Policy) -> bool {
    l.value == c.value && units_agree(l.unit, c.unit)
}

pub open spec fn pricing_policies_agree(l: legacy::PricingPolicy, c: wire::PricingPolicy) -> bool {
    &&& l.version == c.version
    &&& l.id == c.id
    &&& l.name@ == c.name@
    &&& policies_agree(l.su, c.su)
    &&& policies_agree(l.cu, c.cu)
    &&& policies_agree(l.nu, c.nu)
    &&& policies_agree(l.ipu, c.ipu)
    &&& policies_agree(l.unique_name, c.unique_name)
    &&& policies_agree(l.domain_name, c.domain_name)
    &&& l.foundation_account == c.foundation_account
    &&& l.certified_sales_account == c.certified_sales_account
    &&& l.discount_for_dedication_nodes == c.discount_for_dedication_nodes
}

pub open spec fn entities_agree(l: legacy::Entity, c: wire::Entity) -> bool {
    &&& l.version == c.version
    &&& l.id == c.id
    &&& l.name@ == c.name@
    &&& l.account_id == c.account_id
    &&& l.country@ == c.country@
    &&& l.city@ == c.city@
}

pub open spec fn consumptions_agree(l: legacy::Consumption, c: wire::Consumption) -> bool {
    &&& l.contract_id == c.contract_id
    &&& l.timestamp == c.timestamp
    &&& l.cru == c.cru
    &&& l.sru == c.sru
    &&& l.hru == c.hru
    &&& l.mru == c.mru
    &&& l.nru == c.nru
}

pub open spec fn contract_bills_agree(l: legacy::ContractBill, c: wire::ContractBill) -> bool {
    &&& l.contract_id == c.contract_id
    &&& l.timestamp == c.timestamp
    &&& legacy_discountlevel_index(l.discount_level) == wire_discountlevel_index(c.discount_level)
    &&& l.amount_billed == c.amount_billed
}

/// A legacy pricing policy and a current one that hold the same data map to
/// the same policy.
pub proof fn pricing_policy_schemas_converge(
    l: legacy::PricingPolicy,
    c: wire::PricingPolicy,
    a: PricingPolicy,
    b: PricingPolicy,
)
    requires
        pricing_policies_agree(l, c),
        pricing_policy_from_legacy(a, l),
        pricing_policy_from_current(b, c),
    ensures
        a.version == b.version && a.id == b.id && a.name@ == b.name@,
        a.su == b.su && a.cu == b.cu && a.nu == b.nu && a.ipu == b.ipu,
        a.unique_name == b.unique_name && a.domain_name == b.domain_name,
        a.foundation_account == b.foundation_account,
        a.certified_sales_account == b.certified_sales_account,
        a.discount_for_dedication_nodes == b.discount_for_dedication_nodes,
{
}

/// A legacy entity and a current one that hold the same data map to the
/// same entity.
pub proof fn entity_schemas_converge(l: legacy::Entity, c: wire::Entity, a: Entity, b: Entity)
    requires
        entities_agree(l, c),
        entity_from_legacy(a, l),
        entity_from_current(b, c),
    ensures
        a.version == b.version && a.id == b.id && a.name@ == b.name@,
        a.account_id == b.account_id && a.country@ == b.country@ && a.city@ == b.city@,
{
}

/// A legacy consumption report and a current one that hold the same data
/// map to the same report.
pub proof fn consumption_schemas_converge(l: legacy::Consumption, c: wire::Consumption)
    requires
        consumptions_agree(l, c),
    ensures
        consumption_of_legacy(l) == consumption_of_current(c),
{
}

/// A legacy bill and a current one that hold the same data map to the same
/// bill; the discount level keeps its variant.
pub proof fn contract_bill_schemas_converge(l: legacy::ContractBill, c: wire::ContractBill)
    requires
        contract_bills_agree(l, c),
    ensures
        contract_bill_of_legacy(l) == contract_bill_of_current(c),
{
}

/// The legacy unit and discount level map into the current sets without
/// merging two legacy values.
pub proof fn legacy_enum_maps_injective(
    x: legacy::Unit,
    y: legacy::Unit,
    d: legacy::DiscountLevel,
    e: legacy::DiscountLevel,
)
    ensures
        unit_of_legacy(x) == unit_of_legacy(y) ==> x == y,
        discount_level_of_legacy(d) == discount_level_of_legacy(e) ==> d == e,
{
}

/// Fields that the legacy farm lacks read as their documented default.
pub proof fn legacy_farm_defaults(r: Farm, w: legacy::Farm)
    requires
        farm_from_legacy(r, w),
    ensures
        r.farming_policy_limits.is_none(),
{
}

/// Fields that the legacy node lacks read as their documented default.
pub proof fn legacy_node_defaults(r: Node, w: legacy::Node)
    requires
        node_from_legacy(r, w),
    ensures
        r.connection_price == 0,
{
}

/// Fields that the legacy farming policy lacks read as their documented default.
pub proof fn legacy_farming_policy_defaults(r: FarmingPolicy, w: legacy::FarmingPolicy)
    requires
        farming_policy_from_legacy(r, w),
    ensures
        r.minimal_uptime == 0 && r.policy_created == 0 && r.policy_end == 0,
        !r.immutable && !r.default,
        r.node_certification == NodeCertification::Diy,
        r.farm_certification == FarmCertification::NotCertified,
{
}

/// A contract read from the legacy schema is never in a grace period: it is
/// `Created` or `Deleted`.
pub proof fn legacy_contract_never_in_grace_period(r: Contract, w: legacy::Contract)
    requires
        contract_from_legacy(r, w),
    ensures
        !(r.state is GracePeriod),
        r.state == ContractState::Created || r.state == ContractState::Deleted(Cause::CanceledByUser)
            || r.state == ContractState::Deleted(Cause::OutOfFunds),
{
}

/// The legacy certification type maps into both certification sets without
/// merging two legacy values.
pub proof fn legacy_certification_maps_injective(
    x: legacy::CertificationType,
    y: legacy::CertificationType,
)
    ensures
        node_certification_of(x) == node_certification_of(y) ==> x == y,
        farm_certification_of(x) == farm_certification_of(y) ==> x == y,
{
}

} // verus!
