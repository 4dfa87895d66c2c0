//! Layouts of the stored entities: each record is its fields one after the
//! other in declaration order, each enum a variant index byte followed by
//! the variant's fields.

use vstd::prelude::*;
use crate::layout::{rest_of, starts_with_after, starts_with_split, Layout};
use crate::scale::starts_with;
use crate::types::{
    AccountData, AccountId32, AccountInfo, Cause, EntityProof, FarmCertification,
    FarmingPolicyLimit, NodeCertification, RentContract, Resources,
};
use crate::legacy;
use crate::wire;

verus! {

/// The first byte of an encoding found at `pos` is the byte there.
proof fn first_byte(b: Seq<u8>, pos: int, e: Seq<u8>)
    requires
        0 <= pos <= b.len(),
        e.len() >= 1,
        starts_with(rest_of(b, pos), e),
    ensures
        pos < b.len(),
        e[0] == b[pos],
{
    let r = rest_of(b, pos);
    assert(r.subrange(0, e.len() as int)[0] == r[0]);
}

/// Two encodings that start `s` have the same first byte.
proof fn same_first_byte(s: Seq<u8>, x: Seq<u8>, y: Seq<u8>)
    requires
        x.len() >= 1,
        y.len() >= 1,
        starts_with(s, x),
        starts_with(s, y),
    ensures
        x[0] == y[0],
{
    assert(s.subrange(0, x.len() as int)[0] == s[0]);
    assert(s.subrange(0, y.len() as int)[0] == s[0]);
}

/// Diy is 0, Certified is 1.
impl Layout for NodeCertification {
    open spec fn enc(&self) -> Seq<u8> {
        (*self == NodeCertification::Certified).enc()
    }

    proof fn prefix_free(s: Seq<u8>, a: NodeCertification, b: NodeCertification) {
        bool::prefix_free(
            s,
            a == NodeCertification::Certified,
            b == NodeCertification::Certified,
        );
    }

    fn take(b: &[u8], pos: usize) -> (r: Option<(NodeCertification, usize)>) {
        match bool::take(b, pos) {
            Some((true, p)) => Some((NodeCertification::Certified, p)),
            Some((false, p)) => Some((NodeCertification::Diy, p)),
            None => {
                proof {
                    assert forall|v: NodeCertification| !starts_with(
                        rest_of(b@, pos as int),
                        #[trigger] v.enc(),
                    ) by {
                        assert(v.enc() == (v == NodeCertification::Certified).enc());
                    }
                }
                None
            },
        }
    }
}

/// NotCertified is 0, Gold is 1.
impl Layout for FarmCertification {
    open spec fn enc(&self) -> Seq<u8> {
        (*self == FarmCertification::Gold).enc()
    }

    proof fn prefix_free(s: Seq<u8>, a: FarmCertification, b: FarmCertification) {
        bool::prefix_free(s, a == FarmCertification::Gold, b == FarmCertification::Gold);
    }

    fn take(b: &[u8], pos: usize) -> (r: Option<(FarmCertification, usize)>) {
        match bool::take(b, pos) {
            Some((true, p)) => Some((FarmCertification::Gold, p)),
            Some((false, p)) => Some((FarmCertification::NotCertified, p)),
            None => {
                proof {
                    assert forall|v: FarmCertification| !starts_with(
                        rest_of(b@, pos as int),
                        #[trigger] v.enc(),
                    ) by {
                        assert(v.enc() == (v == FarmCertification::Gold).enc());
                    }
                }
                None
            },
        }
    }
}

/// CanceledByUser is 0, OutOfFunds is 1.
impl Layout for Cause {
    open spec fn enc(&self) -> Seq<u8> {
        (*self == Cause::OutOfFunds).enc()
    }

    proof fn prefix_free(s: Seq<u8>, a: Cause, b: Cause) {
        bool::prefix_free(s, a == Cause::OutOfFunds, b == Cause::OutOfFunds);
    }

    fn take(b: &[u8], pos: usize) -> (r: Option<(Cause, usize)>) {
        match bool::take(b, pos) {
            Some((true, p)) => Some((Cause::OutOfFunds, p)),
            Some((false, p)) => Some((Cause::CanceledByUser, p)),
            None => {
                proof {
                    assert forall|v: Cause| !starts_with(rest_of(b@, pos as int), #[trigger] v.enc())
                        by {
                        assert(v.enc() == (v == Cause::OutOfFunds).enc());
                    }
                }
                None
            },
        }
    }
}

/// Created is 0; Deleted is 1 and its cause; GracePeriod is 2 and its block.
impl Layout for wire::ContractState {
    open spec fn enc(&self) -> Seq<u8> {
        match self {
            wire::ContractState::Created => seq![0u8],
            wire::ContractState::Deleted(c) => seq![1u8] + c.enc(),
            wire::ContractState::GracePeriod(n) => seq![2u8] + n.enc(),
        }
    }

    proof fn prefix_free(s: Seq<u8>, a: wire::ContractState, b: wire::ContractState) {
        same_first_byte(s, a.enc(), b.enc());
        let t = s.subrange(1, s.len() as int);
        match (a, b) {
            (wire::ContractState::Deleted(x), wire::ContractState::Deleted(y)) => {
                starts_with_split(s, seq![1u8], x.enc());
                starts_with_split(s, seq![1u8], y.enc());
                Cause::prefix_free(t, x, y);
            },
            (wire::ContractState::GracePeriod(x), wire::ContractState::GracePeriod(y)) => {
                starts_with_split(s, seq![2u8], x.enc());
                starts_with_split(s, seq![2u8], y.enc());
                u64::prefix_free(t, x, y);
            },
            _ => {},
        }
    }

    fn take(b: &[u8], pos: usize) -> (r: Option<(wire::ContractState, usize)>) {
        if pos >= b.len() {
            return None;
        }
        let tag = b[pos];
        proof {
            assert forall|v: wire::ContractState| starts_with(
                rest_of(b@, pos as int),
                #[trigger] v.enc(),
            ) implies v.enc()[0] == tag by {
                first_byte(b@, pos as int, v.enc());
            }
            assert(b@.subrange(pos as int, pos + 1) =~= seq![tag]);
        }
        if tag == 0 {
            Some((wire::ContractState::Created, pos + 1))
        } else if tag == 1 {
            match Cause::take(b, pos + 1) {
                Some((c, p)) => {
                    assert(b@.subrange(pos as int, p as int) =~= seq![1u8] + b@.subrange(
                        pos + 1,
                        p as int,
                    ));
                    Some((wire::ContractState::Deleted(c), p))
                },
                None => {
                    proof {
                        assert forall|v: wire::ContractState| !starts_with(
                            rest_of(b@, pos as int),
                            #[trigger] v.enc(),
                        ) by {
                            if let wire::ContractState::Deleted(c) = v {
                                starts_with_after(b@, pos as int, pos + 1, seq![1u8], c.enc());
                            }
                        }
                    }
                    None
                },
            }
        } else if tag == 2 {
            match u64::take(b, pos + 1) {
                Some((n, p)) => {
                    assert(b@.subrange(pos as int, p as int) =~= seq![2u8] + b@.subrange(
                        pos + 1,
                        p as int,
                    ));
                    Some((wire::ContractState::GracePeriod(n), p))
                },
                None => {
                    proof {
                        assert forall|v: wire::ContractState| !starts_with(
                            rest_of(b@, pos as int),
                            #[trigger] v.enc(),
                        ) by {
                            if let wire::ContractState::GracePeriod(n) = v {
                                starts_with_after(b@, pos as int, pos + 1, seq![2u8], n.enc());
                            }
                        }
                    }
                    None
                },
            }
        } else {
            None
        }
    }
}

/// NodeContract is 0, NameContract 1, RentContract 2, each followed by its body.
impl Layout for wire::ContractData {
    open spec fn enc(&self) -> Seq<u8> {
        match self {
            wire::ContractData::NodeContract(c) => seq![0u8] + c.enc(),
            wire::ContractData::NameContract(c) => seq![1u8] + c.enc(),
            wire::ContractData::RentContract(c) => seq![2u8] + c.enc(),
        }
    }

    proof fn prefix_free(s: Seq<u8>, a: wire::ContractData, b: wire::ContractData) {
        same_first_byte(s, a.enc(), b.enc());
        let t = s.subrange(1, s.len() as int);
        match (a, b) {
            (wire::ContractData::NodeContract(x), wire::ContractData::NodeContract(y)) => {
                starts_with_split(s, seq![0u8], x.enc());
                starts_with_split(s, seq![0u8], y.enc());
                wire::NodeContract::prefix_free(t, x, y);
            },
            (wire::ContractData::NameContract(x), wire::ContractData::NameContract(y)) => {
                starts_with_split(s, seq![1u8], x.enc());
                starts_with_split(s, seq![1u8], y.enc());
                wire::NameContract::prefix_free(t, x, y);
            },
            (wire::ContractData::RentContract(x), wire::ContractData::RentContract(y)) => {
                starts_with_split(s, seq![2u8], x.enc());
                starts_with_split(s, seq![2u8], y.enc());
                RentContract::prefix_free(t, x, y);
            },
            _ => {},
        }
    }

    fn take(b: &[u8], pos: usize) -> (r: Option<(wire::ContractData, usize)>) {
        if pos >= b.len() {
            return None;
        }
        let tag = b[pos];
        proof {
            assert forall|v: wire::ContractData| starts_with(
                rest_of(b@, pos as int),
                #[trigger] v.enc(),
            ) implies v.enc()[0] == tag by {
                first_byte(b@, pos as int, v.enc());
            }
            assert(b@.subrange(pos as int, pos + 1) =~= seq![tag]);
        }
        if tag == 0 {
            match wire::NodeContract::take(b, pos + 1) {
                Some((c, p)) => {
                    assert(b@.subrange(pos as int, p as int) =~= seq![0u8] + b@.subrange(
                        pos + 1,
                        p as int,
                    ));
                    Some((wire::ContractData::NodeContract(c), p))
                },
                None => {
                    proof {
                        assert forall|v: wire::ContractData| !starts_with(
                            rest_of(b@, pos as int),
                            #[trigger] v.enc(),
                        ) by {
                            if let wire::ContractData::NodeContract(c) = v {
                                starts_with_after(b@, pos as int, pos + 1, seq![0u8], c.enc());
                            }
                        }
                    }
                    None
                },
            }
        } else if tag == 1 {
            match wire::NameContract::take(b, pos + 1) {
                Some((c, p)) => {
                    assert(b@.subrange(pos as int, p as int) =~= seq![1u8] + b@.subrange(
                        pos + 1,
                        p as int,
                    ));
                    Some((wire::ContractData::NameContract(c), p))
                },
                None => {
                    proof {
                        assert forall|v: wire::ContractData| !starts_with(
                            rest_of(b@, pos as int),
                            #[trigger] v.enc(),
                        ) by {
                            if let wire::ContractData::NameContract(c) = v {
                                starts_with_after(b@, pos as int, pos + 1, seq![1u8], c.enc());
                            }
                        }
                    }
                    None
                },
            }
        } else if tag == 2 {
            match RentContract::take(b, pos + 1) {
                Some((c, p)) => {
                    assert(b@.subrange(pos as int, p as int) =~= seq![2u8] + b@.subrange(
                        pos + 1,
                        p as int,
                    ));
                    Some((wire::ContractData::RentContract(c), p))
                },
                None => {
                    proof {
                        assert forall|v: wire::ContractData| !starts_with(
                            rest_of(b@, pos as int),
                            #[trigger] v.enc(),
                        ) by {
                            if let wire::ContractData::RentContract(c) = v {
                                starts_with_after(b@, pos as int, pos + 1, seq![2u8], c.enc());
                            }
                        }
                    }
                    None
                },
            }
        } else {
            None
        }
    }
}

impl Layout for AccountId32 {
    open spec fn enc(&self) -> Seq<u8> {
        self.bytes.enc()
    }

    proof fn prefix_free(s: Seq<u8>, a: AccountId32, b: AccountId32) {
        <[u8; 32] as Layout>::prefix_free(s, a.bytes, b.bytes);
    }

    fn take(b: &[u8], pos: usize) -> (r: Option<(AccountId32, usize)>) {
        match <[u8; 32] as Layout>::take(b, pos) {
            Some((bytes, p)) => Some((AccountId32 { bytes }, p)),
            None => {
                proof {
                    assert forall|v: AccountId32| !starts_with(rest_of(b@, pos as int), #[trigger] v.enc())
                        by {
                        assert(v.enc() == v.bytes.enc());
                    }
                }
                None
            },
        }
    }
}

impl Layout for EntityProof {
    open spec fn enc(&self) -> Seq<u8> {
        (self.entity_id, self.signature).enc()
    }

    proof fn prefix_free(s: Seq<u8>, a: EntityProof, b: EntityProof) {
        <(u32, Vec<u8>) as Layout>::prefix_free(s, (a.entity_id, a.signature), (b.entity_id, b.signature));
    }

    fn take(b: &[u8], pos: usize) -> (r: Option<(EntityProof, usize)>) {
        match <(u32, Vec<u8>) as Layout>::take(b, pos) {
            Some(((entity_id, signature), p)) => Some((EntityProof { entity_id, signature }, p)),
            None => {
                proof {
                    assert forall|v: EntityProof| !starts_with(rest_of(b@, pos as int), #[trigger] v.enc())
                        by {
                        assert(v.enc() == (v.entity_id, v.signature).enc());
                    }
                }
                None
            },
        }
    }
}

impl Layout for wire::Twin {
    open spec fn enc(&self) -> Seq<u8> {
        (self.version, (self.id, (self.account_id, (self.ip, self.entities)))).enc()
    }

    proof fn prefix_free(s: Seq<u8>, a: wire::Twin, b: wire::Twin) {
        <(u32, (u32, (AccountId32, (Vec<u8>, Vec<EntityProof>)))) as Layout>::prefix_free(s, (a.version, (a.id, (a.account_id, (a.ip, a.entities)))), (b.version, (b.id, (b.account_id, (b.ip, b.entities)))));
    }

    fn take(b: &[u8], pos: usize) -> (r: Option<(wire::Twin, usize)>) {
        match <(u32, (u32, (AccountId32, (Vec<u8>, Vec<EntityProof>)))) as Layout>::take(b, pos) {
            Some(((version, (id, (account_id, (ip, entities)))), p)) => Some((wire::Twin { version, id, account_id, ip, entities }, p)),
            None => {
                proof {
                    assert forall|v: wire::Twin| !starts_with(rest_of(b@, pos as int), #[trigger] v.enc())
                        by {
                        assert(v.enc() == (v.version, (v.id, (v.account_id, (v.ip, v.entities)))).enc());
                    }
                }
                None
            },
        }
    }
}

impl Layout for wire::PublicIP {
    open spec fn enc(&self) -> Seq<u8> {
        (self.ip, (self.gateway, self.contract_id)).enc()
    }

    proof fn prefix_free(s: Seq<u8>, a: wire::PublicIP, b: wire::PublicIP) {
        <(Vec<u8>, (Vec<u8>, u64)) as Layout>::prefix_free(s, (a.ip, (a.gateway, a.contract_id)), (b.ip, (b.gateway, b.contract_id)));
    }

    fn take(b: &[u8], pos: usize) -> (r: Option<(wire::PublicIP, usize)>) {
        match <(Vec<u8>, (Vec<u8>, u64)) as Layout>::take(b, pos) {
            Some(((ip, (gateway, contract_id)), p)) => Some((wire::PublicIP { ip, gateway, contract_id }, p)),
            None => {
                proof {
                    assert forall|v: wire::PublicIP| !starts_with(rest_of(b@, pos as int), #[trigger] v.enc())
                        by {
                        assert(v.enc() == (v.ip, (v.gateway, v.contract_id)).enc());
                    }
                }
                None
            },
        }
    }
}

impl Layout for FarmingPolicyLimit {
    open spec fn enc(&self) -> Seq<u8> {
        (self.farming_policy_id, (self.cu, (self.su, (self.end, (self.node_count, self.node_certification))))).enc()
    }

    proof fn prefix_free(s: Seq<u8>, a: FarmingPolicyLimit, b: FarmingPolicyLimit) {
        <(u32, (Option<u64>, (Option<u64>, (Option<u64>, (Option<u32>, bool))))) as Layout>::prefix_free(s, (a.farming_policy_id, (a.cu, (a.su, (a.end, (a.node_count, a.node_certification))))), (b.farming_policy_id, (b.cu, (b.su, (b.end, (b.node_count, b.node_certification))))));
    }

    fn take(b: &[u8], pos: usize) -> (r: Option<(FarmingPolicyLimit, usize)>) {
        match <(u32, (Option<u64>, (Option<u64>, (Option<u64>, (Option<u32>, bool))))) as Layout>::take(b, pos) {
            Some(((farming_policy_id, (cu, (su, (end, (node_count, node_certification))))), p)) => Some((FarmingPolicyLimit { farming_policy_id, cu, su, end, node_count, node_certification }, p)),
            None => {
                proof {
                    assert forall|v: FarmingPolicyLimit| !starts_with(rest_of(b@, pos as int), #[trigger] v.enc())
                        by {
                        assert(v.enc() == (v.farming_policy_id, (v.cu, (v.su, (v.end, (v.node_count, v.node_certification))))).enc());
                    }
                }
                None
            },
        }
    }
}

impl Layout for wire::Farm {
    open spec fn enc(&self) -> Seq<u8> {
        (self.version, (self.id, (self.name, (self.twin_id, (self.pricing_policy_id, (self.certification, (self.public_ips, (self.dedicated_farm, self.farming_policy_limits)))))))).enc()
    }

    proof fn prefix_free(s: Seq<u8>, a: wire::Farm, b: wire::Farm) {
        <(u32, (u32, (Vec<u8>, (u32, (u32, (FarmCertification, (Vec<wire::PublicIP>, (bool, Option<FarmingPolicyLimit>)))))))) as Layout>::prefix_free(s, (a.version, (a.id, (a.name, (a.twin_id, (a.pricing_policy_id, (a.certification, (a.public_ips, (a.dedicated_farm, a.farming_policy_limits)))))))), (b.version, (b.id, (b.name, (b.twin_id, (b.pricing_policy_id, (b.certification, (b.public_ips, (b.dedicated_farm, b.farming_policy_limits)))))))));
    }

    fn take(b: &[u8], pos: usize) -> (r: Option<(wire::Farm, usize)>) {
        match <(u32, (u32, (Vec<u8>, (u32, (u32, (FarmCertification, (Vec<wire::PublicIP>, (bool, Option<FarmingPolicyLimit>)))))))) as Layout>::take(b, pos) {
            Some(((version, (id, (name, (twin_id, (pricing_policy_id, (certification, (public_ips, (dedicated_farm, farming_policy_limits)))))))), p)) => Some((wire::Farm { version, id, name, twin_id, pricing_policy_id, certification, public_ips, dedicated_farm, farming_policy_limits }, p)),
            None => {
                proof {
                    assert forall|v: wire::Farm| !starts_with(rest_of(b@, pos as int), #[trigger] v.enc())
                        by {
                        assert(v.enc() == (v.version, (v.id, (v.name, (v.twin_id, (v.pricing_policy_id, (v.certification, (v.public_ips, (v.dedicated_farm, v.farming_policy_limits)))))))).enc());
                    }
                }
                None
            },
        }
    }
}

impl Layout for Resources {
    open spec fn enc(&self) -> Seq<u8> {
        (self.hru, (self.sru, (self.cru, self.mru))).enc()
    }

    proof fn prefix_free(s: Seq<u8>, a: Resources, b: Resources) {
        <(u64, (u64, (u64, u64))) as Layout>::prefix_free(s, (a.hru, (a.sru, (a.cru, a.mru))), (b.hru, (b.sru, (b.cru, b.mru))));
    }

    fn take(b: &[u8], pos: usize) -> (r: Option<(Resources, usize)>) {
        match <(u64, (u64, (u64, u64))) as Layout>::take(b, pos) {
            Some(((hru, (sru, (cru, mru))), p)) => Some((Resources { hru, sru, cru, mru }, p)),
            None => {
                proof {
                    assert forall|v: Resources| !starts_with(rest_of(b@, pos as int), #[trigger] v.enc())
                        by {
                        assert(v.enc() == (v.hru, (v.sru, (v.cru, v.mru))).enc());
                    }
                }
                None
            },
        }
    }
}

impl Layout for wire::Location {
    open spec fn enc(&self) -> Seq<u8> {
        (self.longitude, self.latitude).enc()
    }

    proof fn prefix_free(s: Seq<u8>, a: wire::Location, b: wire::Location) {
        <(Vec<u8>, Vec<u8>) as Layout>::prefix_free(s, (a.longitude, a.latitude), (b.longitude, b.latitude));
    }

    fn take(b: &[u8], pos: usize) -> (r: Option<(wire::Location, usize)>) {
        match <(Vec<u8>, Vec<u8>) as Layout>::take(b, pos) {
            Some(((longitude, latitude), p)) => Some((wire::Location { longitude, latitude }, p)),
            None => {
                proof {
                    assert forall|v: wire::Location| !starts_with(rest_of(b@, pos as int), #[trigger] v.enc())
                        by {
                        assert(v.enc() == (v.longitude, v.latitude).enc());
                    }
                }
                None
            },
        }
    }
}

impl Layout for wire::PublicConfig {
    open spec fn enc(&self) -> Seq<u8> {
        (self.ipv4, (self.ipv6, (self.gw4, (self.gw6, self.domain)))).enc()
    }

    proof fn prefix_free(s: Seq<u8>, a: wire::PublicConfig, b: wire::PublicConfig) {
        <(Vec<u8>, (Vec<u8>, (Vec<u8>, (Vec<u8>, Vec<u8>)))) as Layout>::prefix_free(s, (a.ipv4, (a.ipv6, (a.gw4, (a.gw6, a.domain)))), (b.ipv4, (b.ipv6, (b.gw4, (b.gw6, b.domain)))));
    }

    fn take(b: &[u8], pos: usize) -> (r: Option<(wire::PublicConfig, usize)>) {
        match <(Vec<u8>, (Vec<u8>, (Vec<u8>, (Vec<u8>, Vec<u8>)))) as Layout>::take(b, pos) {
            Some(((ipv4, (ipv6, (gw4, (gw6, domain)))), p)) => Some((wire::PublicConfig { ipv4, ipv6, gw4, gw6, domain }, p)),
            None => {
                proof {
                    assert forall|v: wire::PublicConfig| !starts_with(rest_of(b@, pos as int), #[trigger] v.enc())
                        by {
                        assert(v.enc() == (v.ipv4, (v.ipv6, (v.gw4, (v.gw6, v.domain)))).enc());
                    }
                }
                None
            },
        }
    }
}

impl Layout for wire::Interface {
    open spec fn enc(&self) -> Seq<u8> {
        (self.name, (self.mac, self.ips)).enc()
    }

    proof fn prefix_free(s: Seq<u8>, a: wire::Interface, b: wire::Interface) {
        <(Vec<u8>, (Vec<u8>, Vec<Vec<u8>>)) as Layout>::prefix_free(s, (a.name, (a.mac, a.ips)), (b.name, (b.mac, b.ips)));
    }

    fn take(b: &[u8], pos: usize) -> (r: Option<(wire::Interface, usize)>) {
        match <(Vec<u8>, (Vec<u8>, Vec<Vec<u8>>)) as Layout>::take(b, pos) {
            Some(((name, (mac, ips)), p)) => Some((wire::Interface { name, mac, ips }, p)),
            None => {
                proof {
                    assert forall|v: wire::Interface| !starts_with(rest_of(b@, pos as int), #[trigger] v.enc())
                        by {
                        assert(v.enc() == (v.name, (v.mac, v.ips)).enc());
                    }
                }
                None
            },
        }
    }
}

impl Layout for wire::Node {
    open spec fn enc(&self) -> Seq<u8> {
        (self.version, (self.id, (self.farm_id, (self.twin_id, (self.resources, (self.location, (self.country, (self.city, (self.public_config, (self.created, (self.farming_policy_id, (self.interfaces, (self.certification, (self.secure_boot, (self.virtualized, (self.serial_number, self.connection_price)))))))))))))))).enc()
    }

    proof fn prefix_free(s: Seq<u8>, a: wire::Node, b: wire::Node) {
        <(u32, (u32, (u32, (u32, (Resources, (wire::Location, (Vec<u8>, (Vec<u8>, (Option<wire::PublicConfig>, (u64, (u32, (Vec<wire::Interface>, (NodeCertification, (bool, (bool, (Vec<u8>, u32)))))))))))))))) as Layout>::prefix_free(s, (a.version, (a.id, (a.farm_id, (a.twin_id, (a.resources, (a.location, (a.country, (a.city, (a.public_config, (a.created, (a.farming_policy_id, (a.interfaces, (a.certification, (a.secure_boot, (a.virtualized, (a.serial_number, a.connection_price)))))))))))))))), (b.version, (b.id, (b.farm_id, (b.twin_id, (b.resources, (b.location, (b.country, (b.city, (b.public_config, (b.created, (b.farming_policy_id, (b.interfaces, (b.certification, (b.secure_boot, (b.virtualized, (b.serial_number, b.connection_price)))))))))))))))));
    }

    fn take(b: &[u8], pos: usize) -> (r: Option<(wire::Node, usize)>) {
        match <(u32, (u32, (u32, (u32, (Resources, (wire::Location, (Vec<u8>, (Vec<u8>, (Option<wire::PublicConfig>, (u64, (u32, (Vec<wire::Interface>, (NodeCertification, (bool, (bool, (Vec<u8>, u32)))))))))))))))) as Layout>::take(b, pos) {
            Some(((version, (id, (farm_id, (twin_id, (resources, (location, (country, (city, (public_config, (created, (farming_policy_id, (interfaces, (certification, (secure_boot, (virtualized, (serial_number, connection_price)))))))))))))))), p)) => Some((wire::Node { version, id, farm_id, twin_id, resources, location, country, city, public_config, created, farming_policy_id, interfaces, certification, secure_boot, virtualized, serial_number, connection_price }, p)),
            None => {
                proof {
                    assert forall|v: wire::Node| !starts_with(rest_of(b@, pos as int), #[trigger] v.enc())
                        by {
                        assert(v.enc() == (v.version, (v.id, (v.farm_id, (v.twin_id, (v.resources, (v.location, (v.country, (v.city, (v.public_config, (v.created, (v.farming_policy_id, (v.interfaces, (v.certification, (v.secure_boot, (v.virtualized, (v.serial_number, v.connection_price)))))))))))))))).enc());
                    }
                }
                None
            },
        }
    }
}

impl Layout for wire::NodeContract {
    open spec fn enc(&self) -> Seq<u8> {
        (self.node_id, (self.deployment_data, (self.deployment_hash, (self.public_ips, self.public_ips_list)))).enc()
    }

    proof fn prefix_free(s: Seq<u8>, a: wire::NodeContract, b: wire::NodeContract) {
        <(u32, (Vec<u8>, (Vec<u8>, (u32, Vec<wire::PublicIP>)))) as Layout>::prefix_free(s, (a.node_id, (a.deployment_data, (a.deployment_hash, (a.public_ips, a.public_ips_list)))), (b.node_id, (b.deployment_data, (b.deployment_hash, (b.public_ips, b.public_ips_list)))));
    }

    fn take(b: &[u8], pos: usize) -> (r: Option<(wire::NodeContract, usize)>) {
        match <(u32, (Vec<u8>, (Vec<u8>, (u32, Vec<wire::PublicIP>)))) as Layout>::take(b, pos) {
            Some(((node_id, (deployment_data, (deployment_hash, (public_ips, public_ips_list)))), p)) => Some((wire::NodeContract { node_id, deployment_data, deployment_hash, public_ips, public_ips_list }, p)),
            None => {
                proof {
                    assert forall|v: wire::NodeContract| !starts_with(rest_of(b@, pos as int), #[trigger] v.enc())
                        by {
                        assert(v.enc() == (v.node_id, (v.deployment_data, (v.deployment_hash, (v.public_ips, v.public_ips_list)))).enc());
                    }
                }
                None
            },
        }
    }
}

impl Layout for wire::NameContract {
    open spec fn enc(&self) -> Seq<u8> {
        self.name.enc()
    }

    proof fn prefix_free(s: Seq<u8>, a: wire::NameContract, b: wire::NameContract) {
        <Vec<u8> as Layout>::prefix_free(s, a.name, b.name);
    }

    fn take(b: &[u8], pos: usize) -> (r: Option<(wire::NameContract, usize)>) {
        match <Vec<u8> as Layout>::take(b, pos) {
            Some((name, p)) => Some((wire::NameContract { name }, p)),
            None => {
                proof {
                    assert forall|v: wire::NameContract| !starts_with(rest_of(b@, pos as int), #[trigger] v.enc())
                        by {
                        assert(v.enc() == v.name.enc());
                    }
                }
                None
            },
        }
    }
}

impl Layout for RentContract {
    open spec fn enc(&self) -> Seq<u8> {
        self.node_id.enc()
    }

    proof fn prefix_free(s: Seq<u8>, a: RentContract, b: RentContract) {
        <u32 as Layout>::prefix_free(s, a.node_id, b.node_id);
    }

    fn take(b: &[u8], pos: usize) -> (r: Option<(RentContract, usize)>) {
        match <u32 as Layout>::take(b, pos) {
            Some((node_id, p)) => Some((RentContract { node_id }, p)),
            None => {
                proof {
                    assert forall|v: RentContract| !starts_with(rest_of(b@, pos as int), #[trigger] v.enc())
                        by {
                        assert(v.enc() == v.node_id.enc());
                    }
                }
                None
            },
        }
    }
}

impl Layout for wire::Contract {
    open spec fn enc(&self) -> Seq<u8> {
        (self.version, (self.state, (self.contract_id, (self.twin_id, self.contract_type)))).enc()
    }

    proof fn prefix_free(s: Seq<u8>, a: wire::Contract, b: wire::Contract) {
        <(u32, (wire::ContractState, (u64, (u32, wire::ContractData)))) as Layout>::prefix_free(s, (a.version, (a.state, (a.contract_id, (a.twin_id, a.contract_type)))), (b.version, (b.state, (b.contract_id, (b.twin_id, b.contract_type)))));
    }

    fn take(b: &[u8], pos: usize) -> (r: Option<(wire::Contract, usize)>) {
        match <(u32, (wire::ContractState, (u64, (u32, wire::ContractData)))) as Layout>::take(b, pos) {
            Some(((version, (state, (contract_id, (twin_id, contract_type)))), p)) => Some((wire::Contract { version, state, contract_id, twin_id, contract_type }, p)),
            None => {
                proof {
                    assert forall|v: wire::Contract| !starts_with(rest_of(b@, pos as int), #[trigger] v.enc())
                        by {
                        assert(v.enc() == (v.version, (v.state, (v.contract_id, (v.twin_id, v.contract_type)))).enc());
                    }
                }
                None
            },
        }
    }
}

impl Layout for AccountInfo {
    open spec fn enc(&self) -> Seq<u8> {
        (self.nonce, (self.consumers, (self.providers, (self.sufficients, self.data)))).enc()
    }

    proof fn prefix_free(s: Seq<u8>, a: AccountInfo, b: AccountInfo) {
        <(u32, (u32, (u32, (u32, AccountData)))) as Layout>::prefix_free(s, (a.nonce, (a.consumers, (a.providers, (a.sufficients, a.data)))), (b.nonce, (b.consumers, (b.providers, (b.sufficients, b.data)))));
    }

    fn take(b: &[u8], pos: usize) -> (r: Option<(AccountInfo, usize)>) {
        match <(u32, (u32, (u32, (u32, AccountData)))) as Layout>::take(b, pos) {
            Some(((nonce, (consumers, (providers, (sufficients, data)))), p)) => Some((AccountInfo { nonce, consumers, providers, sufficients, data }, p)),
            None => {
                proof {
                    assert forall|v: AccountInfo| !starts_with(rest_of(b@, pos as int), #[trigger] v.enc())
                        by {
                        assert(v.enc() == (v.nonce, (v.consumers, (v.providers, (v.sufficients, v.data)))).enc());
                    }
                }
                None
            },
        }
    }
}

impl Layout for AccountData {
    open spec fn enc(&self) -> Seq<u8> {
        (self.free, (self.reserved, (self.misc_frozen, self.fee_frozen))).enc()
    }

    proof fn prefix_free(s: Seq<u8>, a: AccountData, b: AccountData) {
        <(u128, (u128, (u128, u128))) as Layout>::prefix_free(s, (a.free, (a.reserved, (a.misc_frozen, a.fee_frozen))), (b.free, (b.reserved, (b.misc_frozen, b.fee_frozen))));
    }

    fn take(b: &[u8], pos: usize) -> (r: Option<(AccountData, usize)>) {
        match <(u128, (u128, (u128, u128))) as Layout>::take(b, pos) {
            Some(((free, (reserved, (misc_frozen, fee_frozen))), p)) => Some((AccountData { free, reserved, misc_frozen, fee_frozen }, p)),
            None => {
                proof {
                    assert forall|v: AccountData| !starts_with(rest_of(b@, pos as int), #[trigger] v.enc())
                        by {
                        assert(v.enc() == (v.free, (v.reserved, (v.misc_frozen, v.fee_frozen))).enc());
                    }
                }
                None
            },
        }
    }
}

/// Diy is 0, Certified is 1.
impl Layout for legacy::CertificationType {
    open spec fn enc(&self) -> Seq<u8> {
        (*self == legacy::CertificationType::Certified).enc()
    }

    proof fn prefix_free(s: Seq<u8>, a: legacy::CertificationType, b: legacy::CertificationType) {
        bool::prefix_free(
            s,
            a == legacy::CertificationType::Certified,
            b == legacy::CertificationType::Certified,
        );
    }

    fn take(b: &[u8], pos: usize) -> (r: Option<(legacy::CertificationType, usize)>) {
        match bool::take(b, pos) {
            Some((true, p)) => Some((legacy::CertificationType::Certified, p)),
            Some((false, p)) => Some((legacy::CertificationType::Diy, p)),
            None => {
                proof {
                    assert forall|v: legacy::CertificationType| !starts_with(
                        rest_of(b@, pos as int),
                        #[trigger] v.enc(),
                    ) by {
                        assert(v.enc() == (v == legacy::CertificationType::Certified).enc());
                    }
                }
                None
            },
        }
    }
}

/// Created is 0; Deleted is 1 and its cause.
impl Layout for legacy::ContractState {
    open spec fn enc(&self) -> Seq<u8> {
        match self {
            legacy::ContractState::Created => seq![0u8],
            legacy::ContractState::Deleted(c) => seq![1u8] + c.enc(),
        }
    }

    proof fn prefix_free(s: Seq<u8>, a: legacy::ContractState, b: legacy::ContractState) {
        same_first_byte(s, a.enc(), b.enc());
        if let (legacy::ContractState::Deleted(x), legacy::ContractState::Deleted(y)) = (a, b) {
            starts_with_split(s, seq![1u8], x.enc());
            starts_with_split(s, seq![1u8], y.enc());
            Cause::prefix_free(s.subrange(1, s.len() as int), x, y);
        }
    }

    fn take(b: &[u8], pos: usize) -> (r: Option<(legacy::ContractState, usize)>) {
        if pos >= b.len() {
            return None;
        }
        let tag = b[pos];
        proof {
            assert forall|v: legacy::ContractState| starts_with(
                rest_of(b@, pos as int),
                #[trigger] v.enc(),
            ) implies v.enc()[0] == tag by {
                first_byte(b@, pos as int, v.enc());
            }
            assert(b@.subrange(pos as int, pos + 1) =~= seq![tag]);
        }
        if tag == 0 {
            Some((legacy::ContractState::Created, pos + 1))
        } else if tag == 1 {
            match Cause::take(b, pos + 1) {
                Some((c, p)) => {
                    assert(b@.subrange(pos as int, p as int) =~= seq![1u8] + b@.subrange(
                        pos + 1,
                        p as int,
                    ));
                    Some((legacy::ContractState::Deleted(c), p))
                },
                None => {
                    proof {
                        assert forall|v: legacy::ContractState| !starts_with(
                            rest_of(b@, pos as int),
                            #[trigger] v.enc(),
                        ) by {
                            if let legacy::ContractState::Deleted(c) = v {
                                starts_with_after(b@, pos as int, pos + 1, seq![1u8], c.enc());
                            }
                        }
                    }
                    None
                },
            }
        } else {
            None
        }
    }
}

impl Layout for legacy::Farm {
    open spec fn enc(&self) -> Seq<u8> {
        (self.version, (self.id, (self.name, (self.twin_id, (self.pricing_policy_id, (self.certification_type, (self.public_ips, self.dedicated_farm))))))).enc()
    }

    proof fn prefix_free(s: Seq<u8>, a: legacy::Farm, b: legacy::Farm) {
        <(u32, (u32, (Vec<u8>, (u32, (u32, (legacy::CertificationType, (Vec<wire::PublicIP>, bool))))))) as Layout>::prefix_free(s, (a.version, (a.id, (a.name, (a.twin_id, (a.pricing_policy_id, (a.certification_type, (a.public_ips, a.dedicated_farm))))))), (b.version, (b.id, (b.name, (b.twin_id, (b.pricing_policy_id, (b.certification_type, (b.public_ips, b.dedicated_farm))))))));
    }

    fn take(b: &[u8], pos: usize) -> (r: Option<(legacy::Farm, usize)>) {
        match <(u32, (u32, (Vec<u8>, (u32, (u32, (legacy::CertificationType, (Vec<wire::PublicIP>, bool))))))) as Layout>::take(b, pos) {
            Some(((version, (id, (name, (twin_id, (pricing_policy_id, (certification_type, (public_ips, dedicated_farm))))))), p)) => Some((legacy::Farm { version, id, name, twin_id, pricing_policy_id, certification_type, public_ips, dedicated_farm }, p)),
            None => {
                proof {
                    assert forall|v: legacy::Farm| !starts_with(rest_of(b@, pos as int), #[trigger] v.enc())
                        by {
                        assert(v.enc() == (v.version, (v.id, (v.name, (v.twin_id, (v.pricing_policy_id, (v.certification_type, (v.public_ips, v.dedicated_farm))))))).enc());
                    }
                }
                None
            },
        }
    }
}

impl Layout for legacy::Node {
    open spec fn enc(&self) -> Seq<u8> {
        (self.version, (self.id, (self.farm_id, (self.twin_id, (self.resources, (self.location, (self.country, (self.city, (self.public_config, (self.created, (self.farming_policy_id, (self.interfaces, (self.certification_type, (self.secure_boot, (self.virtualized, self.serial_number))))))))))))))).enc()
    }

    proof fn prefix_free(s: Seq<u8>, a: legacy::Node, b: legacy::Node) {
        <(u32, (u32, (u32, (u32, (Resources, (wire::Location, (Vec<u8>, (Vec<u8>, (Option<wire::PublicConfig>, (u64, (u32, (Vec<wire::Interface>, (legacy::CertificationType, (bool, (bool, Vec<u8>))))))))))))))) as Layout>::prefix_free(s, (a.version, (a.id, (a.farm_id, (a.twin_id, (a.resources, (a.location, (a.country, (a.city, (a.public_config, (a.created, (a.farming_policy_id, (a.interfaces, (a.certification_type, (a.secure_boot, (a.virtualized, a.serial_number))))))))))))))), (b.version, (b.id, (b.farm_id, (b.twin_id, (b.resources, (b.location, (b.country, (b.city, (b.public_config, (b.created, (b.farming_policy_id, (b.interfaces, (b.certification_type, (b.secure_boot, (b.virtualized, b.serial_number))))))))))))))));
    }

    fn take(b: &[u8], pos: usize) -> (r: Option<(legacy::Node, usize)>) {
        match <(u32, (u32, (u32, (u32, (Resources, (wire::Location, (Vec<u8>, (Vec<u8>, (Option<wire::PublicConfig>, (u64, (u32, (Vec<wire::Interface>, (legacy::CertificationType, (bool, (bool, Vec<u8>))))))))))))))) as Layout>::take(b, pos) {
            Some(((version, (id, (farm_id, (twin_id, (resources, (location, (country, (city, (public_config, (created, (farming_policy_id, (interfaces, (certification_type, (secure_boot, (virtualized, serial_number))))))))))))))), p)) => Some((legacy::Node { version, id, farm_id, twin_id, resources, location, country, city, public_config, created, farming_policy_id, interfaces, certification_type, secure_boot, virtualized, serial_number }, p)),
            None => {
                proof {
                    assert forall|v: legacy::Node| !starts_with(rest_of(b@, pos as int), #[trigger] v.enc())
                        by {
                        assert(v.enc() == (v.version, (v.id, (v.farm_id, (v.twin_id, (v.resources, (v.location, (v.country, (v.city, (v.public_config, (v.created, (v.farming_policy_id, (v.interfaces, (v.certification_type, (v.secure_boot, (v.virtualized, v.serial_number))))))))))))))).enc());
                    }
                }
                None
            },
        }
    }
}

impl Layout for legacy::Contract {
    open spec fn enc(&self) -> Seq<u8> {
        (self.version, (self.state, (self.contract_id, (self.twin_id, self.contract_type)))).enc()
    }

    proof fn prefix_free(s: Seq<u8>, a: legacy::Contract, b: legacy::Contract) {
        <(u32, (legacy::ContractState, (u64, (u32, wire::ContractData)))) as Layout>::prefix_free(s, (a.version, (a.state, (a.contract_id, (a.twin_id, a.contract_type)))), (b.version, (b.state, (b.contract_id, (b.twin_id, b.contract_type)))));
    }

    fn take(b: &[u8], pos: usize) -> (r: Option<(legacy::Contract, usize)>) {
        match <(u32, (legacy::ContractState, (u64, (u32, wire::ContractData)))) as Layout>::take(b, pos) {
            Some(((version, (state, (contract_id, (twin_id, contract_type)))), p)) => Some((legacy::Contract { version, state, contract_id, twin_id, contract_type }, p)),
            None => {
                proof {
                    assert forall|v: legacy::Contract| !starts_with(rest_of(b@, pos as int), #[trigger] v.enc())
                        by {
                        assert(v.enc() == (v.version, (v.state, (v.contract_id, (v.twin_id, v.contract_type)))).enc());
                    }
                }
                None
            },
        }
    }
}

pub open spec fn wire_unit_index(v: wire::Unit) -> u8 {
    match v {
        wire::Unit::Bytes => 0u8,
        wire::Unit::Kilobytes => 1u8,
        wire::Unit::Megabytes => 2u8,
        wire::Unit::Gigabytes => 3u8,
        wire::Unit::Terrabytes => 4u8,
    }
}

/// One byte: the variant's index.
impl Layout for wire::Unit {
    open spec fn enc(&self) -> Seq<u8> {
        wire_unit_index(*self).enc()
    }

    proof fn prefix_free(s: Seq<u8>, a: wire::Unit, b: wire::Unit) {
        u8::prefix_free(s, wire_unit_index(a), wire_unit_index(b));
    }

    fn take(b: &[u8], pos: usize) -> (r: Option<(wire::Unit, usize)>) {
        let found = u8::take(b, pos);
        match found {
            Some((0u8, p)) => Some((wire::Unit::Bytes, p)),
            Some((1u8, p)) => Some((wire::Unit::Kilobytes, p)),
            Some((2u8, p)) => Some((wire::Unit::Megabytes, p)),
            Some((3u8, p)) => Some((wire::Unit::Gigabytes, p)),
            Some((4u8, p)) => Some((wire::Unit::Terrabytes, p)),
            _ => {
                proof {
                    assert forall|v: wire::Unit| !starts_with(rest_of(b@, pos as int), #[trigger] v.enc())
                        by {
                        if starts_with(rest_of(b@, pos as int), v.enc()) {
                            first_byte(b@, pos as int, v.enc());
                            if let Some((x, p)) = found {
                                let got = b@.subrange(pos as int, p as int);
                                assert(got == x.enc());
                                assert(got.len() == 1 && got[0] == x);
                                assert(got[0] == b@[pos as int]);
                            }
                        }
                    }
                }
                None
            },
        }
    }
}

pub open spec fn wire_discountlevel_index(v: wire::DiscountLevel) -> u8 {
    match v {
        wire::DiscountLevel::NoDiscount => 0u8,
        wire::DiscountLevel::Default => 1u8,
        wire::DiscountLevel::Bronze => 2u8,
        wire::DiscountLevel::Silver => 3u8,
        wire::DiscountLevel::Gold => 4u8,
    }
}

/// One byte: the variant's index.
impl Layout for wire::DiscountLevel {
    open spec fn enc(&self) -> Seq<u8> {
        wire_discountlevel_index(*self).enc()
    }

    proof fn prefix_free(s: Seq<u8>, a: wire::DiscountLevel, b: wire::DiscountLevel) {
        u8::prefix_free(s, wire_discountlevel_index(a), wire_discountlevel_index(b));
    }

    fn take(b: &[u8], pos: usize) -> (r: Option<(wire::DiscountLevel, usize)>) {
        let found = u8::take(b, pos);
        match found {
            Some((0u8, p)) => Some((wire::DiscountLevel::NoDiscount, p)),
            Some((1u8, p)) => Some((wire::DiscountLevel::Default, p)),
            Some((2u8, p)) => Some((wire::DiscountLevel::Bronze, p)),
            Some((3u8, p)) => Some((wire::DiscountLevel::Silver, p)),
            Some((4u8, p)) => Some((wire::DiscountLevel::Gold, p)),
            _ => {
                proof {
                    assert forall|v: wire::DiscountLevel| !starts_with(rest_of(b@, pos as int), #[trigger] v.enc())
                        by {
                        if starts_with(rest_of(b@, pos as int), v.enc()) {
                            first_byte(b@, pos as int, v.enc());
                            if let Some((x, p)) = found {
                                let got = b@.subrange(pos as int, p as int);
                                assert(got == x.enc());
                                assert(got.len() == 1 && got[0] == x);
                                assert(got[0] == b@[pos as int]);
                            }
                        }
                    }
                }
                None
            },
        }
    }
}

impl Layout for wire::Policy {
    open spec fn enc(&self) -> Seq<u8> {
        (self.value, self.unit).enc()
    }

    proof fn prefix_free(s: Seq<u8>, a: wire::Policy, b: wire::Policy) {
        <(u32, wire::Unit) as Layout>::prefix_free(s, (a.value, a.unit), (b.value, b.unit));
    }

    fn take(b: &[u8], pos: usize) -> (r: Option<(wire::Policy, usize)>) {
        match <(u32, wire::Unit) as Layout>::take(b, pos) {
            Some(((value, unit), p)) => Some((wire::Policy { value, unit }, p)),
            None => {
                proof {
                    assert forall|v: wire::Policy| !starts_with(rest_of(b@, pos as int), #[trigger] v.enc())
                        by {
                        assert(v.enc() == (v.value, v.unit).enc());
                    }
                }
                None
            },
        }
    }
}

impl Layout for wire::PricingPolicy {
    open spec fn enc(&self) -> Seq<u8> {
        (self.version, (self.id, (self.name, (self.su, (self.cu, (self.nu, (self.ipu, (self.unique_name, (self.domain_name, (self.foundation_account, (self.certified_sales_account, self.discount_for_dedication_nodes))))))))))).enc()
    }

    proof fn prefix_free(s: Seq<u8>, a: wire::PricingPolicy, b: wire::PricingPolicy) {
        <(u32, (u32, (Vec<u8>, (wire::Policy, (wire::Policy, (wire::Policy, (wire::Policy, (wire::Policy, (wire::Policy, (AccountId32, (AccountId32, u8))))))))))) as Layout>::prefix_free(s, (a.version, (a.id, (a.name, (a.su, (a.cu, (a.nu, (a.ipu, (a.unique_name, (a.domain_name, (a.foundation_account, (a.certified_sales_account, a.discount_for_dedication_nodes))))))))))), (b.version, (b.id, (b.name, (b.su, (b.cu, (b.nu, (b.ipu, (b.unique_name, (b.domain_name, (b.foundation_account, (b.certified_sales_account, b.discount_for_dedication_nodes))))))))))));
    }

    fn take(b: &[u8], pos: usize) -> (r: Option<(wire::PricingPolicy, usize)>) {
        match <(u32, (u32, (Vec<u8>, (wire::Policy, (wire::Policy, (wire::Policy, (wire::Policy, (wire::Policy, (wire::Policy, (AccountId32, (AccountId32, u8))))))))))) as Layout>::take(b, pos) {
            Some(((version, (id, (name, (su, (cu, (nu, (ipu, (unique_name, (domain_name, (foundation_account, (certified_sales_account, discount_for_dedication_nodes))))))))))), p)) => Some((wire::PricingPolicy { version, id, name, su, cu, nu, ipu, unique_name, domain_name, foundation_account, certified_sales_account, discount_for_dedication_nodes }, p)),
            None => {
                proof {
                    assert forall|v: wire::PricingPolicy| !starts_with(rest_of(b@, pos as int), #[trigger] v.enc())
                        by {
                        assert(v.enc() == (v.version, (v.id, (v.name, (v.su, (v.cu, (v.nu, (v.ipu, (v.unique_name, (v.domain_name, (v.foundation_account, (v.certified_sales_account, v.discount_for_dedication_nodes))))))))))).enc());
                    }
                }
                None
            },
        }
    }
}

impl Layout for wire::Entity {
    open spec fn enc(&self) -> Seq<u8> {
        (self.version, (self.id, (self.name, (self.account_id, (self.country, self.city))))).enc()
    }

    proof fn prefix_free(s: Seq<u8>, a: wire::Entity, b: wire::Entity) {
        <(u32, (u32, (Vec<u8>, (AccountId32, (Vec<u8>, Vec<u8>))))) as Layout>::prefix_free(s, (a.version, (a.id, (a.name, (a.account_id, (a.country, a.city))))), (b.version, (b.id, (b.name, (b.account_id, (b.country, b.city))))));
    }

    fn take(b: &[u8], pos: usize) -> (r: Option<(wire::Entity, usize)>) {
        match <(u32, (u32, (Vec<u8>, (AccountId32, (Vec<u8>, Vec<u8>))))) as Layout>::take(b, pos) {
            Some(((version, (id, (name, (account_id, (country, city))))), p)) => Some((wire::Entity { version, id, name, account_id, country, city }, p)),
            None => {
                proof {
                    assert forall|v: wire::Entity| !starts_with(rest_of(b@, pos as int), #[trigger] v.enc())
                        by {
                        assert(v.enc() == (v.version, (v.id, (v.name, (v.account_id, (v.country, v.city))))).enc());
                    }
                }
                None
            },
        }
    }
}

impl Layout for wire::Consumption {
    open spec fn enc(&self) -> Seq<u8> {
        (self.contract_id, (self.timestamp, (self.cru, (self.sru, (self.hru, (self.mru, self.nru)))))).enc()
    }

    proof fn prefix_free(s: Seq<u8>, a: wire::Consumption, b: wire::Consumption) {
        <(u64, (u64, (u64, (u64, (u64, (u64, u64)))))) as Layout>::prefix_free(s, (a.contract_id, (a.timestamp, (a.cru, (a.sru, (a.hru, (a.mru, a.nru)))))), (b.contract_id, (b.timestamp, (b.cru, (b.sru, (b.hru, (b.mru, b.nru)))))));
    }

    fn take(b: &[u8], pos: usize) -> (r: Option<(wire::Consumption, usize)>) {
        match <(u64, (u64, (u64, (u64, (u64, (u64, u64)))))) as Layout>::take(b, pos) {
            Some(((contract_id, (timestamp, (cru, (sru, (hru, (mru, nru)))))), p)) => Some((wire::Consumption { contract_id, timestamp, cru, sru, hru, mru, nru }, p)),
            None => {
                proof {
                    assert forall|v: wire::Consumption| !starts_with(rest_of(b@, pos as int), #[trigger] v.enc())
                        by {
                        assert(v.enc() == (v.contract_id, (v.timestamp, (v.cru, (v.sru, (v.hru, (v.mru, v.nru)))))).enc());
                    }
                }
                None
            },
        }
    }
}

impl Layout for wire::ContractBill {
    open spec fn enc(&self) -> Seq<u8> {
        (self.contract_id, (self.timestamp, (self.discount_level, self.amount_billed))).enc()
    }

    proof fn prefix_free(s: Seq<u8>, a: wire::ContractBill, b: wire::ContractBill) {
        <(u64, (u64, (wire::DiscountLevel, u128))) as Layout>::prefix_free(s, (a.contract_id, (a.timestamp, (a.discount_level, a.amount_billed))), (b.contract_id, (b.timestamp, (b.discount_level, b.amount_billed))));
    }

    fn take(b: &[u8], pos: usize) -> (r: Option<(wire::ContractBill, usize)>) {
        match <(u64, (u64, (wire::DiscountLevel, u128))) as Layout>::take(b, pos) {
            Some(((contract_id, (timestamp, (discount_level, amount_billed))), p)) => Some((wire::ContractBill { contract_id, timestamp, discount_level, amount_billed }, p)),
            None => {
                proof {
                    assert forall|v: wire::ContractBill| !starts_with(rest_of(b@, pos as int), #[trigger] v.enc())
                        by {
                        assert(v.enc() == (v.contract_id, (v.timestamp, (v.discount_level, v.amount_billed))).enc());
                    }
                }
                None
            },
        }
    }
}

pub open spec fn legacy_unit_index(v: legacy::Unit) -> u8 {
    match v {
        legacy::Unit::Bytes => 0u8,
        legacy::Unit::Kilobytes => 1u8,
        legacy::Unit::Megabytes => 2u8,
        legacy::Unit::Gigabytes => 3u8,
        legacy::Unit::Terrabytes => 4u8,
    }
}

/// One byte: the variant's index.
impl Layout for legacy::Unit {
    open spec fn enc(&self) -> Seq<u8> {
        legacy_unit_index(*self).enc()
    }

    proof fn prefix_free(s: Seq<u8>, a: legacy::Unit, b: legacy::Unit) {
        u8::prefix_free(s, legacy_unit_index(a), legacy_unit_index(b));
    }

    fn take(b: &[u8], pos: usize) -> (r: Option<(legacy::Unit, usize)>) {
        let found = u8::take(b, pos);
        match found {
            Some((0u8, p)) => Some((legacy::Unit::Bytes, p)),
            Some((1u8, p)) => Some((legacy::Unit::Kilobytes, p)),
            Some((2u8, p)) => Some((legacy::Unit::Megabytes, p)),
            Some((3u8, p)) => Some((legacy::Unit::Gigabytes, p)),
            Some((4u8, p)) => Some((legacy::Unit::Terrabytes, p)),
            _ => {
                proof {
                    assert forall|v: legacy::Unit| !starts_with(rest_of(b@, pos as int), #[trigger] v.enc())
                        by {
                        if starts_with(rest_of(b@, pos as int), v.enc()) {
                            first_byte(b@, pos as int, v.enc());
                            if let Some((x, p)) = found {
                                let got = b@.subrange(pos as int, p as int);
                                assert(got == x.enc());
                                assert(got.len() == 1 && got[0] == x);
                                assert(got[0] == b@[pos as int]);
                            }
                        }
                    }
                }
                None
            },
        }
    }
}

pub open spec fn legacy_discountlevel_index(v: legacy::DiscountLevel) -> u8 {
    match v {
        legacy::DiscountLevel::NoDiscount => 0u8,
        legacy::DiscountLevel::Default => 1u8,
        legacy::DiscountLevel::Bronze => 2u8,
        legacy::DiscountLevel::Silver => 3u8,
        legacy::DiscountLevel::Gold => 4u8,
    }
}

/// One byte: the variant's index.
impl Layout for legacy::DiscountLevel {
    open spec fn enc(&self) -> Seq<u8> {
        legacy_discountlevel_index(*self).enc()
    }

    proof fn prefix_free(s: Seq<u8>, a: legacy::DiscountLevel, b: legacy::DiscountLevel) {
        u8::prefix_free(s, legacy_discountlevel_index(a), legacy_discountlevel_index(b));
    }

    fn take(b: &[u8], pos: usize) -> (r: Option<(legacy::DiscountLevel, usize)>) {
        let found = u8::take(b, pos);
        match found {
            Some((0u8, p)) => Some((legacy::DiscountLevel::NoDiscount, p)),
            Some((1u8, p)) => Some((legacy::DiscountLevel::Default, p)),
            Some((2u8, p)) => Some((legacy::DiscountLevel::Bronze, p)),
            Some((3u8, p)) => Some((legacy::DiscountLevel::Silver, p)),
            Some((4u8, p)) => Some((legacy::DiscountLevel::Gold, p)),
            _ => {
                proof {
                    assert forall|v: legacy::DiscountLevel| !starts_with(rest_of(b@, pos as int), #[trigger] v.enc())
                        by {
                        if starts_with(rest_of(b@, pos as int), v.enc()) {
                            first_byte(b@, pos as int, v.enc());
                            if let Some((x, p)) = found {
                                let got = b@.subrange(pos as int, p as int);
                                assert(got == x.enc());
                                assert(got.len() == 1 && got[0] == x);
                                assert(got[0] == b@[pos as int]);
                            }
                        }
                    }
                }
                None
            },
        }
    }
}

impl Layout for legacy::Policy {
    open spec fn enc(&self) -> Seq<u8> {
        (self.value, self.unit).enc()
    }

    proof fn prefix_free(s: Seq<u8>, a: legacy::Policy, b: legacy::Policy) {
        <(u32, legacy::Unit) as Layout>::prefix_free(s, (a.value, a.unit), (b.value, b.unit));
    }

    fn take(b: &[u8], pos: usize) -> (r: Option<(legacy::Policy, usize)>) {
        match <(u32, legacy::Unit) as Layout>::take(b, pos) {
            Some(((value, unit), p)) => Some((legacy::Policy { value, unit }, p)),
            None => {
                proof {
                    assert forall|v: legacy::Policy| !starts_with(rest_of(b@, pos as int), #[trigger] v.enc())
                        by {
                        assert(v.enc() == (v.value, v.unit).enc());
                    }
                }
                None
            },
        }
    }
}

impl Layout for legacy::PricingPolicy {
    open spec fn enc(&self) -> Seq<u8> {
        (self.version, (self.id, (self.name, (self.su, (self.cu, (self.nu, (self.ipu, (self.unique_name, (self.domain_name, (self.foundation_account, (self.certified_sales_account, self.discount_for_dedication_nodes))))))))))).enc()
    }

    proof fn prefix_free(s: Seq<u8>, a: legacy::PricingPolicy, b: legacy::PricingPolicy) {
        <(u32, (u32, (Vec<u8>, (legacy::Policy, (legacy::Policy, (legacy::Policy, (legacy::Policy, (legacy::Policy, (legacy::Policy, (AccountId32, (AccountId32, u8))))))))))) as Layout>::prefix_free(s, (a.version, (a.id, (a.name, (a.su, (a.cu, (a.nu, (a.ipu, (a.unique_name, (a.domain_name, (a.foundation_account, (a.certified_sales_account, a.discount_for_dedication_nodes))))))))))), (b.version, (b.id, (b.name, (b.su, (b.cu, (b.nu, (b.ipu, (b.unique_name, (b.domain_name, (b.foundation_account, (b.certified_sales_account, b.discount_for_dedication_nodes))))))))))));
    }

    fn take(b: &[u8], pos: usize) -> (r: Option<(legacy::PricingPolicy, usize)>) {
        match <(u32, (u32, (Vec<u8>, (legacy::Policy, (legacy::Policy, (legacy::Policy, (legacy::Policy, (legacy::Policy, (legacy::Policy, (AccountId32, (AccountId32, u8))))))))))) as Layout>::take(b, pos) {
            Some(((version, (id, (name, (su, (cu, (nu, (ipu, (unique_name, (domain_name, (foundation_account, (certified_sales_account, discount_for_dedication_nodes))))))))))), p)) => Some((legacy::PricingPolicy { version, id, name, su, cu, nu, ipu, unique_name, domain_name, foundation_account, certified_sales_account, discount_for_dedication_nodes }, p)),
            None => {
                proof {
                    assert forall|v: legacy::PricingPolicy| !starts_with(rest_of(b@, pos as int), #[trigger] v.enc())
                        by {
                        assert(v.enc() == (v.version, (v.id, (v.name, (v.su, (v.cu, (v.nu, (v.ipu, (v.unique_name, (v.domain_name, (v.foundation_account, (v.certified_sales_account, v.discount_for_dedication_nodes))))))))))).enc());
                    }
                }
                None
            },
        }
    }
}

impl Layout for legacy::Entity {
    open spec fn enc(&self) -> Seq<u8> {
        (self.version, (self.id, (self.name, (self.account_id, (self.country, self.city))))).enc()
    }

    proof fn prefix_free(s: Seq<u8>, a: legacy::Entity, b: legacy::Entity) {
        <(u32, (u32, (Vec<u8>, (AccountId32, (Vec<u8>, Vec<u8>))))) as Layout>::prefix_free(s, (a.version, (a.id, (a.name, (a.account_id, (a.country, a.city))))), (b.version, (b.id, (b.name, (b.account_id, (b.country, b.city))))));
    }

    fn take(b: &[u8], pos: usize) -> (r: Option<(legacy::Entity, usize)>) {
        match <(u32, (u32, (Vec<u8>, (AccountId32, (Vec<u8>, Vec<u8>))))) as Layout>::take(b, pos) {
            Some(((version, (id, (name, (account_id, (country, city))))), p)) => Some((legacy::Entity { version, id, name, account_id, country, city }, p)),
            None => {
                proof {
                    assert forall|v: legacy::Entity| !starts_with(rest_of(b@, pos as int), #[trigger] v.enc())
                        by {
                        assert(v.enc() == (v.version, (v.id, (v.name, (v.account_id, (v.country, v.city))))).enc());
                    }
                }
                None
            },
        }
    }
}

impl Layout for legacy::Consumption {
    open spec fn enc(&self) -> Seq<u8> {
        (self.contract_id, (self.timestamp, (self.cru, (self.sru, (self.hru, (self.mru, self.nru)))))).enc()
    }

    proof fn prefix_free(s: Seq<u8>, a: legacy::Consumption, b: legacy::Consumption) {
        <(u64, (u64, (u64, (u64, (u64, (u64, u64)))))) as Layout>::prefix_free(s, (a.contract_id, (a.timestamp, (a.cru, (a.sru, (a.hru, (a.mru, a.nru)))))), (b.contract_id, (b.timestamp, (b.cru, (b.sru, (b.hru, (b.mru, b.nru)))))));
    }

    fn take(b: &[u8], pos: usize) -> (r: Option<(legacy::Consumption, usize)>) {
        match <(u64, (u64, (u64, (u64, (u64, (u64, u64)))))) as Layout>::take(b, pos) {
            Some(((contract_id, (timestamp, (cru, (sru, (hru, (mru, nru)))))), p)) => Some((legacy::Consumption { contract_id, timestamp, cru, sru, hru, mru, nru }, p)),
            None => {
                proof {
                    assert forall|v: legacy::Consumption| !starts_with(rest_of(b@, pos as int), #[trigger] v.enc())
                        by {
                        assert(v.enc() == (v.contract_id, (v.timestamp, (v.cru, (v.sru, (v.hru, (v.mru, v.nru)))))).enc());
                    }
                }
                None
            },
        }
    }
}

impl Layout for legacy::ContractBill {
    open spec fn enc(&self) -> Seq<u8> {
        (self.contract_id, (self.timestamp, (self.discount_level, self.amount_billed))).enc()
    }

    proof fn prefix_free(s: Seq<u8>, a: legacy::ContractBill, b: legacy::ContractBill) {
        <(u64, (u64, (legacy::DiscountLevel, u128))) as Layout>::prefix_free(s, (a.contract_id, (a.timestamp, (a.discount_level, a.amount_billed))), (b.contract_id, (b.timestamp, (b.discount_level, b.amount_billed))));
    }

    fn take(b: &[u8], pos: usize) -> (r: Option<(legacy::ContractBill, usize)>) {
        match <(u64, (u64, (legacy::DiscountLevel, u128))) as Layout>::take(b, pos) {
            Some(((contract_id, (timestamp, (discount_level, amount_billed))), p)) => Some((legacy::ContractBill { contract_id, timestamp, discount_level, amount_billed }, p)),
            None => {
                proof {
                    assert forall|v: legacy::ContractBill| !starts_with(rest_of(b@, pos as int), #[trigger] v.enc())
                        by {
                        assert(v.enc() == (v.contract_id, (v.timestamp, (v.discount_level, v.amount_billed))).enc());
                    }
                }
                None
            },
        }
    }
}

pub open spec fn legacy_certificationcodetype_index(v: legacy::CertificationCodeType) -> u8 {
    match v {
        legacy::CertificationCodeType::Farm => 0u8,
        legacy::CertificationCodeType::Entity => 1u8,
    }
}

/// One byte: the variant's index.
impl Layout for legacy::CertificationCodeType {
    open spec fn enc(&self) -> Seq<u8> {
        legacy_certificationcodetype_index(*self).enc()
    }

    proof fn prefix_free(s: Seq<u8>, a: legacy::CertificationCodeType, b: legacy::CertificationCodeType) {
        u8::prefix_free(s, legacy_certificationcodetype_index(a), legacy_certificationcodetype_index(b));
    }

    fn take(b: &[u8], pos: usize) -> (r: Option<(legacy::CertificationCodeType, usize)>) {
        let found = u8::take(b, pos);
        match found {
            Some((0u8, p)) => Some((legacy::CertificationCodeType::Farm, p)),
            Some((1u8, p)) => Some((legacy::CertificationCodeType::Entity, p)),
            _ => {
                proof {
                    assert forall|v: legacy::CertificationCodeType| !starts_with(rest_of(b@, pos as int), #[trigger] v.enc())
                        by {
                        if starts_with(rest_of(b@, pos as int), v.enc()) {
                            first_byte(b@, pos as int, v.enc());
                            if let Some((x, p)) = found {
                                let got = b@.subrange(pos as int, p as int);
                                assert(got == x.enc());
                                assert(got.len() == 1 && got[0] == x);
                                assert(got[0] == b@[pos as int]);
                            }
                        }
                    }
                }
                None
            },
        }
    }
}

impl Layout for legacy::CertificationCodes {
    open spec fn enc(&self) -> Seq<u8> {
        (self.version, (self.id, (self.name, (self.description, self.certification_code_type)))).enc()
    }

    proof fn prefix_free(s: Seq<u8>, a: legacy::CertificationCodes, b: legacy::CertificationCodes) {
        <(u32, (u32, (Vec<u8>, (Vec<u8>, legacy::CertificationCodeType)))) as Layout>::prefix_free(s, (a.version, (a.id, (a.name, (a.description, a.certification_code_type)))), (b.version, (b.id, (b.name, (b.description, b.certification_code_type)))));
    }

    fn take(b: &[u8], pos: usize) -> (r: Option<(legacy::CertificationCodes, usize)>) {
        match <(u32, (u32, (Vec<u8>, (Vec<u8>, legacy::CertificationCodeType)))) as Layout>::take(b, pos) {
            Some(((version, (id, (name, (description, certification_code_type)))), p)) => Some((legacy::CertificationCodes { version, id, name, description, certification_code_type }, p)),
            None => {
                proof {
                    assert forall|v: legacy::CertificationCodes| !starts_with(rest_of(b@, pos as int), #[trigger] v.enc())
                        by {
                        assert(v.enc() == (v.version, (v.id, (v.name, (v.description, v.certification_code_type)))).enc());
                    }
                }
                None
            },
        }
    }
}

} // verus!
