use tfchain_client::events::{
    decode_event_log, decode_events, EventCodes, EventShape, RawEvent, TfchainEvent,
};
use tfchain_client::shape::Part;
use tfchain_client::legacy;
use parity_scale_codec::Encode;
use tfchain_client::query::{decode_exact, DecodeError, QueryError, Schema, Versioned};
use tfchain_client::types::{
    AccountId32, Balance, Cause, CertificationCodeType, CertificationCodes, Consumption, Contract,
    ContractBill, ContractData, ContractState, DiscountLevel, Entity, EntityProof, Farm,
    FarmCertification, FarmingPolicy, FarmingPolicyLimit, Node, NodeCertification, Policy,
    PricingPolicy, RentContract, Resources, Twin, Unit,
};
use tfchain_client::wire;

fn public_ip(ip: &str, gw: &str, contract_id: u64) -> wire::PublicIP {
    wire::PublicIP { ip: ip.as_bytes().to_vec(), gateway: gw.as_bytes().to_vec(), contract_id }
}

fn current_farm() -> wire::Farm {
    wire::Farm {
        version: 3,
        id: 7,
        name: b"freefarm".to_vec(),
        twin_id: 12,
        pricing_policy_id: 1,
        public_ips: vec![public_ip("185.69.166.1/24", "185.69.166.254", 0)],
        dedicated_farm: true,
        certification: FarmCertification::Gold,
        farming_policy_limits: Some(FarmingPolicyLimit {
            farming_policy_id: 2,
            cu: Some(10),
            su: None,
            end: Some(1000),
            node_count: Some(4),
            node_certification: true,
        }),
    }
}

fn legacy_farm() -> legacy::Farm {
    legacy::Farm {
        version: 1,
        id: 7,
        name: b"freefarm".to_vec(),
        twin_id: 12,
        pricing_policy_id: 1,
        certification_type: legacy::CertificationType::Certified,
        public_ips: vec![public_ip("185.69.166.1/24", "185.69.166.254", 0)],
        dedicated_farm: true,
    }
}

fn location() -> wire::Location {
    wire::Location { longitude: b"4.35".to_vec(), latitude: b"50.85".to_vec() }
}

fn interfaces() -> Vec<wire::Interface> {
    vec![wire::Interface {
        name: b"zos".to_vec(),
        mac: b"00:11:22:33:44:55".to_vec(),
        ips: vec![b"10.0.0.2".to_vec(), b"fe80::1".to_vec()],
    }]
}

fn current_node() -> wire::Node {
    wire::Node {
        version: 4,
        id: 9,
        farm_id: 7,
        twin_id: 20,
        resources: Resources { hru: 4000, sru: 500, cru: 8, mru: 16 },
        location: location(),
        country: b"Belgium".to_vec(),
        city: b"Ghent".to_vec(),
        public_config: None,
        created: 1_650_000_000,
        farming_policy_id: 1,
        interfaces: interfaces(),
        certification: NodeCertification::Certified,
        secure_boot: true,
        virtualized: false,
        serial_number: b"SN-1".to_vec(),
        connection_price: 80,
    }
}

fn legacy_node() -> legacy::Node {
    legacy::Node {
        version: 2,
        id: 9,
        farm_id: 7,
        twin_id: 20,
        resources: Resources { hru: 4000, sru: 500, cru: 8, mru: 16 },
        location: location(),
        country: b"Belgium".to_vec(),
        city: b"Ghent".to_vec(),
        public_config: None,
        created: 1_650_000_000,
        farming_policy_id: 1,
        interfaces: interfaces(),
        certification_type: legacy::CertificationType::Certified,
        secure_boot: true,
        virtualized: false,
        serial_number: b"SN-1".to_vec(),
    }
}

#[test]
fn legacy_and_current_farm_agree_on_shared_fields() {
    let a = Farm::from_legacy(legacy_farm());
    let b = Farm::from_current(current_farm());
    assert_eq!(a.id, b.id);
    assert_eq!(a.name, b.name);
    assert_eq!(a.name, "freefarm");
    assert_eq!(a.twin_id, b.twin_id);
    assert_eq!(a.pricing_policy_id, b.pricing_policy_id);
    assert_eq!(a.certification, FarmCertification::Gold);
    assert_eq!(a.certification, b.certification);
    assert_eq!(a.public_ips, b.public_ips);
    assert_eq!(a.public_ips[0].gateway, "185.69.166.254");
    assert_eq!(a.dedicated_farm, b.dedicated_farm);
}

#[test]
fn legacy_and_current_node_agree_on_shared_fields() {
    let a = Node::from_legacy(legacy_node());
    let b = Node::from_current(current_node());
    assert_eq!(a.resources, b.resources);
    assert_eq!(a.location, b.location);
    assert_eq!(a.location.latitude, "50.85");
    assert_eq!(a.country, "Belgium");
    assert_eq!(a.city, b.city);
    assert_eq!(a.interfaces, b.interfaces);
    assert_eq!(a.interfaces[0].ips, vec!["10.0.0.2".to_string(), "fe80::1".to_string()]);
    assert_eq!(a.certification, NodeCertification::Certified);
    assert_eq!(a.certification, b.certification);
    assert_eq!(a.serial_number, b.serial_number);
    assert_eq!(b.connection_price, 80);
}

#[test]
fn legacy_node_connection_price_defaults_to_zero() {
    let a = Node::from_legacy(legacy_node());
    assert_eq!(a.connection_price, 0);
}

#[test]
fn legacy_farm_has_no_farming_policy_limits() {
    let a = Farm::from_legacy(legacy_farm());
    assert_eq!(a.farming_policy_limits, None);
    let b = Farm::from_current(current_farm());
    assert_eq!(b.farming_policy_limits.unwrap().cu, Some(10));
}

#[test]
fn legacy_farm_diy_maps_to_not_certified() {
    let mut l = legacy_farm();
    l.certification_type = legacy::CertificationType::Diy;
    assert_eq!(Farm::from_legacy(l).certification, FarmCertification::NotCertified);
}

#[test]
fn legacy_farming_policy_defaults() {
    let l = legacy::FarmingPolicy {
        version: 1,
        id: 1,
        name: b"default".to_vec(),
        cu: 2400,
        su: 1000,
        nu: 30,
        ipv4: 5,
        timestamp: 1_600_000_000,
        certification_type: legacy::CertificationType::Certified,
    };
    let p = FarmingPolicy::from_legacy(l);
    assert_eq!(p.name, "default");
    assert_eq!((p.cu, p.su, p.nu, p.ipv4), (2400, 1000, 30, 5));
    assert_eq!(p.minimal_uptime, 0);
    assert_eq!((p.policy_created, p.policy_end), (0, 0));
    assert!(!p.immutable && !p.default);
    assert_eq!(p.node_certification, NodeCertification::Diy);
    assert_eq!(p.farm_certification, FarmCertification::NotCertified);
}

#[test]
fn current_farming_policy_keeps_every_field() {
    let w = wire::FarmingPolicy {
        version: 2,
        id: 3,
        name: b"gold".to_vec(),
        cu: 1,
        su: 2,
        nu: 3,
        ipv4: 4,
        minimal_uptime: 995,
        policy_created: 10,
        policy_end: 20,
        immutable: true,
        default: false,
        node_certification: NodeCertification::Certified,
        farm_certification: FarmCertification::Gold,
    };
    let p = FarmingPolicy::from_current(w);
    assert_eq!(p.minimal_uptime, 995);
    assert_eq!((p.policy_created, p.policy_end), (10, 20));
    assert!(p.immutable);
    assert_eq!(p.farm_certification, FarmCertification::Gold);
}

#[test]
fn invalid_utf8_is_replaced_not_rejected() {
    let mut w = current_farm();
    w.name = vec![0x66, 0xff, 0x6f];
    let f = Farm::from_current(w);
    assert_eq!(f.name, "f\u{FFFD}o");
}

fn node_contract() -> wire::ContractData {
    wire::ContractData::NodeContract(wire::NodeContract {
        node_id: 9,
        deployment_data: b"data".to_vec(),
        deployment_hash: b"hash".to_vec(),
        public_ips: 1,
        public_ips_list: vec![public_ip("1.1.1.1/32", "1.1.1.254", 77)],
    })
}

#[test]
fn legacy_contract_states_never_grace_period() {
    let l = legacy::Contract {
        version: 1,
        state: legacy::ContractState::Deleted(Cause::OutOfFunds),
        contract_id: 5,
        twin_id: 3,
        contract_type: node_contract(),
    };
    let c = Contract::from_legacy(l);
    assert_eq!(c.state, ContractState::Deleted(Cause::OutOfFunds));
    let l2 = legacy::Contract {
        version: 1,
        state: legacy::ContractState::Created,
        contract_id: 6,
        twin_id: 3,
        contract_type: wire::ContractData::RentContract(RentContract { node_id: 9 }),
    };
    let c2 = Contract::from_legacy(l2);
    assert_eq!(c2.state, ContractState::Created);
    assert_eq!(c2.contract_type, ContractData::RentContract(RentContract { node_id: 9 }));
}

#[test]
fn current_contract_grace_period_and_body() {
    let w = wire::Contract {
        version: 3,
        state: wire::ContractState::GracePeriod(123_456),
        contract_id: 5,
        twin_id: 3,
        contract_type: node_contract(),
    };
    let c = Contract::from_current(w);
    assert_eq!(c.state, ContractState::GracePeriod(123_456));
    match c.contract_type {
        ContractData::NodeContract(n) => {
            assert_eq!(n.node_id, 9);
            assert_eq!(n.deployment_hash, b"hash".to_vec());
            assert_eq!(n.public_ips_list[0].ip, "1.1.1.1/32");
            assert_eq!(n.public_ips_list[0].contract_id, 77);
        }
        _ => panic!("contract body changed variant"),
    }
}

#[test]
fn grace_period_block_is_cut_to_32_bits() {
    let w = wire::Contract {
        version: 3,
        state: wire::ContractState::GracePeriod((1u64 << 32) + 5),
        contract_id: 1,
        twin_id: 1,
        contract_type: wire::ContractData::NameContract(wire::NameContract {
            name: b"gateway".to_vec(),
        }),
    };
    let c = Contract::from_current(w);
    assert_eq!(c.state, ContractState::GracePeriod(5));
    match c.contract_type {
        ContractData::NameContract(n) => assert_eq!(n.name, "gateway"),
        _ => panic!("contract body changed variant"),
    }
}

fn wire_twin() -> wire::Twin {
    wire::Twin {
        version: 1,
        id: 12,
        account_id: AccountId32 { bytes: [7u8; 32] },
        ip: b"::1".to_vec(),
        entities: vec![EntityProof { entity_id: 2, signature: vec![1, 2, 3] }],
    }
}

#[test]
fn twin_maps_text_and_keeps_proofs() {
    let t = Twin::from_wire(wire_twin());
    assert_eq!(t.id, 12);
    assert_eq!(t.ip, "::1");
    assert_eq!(t.account_id.bytes, [7u8; 32]);
    assert_eq!(t.entities, vec![EntityProof { entity_id: 2, signature: vec![1, 2, 3] }]);
}

#[test]
fn farm_zero_is_returned_for_an_unregistered_id() {
    let f = Farm::from_lookup(None).unwrap();
    assert_eq!(f.id, 0);
    assert_eq!(f.name, "");
    assert_eq!(f.public_ips.len(), 0);
    assert_eq!(f.certification, FarmCertification::NotCertified);
}

#[test]
fn entity_lookups_default_and_report_decode_errors() {
    let t = Twin::from_lookup(None).unwrap();
    assert_eq!((t.id, t.ip.as_str()), (0, ""));
    assert_eq!(Twin::from_lookup(Some(Err(DecodeError))), Err(QueryError::Decode));
    let n = Node::from_lookup(None).unwrap();
    assert_eq!((n.id, n.connection_price), (0, 0));
    let c = Contract::from_lookup(None).unwrap();
    assert_eq!(c.state, ContractState::Created);
    assert_eq!(Contract::from_lookup(Some(Err(DecodeError))), Err(QueryError::Decode));
    let f = Farm::from_lookup(Some(Ok(Versioned::Legacy(legacy_farm())))).unwrap();
    assert_eq!(f.name, "freefarm");
    let n2 = Node::from_lookup(Some(Ok(Versioned::Current(current_node())))).unwrap();
    assert_eq!(n2.connection_price, 80);
}

#[test]
fn block_events_keep_unrecognized_entries() {
    let raw = vec![
        RawEvent::TwinStored(wire_twin()),
        RawEvent::Unrecognized { pallet_index: 42, event_index: 3 },
    ];
    let events = decode_events(raw);
    assert_eq!(events.len(), 2);
    match &events[0] {
        TfchainEvent::TwinStored(t) => assert_eq!(t.ip, "::1"),
        other => panic!("unexpected event {:?}", other),
    }
    assert_eq!(events[1], TfchainEvent::Unrecognized { pallet_index: 42, event_index: 3 });
}

#[test]
fn bridge_transactions_wrap_amounts() {
    let m = tfchain_client::types::MintTransaction::from_wire(wire::MintTransaction {
        amount: 500,
        target: AccountId32 { bytes: [1u8; 32] },
        block: 10,
        votes: 3,
    });
    assert_eq!(m.amount.as_u64(), 500);
    assert_eq!(m.votes, 3);
    let b = tfchain_client::types::BurnTransaction::from_wire(wire::BurnTransaction {
        block: 11,
        amount: 70,
        target: b"GABC".to_vec(),
        signatures: vec![],
        sequence_number: 4,
    });
    assert_eq!(b.amount, Balance(70));
    assert_eq!(b.sequence_number, 4);
    let r = tfchain_client::types::RefundTransaction::from_wire(wire::RefundTransaction {
        block: 12,
        amount: 9,
        target: b"GXYZ".to_vec(),
        tx_hash: b"tx".to_vec(),
        signatures: vec![],
        sequence_number: 6,
    });
    assert_eq!(r.tx_hash, b"tx".to_vec());
    assert_eq!(Balance::from(9).as_u64(), 9);
}

fn farm_bytes(legacy_layout: bool) -> Vec<u8> {
    let ips = vec![(b"185.69.166.1/24".to_vec(), b"185.69.166.254".to_vec(), 0u64)];
    let head = (3u32, 7u32, b"freefarm".to_vec(), 12u32, 1u32);
    if legacy_layout {
        // certification type, public ips, dedicated
        let mut b = head.encode();
        b.extend((1u8, ips, true).encode());
        b
    } else {
        // certification, public ips, dedicated, farming policy limits
        let limit = (2u32, Some(10u64), None::<u64>, Some(1000u64), Some(4u32), true);
        let mut b = head.encode();
        b.extend((1u8, ips, true, Some(limit)).encode());
        b
    }
}

#[test]
fn stored_farm_decodes_in_both_layouts_to_the_same_fields() {
    let cur = Farm::from_storage(&Some(farm_bytes(false)), Schema::Current).unwrap();
    let old = Farm::from_storage(&Some(farm_bytes(true)), Schema::Legacy).unwrap();
    assert_eq!(cur.name, "freefarm");
    assert_eq!((cur.id, cur.twin_id, cur.pricing_policy_id), (7, 12, 1));
    assert_eq!(cur.certification, FarmCertification::Gold);
    assert_eq!(cur.public_ips[0].ip, "185.69.166.1/24");
    assert_eq!(cur.farming_policy_limits.unwrap().end, Some(1000));
    assert_eq!((old.version, old.id, &old.name), (cur.version, cur.id, &cur.name));
    assert_eq!(old.certification, cur.certification);
    assert_eq!(old.public_ips, cur.public_ips);
    assert_eq!(old.dedicated_farm, cur.dedicated_farm);
    assert_eq!(old.farming_policy_limits, None);
}

#[test]
fn stored_farm_in_the_wrong_layout_is_a_decode_error() {
    assert_eq!(Farm::from_storage(&Some(farm_bytes(true)), Schema::Current), Err(QueryError::Decode));
    assert_eq!(Farm::from_storage(&Some(farm_bytes(false)), Schema::Legacy), Err(QueryError::Decode));
}

#[test]
fn zero_length_values_read_as_zero_entities() {
    let f = Farm::from_storage(&Some(vec![]), Schema::Current).unwrap();
    assert_eq!((f.id, f.name.as_str()), (0, ""));
    let n = Node::from_storage(&None, Schema::Legacy).unwrap();
    assert_eq!(n.id, 0);
    let c = Contract::from_storage(&Some(vec![]), Schema::Current).unwrap();
    assert_eq!(c.state, ContractState::Created);
    let t = Twin::from_storage(&None).unwrap();
    assert_eq!(t.id, 0);
}

#[test]
fn stored_twin_decodes() {
    let bytes = (1u32, 12u32, [7u8; 32], b"::1".to_vec(), vec![(2u32, vec![1u8, 2, 3])]).encode();
    let t = Twin::from_storage(&Some(bytes.clone())).unwrap();
    assert_eq!(t.ip, "::1");
    assert_eq!(t.entities, vec![EntityProof { entity_id: 2, signature: vec![1, 2, 3] }]);
    assert_eq!(Twin::from_storage(&Some(bytes[..bytes.len() - 1].to_vec())), Err(QueryError::Decode));
}

fn node_bytes(legacy_layout: bool) -> Vec<u8> {
    let head = (4u32, 9u32, 7u32, 20u32, (4000u64, 500u64, 8u64, 16u64));
    let place = ((b"4.35".to_vec(), b"50.85".to_vec()), b"Belgium".to_vec(), b"Ghent".to_vec());
    let config = Some((
        b"185.1.1.2/24".to_vec(),
        b"2a02::2/64".to_vec(),
        b"185.1.1.1".to_vec(),
        b"2a02::1".to_vec(),
        b"node.example".to_vec(),
    ));
    let ifaces = vec![(b"zos".to_vec(), b"00:11".to_vec(), vec![b"10.0.0.2".to_vec()])];
    let mut b = head.encode();
    b.extend(place.encode());
    b.extend((config, 1_650_000_000u64, 1u32, ifaces, 1u8, true, false, b"SN-1".to_vec()).encode());
    if !legacy_layout {
        b.extend(80u32.encode());
    }
    b
}

#[test]
fn stored_node_decodes_in_both_layouts() {
    let cur = Node::from_storage(&Some(node_bytes(false)), Schema::Current).unwrap();
    let old = Node::from_storage(&Some(node_bytes(true)), Schema::Legacy).unwrap();
    assert_eq!(cur.connection_price, 80);
    assert_eq!(old.connection_price, 0);
    assert_eq!(cur.resources, Resources { hru: 4000, sru: 500, cru: 8, mru: 16 });
    assert_eq!(cur.public_config.as_ref().unwrap().domain, "node.example");
    assert_eq!(cur.interfaces[0].ips, vec!["10.0.0.2".to_string()]);
    assert_eq!(cur.certification, NodeCertification::Certified);
    assert_eq!(old.location, cur.location);
    assert_eq!(old.public_config, cur.public_config);
    assert_eq!(old.interfaces, cur.interfaces);
    assert_eq!(old.certification, cur.certification);
    assert_eq!(old.serial_number, "SN-1");
}

#[test]
fn stored_contract_decodes_in_both_layouts() {
    let body = (0u8, 9u32, b"data".to_vec(), b"hash".to_vec(), 1u32, Vec::<(Vec<u8>, Vec<u8>, u64)>::new());
    let mut cur = (3u32, 2u8, 77u64).encode();
    cur.extend((5u64, 3u32, body.clone()).encode());
    let c = Contract::from_storage(&Some(cur), Schema::Current).unwrap();
    assert_eq!(c.state, ContractState::GracePeriod(77));
    let mut old = (1u32, 1u8, 1u8).encode();
    old.extend((5u64, 3u32, body).encode());
    let l = Contract::from_storage(&Some(old), Schema::Legacy).unwrap();
    assert_eq!(l.state, ContractState::Deleted(Cause::OutOfFunds));
    assert_eq!(l.contract_id, c.contract_id);
    assert_eq!(l.contract_type, c.contract_type);
    let grace_in_legacy = {
        let mut b = (1u32, 2u8, 77u64).encode();
        b.extend((5u64, 3u32, (2u8, 9u32)).encode());
        b
    };
    assert_eq!(Contract::from_storage(&Some(grace_in_legacy), Schema::Legacy), Err(QueryError::Decode));
}

#[test]
fn any_schema_lookup_tries_current_then_legacy() {
    let cur = Farm::from_any_schema(&Some(farm_bytes(false))).unwrap();
    assert!(cur.farming_policy_limits.is_some());
    let old = Farm::from_any_schema(&Some(farm_bytes(true))).unwrap();
    assert_eq!(old.farming_policy_limits, None);
    assert_eq!(old.name, "freefarm");
    assert_eq!(Node::from_any_schema(&Some(node_bytes(true))).unwrap().connection_price, 0);
    assert_eq!(Node::from_any_schema(&Some(node_bytes(false))).unwrap().connection_price, 80);
    assert_eq!(Farm::from_any_schema(&Some(vec![1, 2, 3])), Err(QueryError::Decode));
    assert_eq!(Contract::from_any_schema(&None).unwrap().contract_id, 0);
}

fn policy(value: u32) -> (wire::Policy, legacy::Policy) {
    (
        wire::Policy { value, unit: wire::Unit::Megabytes },
        legacy::Policy { value, unit: legacy::Unit::Megabytes },
    )
}

#[test]
fn pricing_policy_maps_alike_from_both_schemas() {
    let (c, l) = policy(50);
    let acct = AccountId32 { bytes: [3u8; 32] };
    let cur = wire::PricingPolicy {
        version: 2,
        id: 1,
        name: b"default".to_vec(),
        su: c,
        cu: c,
        nu: c,
        ipu: c,
        unique_name: c,
        domain_name: c,
        foundation_account: acct,
        certified_sales_account: acct,
        discount_for_dedication_nodes: 50,
    };
    let old = legacy::PricingPolicy {
        version: 2,
        id: 1,
        name: b"default".to_vec(),
        su: l,
        cu: l,
        nu: l,
        ipu: l,
        unique_name: l,
        domain_name: l,
        foundation_account: acct,
        certified_sales_account: acct,
        discount_for_dedication_nodes: 50,
    };
    let a = PricingPolicy::from_current(cur);
    let b = PricingPolicy::from_legacy(old);
    assert_eq!(a, b);
    assert_eq!(a.su, Policy { value: 50, unit: Unit::Megabytes });
    assert_eq!(a.name, b"default".to_vec());
}

#[test]
fn entity_consumption_and_bill_map_alike_from_both_schemas() {
    let acct = AccountId32 { bytes: [9u8; 32] };
    let a = Entity::from_current(wire::Entity {
        version: 1,
        id: 4,
        name: b"acme".to_vec(),
        account_id: acct,
        country: b"BE".to_vec(),
        city: b"Ghent".to_vec(),
    });
    let b = Entity::from_legacy(legacy::Entity {
        version: 1,
        id: 4,
        name: b"acme".to_vec(),
        account_id: acct,
        country: b"BE".to_vec(),
        city: b"Ghent".to_vec(),
    });
    assert_eq!(a, b);
    let c = Consumption::from_current(wire::Consumption { contract_id: 1, timestamp: 2, cru: 3, sru: 4, hru: 5, mru: 6, nru: 7 });
    let d = Consumption::from_legacy(legacy::Consumption { contract_id: 1, timestamp: 2, cru: 3, sru: 4, hru: 5, mru: 6, nru: 7 });
    assert_eq!(c, d);
    assert_eq!(c.nru, 7);
    let e = ContractBill::from_current(wire::ContractBill {
        contract_id: 1,
        timestamp: 2,
        discount_level: wire::DiscountLevel::Silver,
        amount_billed: 1000,
    });
    let f = ContractBill::from_legacy(legacy::ContractBill {
        contract_id: 1,
        timestamp: 2,
        discount_level: legacy::DiscountLevel::Silver,
        amount_billed: 1000,
    });
    assert_eq!(e, f);
    assert_eq!(e.discount_level, DiscountLevel::Silver);
    assert_eq!(DiscountLevel::from_legacy(legacy::DiscountLevel::NoDiscount), DiscountLevel::NoDiscount);
    assert_eq!(Unit::from_legacy(legacy::Unit::Terrabytes), Unit::Terrabytes);
}

#[test]
fn legacy_certification_codes_map() {
    let c = CertificationCodes::from_legacy(legacy::CertificationCodes {
        version: 1,
        id: 2,
        name: b"gold".to_vec(),
        description: b"audited".to_vec(),
        certification_code_type: legacy::CertificationCodeType::Entity,
    });
    assert_eq!(c.certification_code_type, CertificationCodeType::Entity);
    assert_eq!(c.description, b"audited".to_vec());
}

#[test]
fn stored_pricing_policy_and_bill_decode() {
    let pol = (7u32, 2u8);
    let mut bytes = (2u32, 1u32, b"default".to_vec(), pol, pol, pol, pol, pol, pol).encode();
    bytes.extend(([3u8; 32], [4u8; 32], 50u8).encode());
    let w = decode_exact::<wire::PricingPolicy>(&bytes).unwrap();
    let p = PricingPolicy::from_current(w);
    assert_eq!(p.domain_name, Policy { value: 7, unit: Unit::Megabytes });
    assert_eq!(p.certified_sales_account.bytes, [4u8; 32]);
    let bill = (1u64, 2u64, 3u8, 1000u128).encode();
    let b = ContractBill::from_legacy(decode_exact::<legacy::ContractBill>(&bill).unwrap());
    assert_eq!(b.discount_level, DiscountLevel::Silver);
    assert!(decode_exact::<legacy::ContractBill>(&(1u64, 2u64, 5u8, 1000u128).encode()).is_err());
}

fn codes() -> EventCodes {
    EventCodes {
        twin_stored: (11, 0),
        twin_updated: (11, 1),
        farm_stored: (11, 2),
        farm_updated: (11, 3),
        node_stored: (11, 4),
        node_updated: (11, 5),
        contract_created: (12, 0),
        contract_updated: (12, 1),
    }
}

/// System.ExtrinsicSuccess: weight (u64), class (1 byte), pays fee (1 byte);
/// Balances.Transfer: two accounts and an amount.
fn shapes() -> Vec<EventShape> {
    vec![
        EventShape { pallet_index: 0, event_index: 0, parts: vec![Part::Fixed(10)] },
        EventShape {
            pallet_index: 5,
            event_index: 2,
            parts: vec![Part::Fixed(32), Part::Fixed(32), Part::Fixed(16)],
        },
        EventShape {
            pallet_index: 40,
            event_index: 7,
            parts: vec![Part::Bytes, Part::Compact, Part::Items(4), Part::Maybe(8)],
        },
    ]
}

fn twin_record() -> Vec<u8> {
    // phase ApplyExtrinsic(1), code, twin, no topics
    let mut b = (0u8, 1u32, 11u8, 0u8).encode();
    b.extend((1u32, 12u32, [7u8; 32], b"::1".to_vec(), Vec::<(u32, Vec<u8>)>::new()).encode());
    b.extend(Vec::<[u8; 32]>::new().encode());
    b
}

fn success_record() -> Vec<u8> {
    // phase ApplyExtrinsic(0), System.ExtrinsicSuccess, one topic
    let mut b = (0u8, 0u32, 0u8, 0u8).encode();
    b.extend((125_000_000u64, 0u8, 1u8).encode());
    b.extend(vec![[9u8; 32]].encode());
    b
}

fn described_record() -> Vec<u8> {
    // phase Finalization, code (40, 7), payload of every part kind, no topics
    let mut b = vec![1u8, 40, 7];
    b.extend((b"memo".to_vec(), parity_scale_codec::Compact(300u32), vec![1u32, 2, 3], Some(5u64)).encode());
    b.extend(Vec::<[u8; 32]>::new().encode());
    b
}

#[test]
fn event_log_tags_an_unrecognized_record() {
    let mut log = vec![2u8 << 2];
    log.extend(twin_record());
    log.extend(success_record());
    let events = decode_event_log(&log, &codes(), &shapes()).unwrap();
    assert_eq!(events.len(), 2);
    assert_eq!(events[1], RawEvent::Unrecognized { pallet_index: 0, event_index: 0 });
    let mapped = decode_events(events);
    assert_eq!(mapped.len(), 2);
    match &mapped[0] {
        TfchainEvent::TwinStored(t) => assert_eq!(t.ip, "::1"),
        other => panic!("unexpected event {:?}", other),
    }
    assert_eq!(mapped[1], TfchainEvent::Unrecognized { pallet_index: 0, event_index: 0 });
}

#[test]
fn event_log_reads_past_unrecognized_records() {
    let mut log = vec![4u8 << 2];
    log.extend(success_record());
    log.extend(described_record());
    log.extend(success_record());
    log.extend(twin_record());
    let events = decode_event_log(&log, &codes(), &shapes()).unwrap();
    assert_eq!(events.len(), 4);
    assert_eq!(events[0], RawEvent::Unrecognized { pallet_index: 0, event_index: 0 });
    assert_eq!(events[1], RawEvent::Unrecognized { pallet_index: 40, event_index: 7 });
    assert_eq!(events[2], RawEvent::Unrecognized { pallet_index: 0, event_index: 0 });
    assert!(matches!(events[3], RawEvent::TwinStored(_)));
}

#[test]
fn event_log_with_an_undescribed_record_is_an_error() {
    let mut log = vec![2u8 << 2];
    log.extend(twin_record());
    log.extend([1u8, 99, 3, 0xde, 0xad]);
    assert!(decode_event_log(&log, &codes(), &shapes()).is_err());
}

#[test]
fn event_log_of_records_must_fill_the_bytes() {
    let mut log = vec![1u8 << 2];
    log.extend(twin_record());
    assert_eq!(decode_event_log(&log, &codes(), &shapes()).unwrap().len(), 1);
    let mut longer = log.clone();
    longer.push(0);
    assert!(decode_event_log(&longer, &codes(), &shapes()).is_err());
    let mut short = vec![2u8 << 2];
    short.extend(twin_record());
    assert!(decode_event_log(&short, &codes(), &shapes()).is_err());
    let mut cut = vec![1u8 << 2];
    let rec = success_record();
    cut.extend(&rec[..rec.len() - 1]);
    assert!(decode_event_log(&cut, &codes(), &shapes()).is_err());
    assert_eq!(decode_event_log(&[0], &codes(), &shapes()).unwrap().len(), 0);
}
