//! Classification of a block's event log: each event maps on its own into a
//! closed set of domain events, and one the client does not know is tagged,
//! never a reason to drop the rest.

use vstd::prelude::*;
use crate::mapping::{contract_from_current, farm_from_current, node_from_current, twin_from};
use crate::types::{Contract, Farm, Node, Twin};
use crate::layout::{read_prefix, rest_of, starts_with_after, starts_with_split, Layout};
use crate::query::DecodeError;
use crate::shape::{parts_local, parts_len, skip_parts, Part};
use crate::scale::{compact_prefix, compact_prefix_unique, compact_u32, starts_with};
use crate::wire;

verus! {

/// A runtime event as decoded from the event log.
#[derive(Clone, Debug, PartialEq, Eq)]
pub enum RawEvent {
    TwinStored(wire::Twin),
    TwinUpdated(wire::Twin),
    FarmStored(wire::Farm),
    FarmUpdated(wire::Farm),
    NodeStored(wire::Node),
    NodeUpdated(wire::Node),
    ContractCreated(wire::Contract),
    ContractUpdated(wire::Contract),
    /// An event of a module or kind this client does not decode.
    Unrecognized { pallet_index: u8, event_index: u8 },
}

#[derive(Clone, Debug, PartialEq, Eq)]
pub enum TfchainEvent {
    TwinStored(Twin),
    TwinUpdated(Twin),
    FarmStored(Farm),
    FarmUpdated(Farm),
    NodeStored(Node),
    NodeUpdated(Node),
    ContractCreated(Contract),
    ContractUpdated(Contract),
    Unrecognized { pallet_index: u8, event_index: u8 },
}

/// The domain event that a raw event stands for: the same kind, with its
/// payload converted.
pub open spec fn event_from(r: TfchainEvent, w: RawEvent) -> bool {
    match (r, w) {
        (TfchainEvent::TwinStored(a), RawEvent::TwinStored(b)) => twin_from(a, b),
        (TfchainEvent::TwinUpdated(a), RawEvent::TwinUpdated(b)) => twin_from(a, b),
        (TfchainEvent::FarmStored(a), RawEvent::FarmStored(b)) => farm_from_current(a, b),
        (TfchainEvent::FarmUpdated(a), RawEvent::FarmUpdated(b)) => farm_from_current(a, b),
        (TfchainEvent::NodeStored(a), RawEvent::NodeStored(b)) => node_from_current(a, b),
        (TfchainEvent::NodeUpdated(a), RawEvent::NodeUpdated(b)) => node_from_current(a, b),
        (TfchainEvent::ContractCreated(a), RawEvent::ContractCreated(b)) => contract_from_current(
            a,
            b,
        ),
        (TfchainEvent::ContractUpdated(a), RawEvent::ContractUpdated(b)) => contract_from_current(
            a,
            b,
        ),
        (
            TfchainEvent::Unrecognized { pallet_index: p, event_index: e },
            RawEvent::Unrecognized { pallet_index: q, event_index: f },
        ) => p == q && e == f,
        _ => false,
    }
}

impl TfchainEvent {
    pub fn from_raw(w: RawEvent) -> (r: TfchainEvent)
        ensures
            event_from(r, w),
    {
        match w {
            RawEvent::TwinStored(t) => TfchainEvent::TwinStored(Twin::from_wire(t)),
            RawEvent::TwinUpdated(t) => TfchainEvent::TwinUpdated(Twin::from_wire(t)),
            RawEvent::FarmStored(f) => TfchainEvent::FarmStored(Farm::from_current(f)),
            RawEvent::FarmUpdated(f) => TfchainEvent::FarmUpdated(Farm::from_current(f)),
            RawEvent::NodeStored(n) => TfchainEvent::NodeStored(Node::from_current(n)),
            RawEvent::NodeUpdated(n) => TfchainEvent::NodeUpdated(Node::from_current(n)),
            RawEvent::ContractCreated(c) => TfchainEvent::ContractCreated(
                Contract::from_current(c),
            ),
            RawEvent::ContractUpdated(c) => TfchainEvent::ContractUpdated(
                Contract::from_current(c),
            ),
            RawEvent::Unrecognized { pallet_index, event_index } => TfchainEvent::Unrecognized {
                pallet_index,
                event_index,
            },
        }
    }
}

/// Maps every event of the log, in order, one position for each.
pub fn decode_events(raw: Vec<RawEvent>) -> (r: Vec<TfchainEvent>)
    ensures
        r@.len() == raw@.len(),
        forall|i: int| 0 <= i < raw@.len() ==> #[trigger] event_from(r@[i], raw@[i]),
{
    let ghost all = raw@;
    let mut rest = raw;
    let mut r: Vec<TfchainEvent> = Vec::new();
    while rest.len() > 0
        invariant
            r@.len() + rest@.len() == all.len(),
            rest@ == all.subrange(r@.len() as int, all.len() as int),
            forall|i: int| 0 <= i < r@.len() ==> #[trigger] event_from(r@[i], all[i]),
        decreases rest@.len(),
    {
        let w = rest.remove(0);
        assert(w == all[r@.len() as int]);
        r.push(TfchainEvent::from_raw(w));
        assert(rest@ =~= all.subrange(r@.len() as int, all.len() as int));
    }
    r
}


// ------------------------------------------------------------ the event log

/// When in the block an event was emitted.
#[derive(Clone, Copy, Debug, PartialEq, Eq)]
pub enum Phase {
    ApplyExtrinsic(u32),
    Finalization,
    Initialization,
}

/// ApplyExtrinsic is 0 and the extrinsic's index; Finalization 1;
/// Initialization 2.
impl Layout for Phase {
    open spec fn enc(&self) -> Seq<u8> {
        match self {
            Phase::ApplyExtrinsic(i) => seq![0u8] + i.enc(),
            Phase::Finalization => seq![1u8],
            Phase::Initialization => seq![2u8],
        }
    }

    proof fn prefix_free(s: Seq<u8>, a: Phase, b: Phase) {
        assert(s.subrange(0, a.enc().len() as int)[0] == s[0]);
        assert(s.subrange(0, b.enc().len() as int)[0] == s[0]);
        if let (Phase::ApplyExtrinsic(x), Phase::ApplyExtrinsic(y)) = (a, b) {
            starts_with_split(s, seq![0u8], x.enc());
            starts_with_split(s, seq![0u8], y.enc());
            u32::prefix_free(s.subrange(1, s.len() as int), x, y);
        }
    }

    fn take(b: &[u8], pos: usize) -> (r: Option<(Phase, usize)>) {
        if pos >= b.len() {
            return None;
        }
        let tag = b[pos];
        proof {
            assert forall|v: Phase| starts_with(rest_of(b@, pos as int), #[trigger] v.enc())
                implies v.enc()[0] == tag by {
                let r = rest_of(b@, pos as int);
                assert(r.subrange(0, v.enc().len() as int)[0] == r[0]);
            }
            assert(b@.subrange(pos as int, pos + 1) =~= seq![tag]);
        }
        if tag == 0 {
            match u32::take(b, pos + 1) {
                Some((i, p)) => {
                    assert(b@.subrange(pos as int, p as int) =~= seq![0u8] + b@.subrange(
                        pos + 1,
                        p as int,
                    ));
                    Some((Phase::ApplyExtrinsic(i), p))
                },
                None => {
                    proof {
                        assert forall|v: Phase| !starts_with(rest_of(b@, pos as int), #[trigger] v.enc())
                            by {
                            if let Phase::ApplyExtrinsic(i) = v {
                                starts_with_after(b@, pos as int, pos + 1, seq![0u8], i.enc());
                            }
                        }
                    }
                    None
                },
            }
        } else if tag == 1 {
            Some((Phase::Finalization, pos + 1))
        } else if tag == 2 {
            Some((Phase::Initialization, pos + 1))
        } else {
            None
        }
    }
}

/// The pallet index and event index under which the runtime emits each
/// recognized kind of event; they come from the runtime's metadata.
#[derive(Clone, Copy, Debug, PartialEq, Eq)]
pub struct EventCodes {
    pub twin_stored: (u8, u8),
    pub twin_updated: (u8, u8),
    pub farm_stored: (u8, u8),
    pub farm_updated: (u8, u8),
    pub node_stored: (u8, u8),
    pub node_updated: (u8, u8),
    pub contract_created: (u8, u8),
    pub contract_updated: (u8, u8),
}

/// The kind recognized under `code`, numbered in field order, or 8 for none;
/// the first field that matches wins.
#[verifier::opaque]
pub open spec fn kind_of(c: EventCodes, code: (u8, u8)) -> nat {
    if code == c.twin_stored {
        0
    } else if code == c.twin_updated {
        1
    } else if code == c.farm_stored {
        2
    } else if code == c.farm_updated {
        3
    } else if code == c.node_stored {
        4
    } else if code == c.node_updated {
        5
    } else if code == c.contract_created {
        6
    } else if code == c.contract_updated {
        7
    } else {
        8
    }
}

#[verifier::opaque]
pub open spec fn code_of(c: EventCodes, k: nat) -> (u8, u8) {
    if k == 0 {
        c.twin_stored
    } else if k == 1 {
        c.twin_updated
    } else if k == 2 {
        c.farm_stored
    } else if k == 3 {
        c.farm_updated
    } else if k == 4 {
        c.node_stored
    } else if k == 5 {
        c.node_updated
    } else if k == 6 {
        c.contract_created
    } else if k == 7 {
        c.contract_updated
    } else {
        (0, 0)
    }
}

pub open spec fn event_kind(e: RawEvent) -> nat {
    match e {
        RawEvent::TwinStored(_) => 0,
        RawEvent::TwinUpdated(_) => 1,
        RawEvent::FarmStored(_) => 2,
        RawEvent::FarmUpdated(_) => 3,
        RawEvent::NodeStored(_) => 4,
        RawEvent::NodeUpdated(_) => 5,
        RawEvent::ContractCreated(_) => 6,
        RawEvent::ContractUpdated(_) => 7,
        RawEvent::Unrecognized { .. } => 8,
    }
}

pub open spec fn payload_enc(e: RawEvent) -> Seq<u8> {
    match e {
        RawEvent::TwinStored(x) => x.enc(),
        RawEvent::TwinUpdated(x) => x.enc(),
        RawEvent::FarmStored(x) => x.enc(),
        RawEvent::FarmUpdated(x) => x.enc(),
        RawEvent::NodeStored(x) => x.enc(),
        RawEvent::NodeUpdated(x) => x.enc(),
        RawEvent::ContractCreated(x) => x.enc(),
        RawEvent::ContractUpdated(x) => x.enc(),
        RawEvent::Unrecognized { .. } => seq![],
    }
}

/// The layout of the payload of events under `code`, which this library
/// does not decode; it comes from the runtime's metadata.
#[derive(Clone, Debug, PartialEq, Eq)]
pub struct EventShape {
    pub pallet_index: u8,
    pub event_index: u8,
    pub parts: Vec<Part>,
}

/// The parts of the first entry listed for `code`.
pub open spec fn shape_for(shapes: Seq<EventShape>, code: (u8, u8)) -> Option<Seq<Part>>
    decreases shapes.len(),
{
    if shapes.len() == 0 {
        None
    } else if (shapes[0].pallet_index, shapes[0].event_index) == code {
        Some(shapes[0].parts@)
    } else {
        shape_for(shapes.skip(1), code)
    }
}

fn find_shape(shapes: &Vec<EventShape>, code: (u8, u8)) -> (r: Option<usize>)
    ensures
        match r {
            Some(i) => i < shapes@.len() && shape_for(shapes@, code) == Some(shapes@[i as int].parts@),
            None => shape_for(shapes@, code) is None,
        },
{
    let mut i: usize = 0;
    proof {
        assert(shapes@.skip(0) =~= shapes@);
    }
    while i < shapes.len()
        invariant
            i <= shapes@.len(),
            shape_for(shapes@, code) == shape_for(shapes@.skip(i as int), code),
        decreases shapes@.len() - i,
    {
        proof {
            assert(shapes@.skip(i as int)[0] == shapes@[i as int]);
            assert(shapes@.skip(i as int).skip(1) =~= shapes@.skip(i + 1));
        }
        if shapes[i].pallet_index == code.0 && shapes[i].event_index == code.1 {
            return Some(i);
        }
        i += 1;
    }
    None
}

/// An event record as the log holds it. `skipped` holds the payload of an
/// event this library does not decode, and is empty otherwise.
#[derive(Clone, Debug, PartialEq, Eq)]
pub struct EventRecord {
    pub phase: Phase,
    pub event: RawEvent,
    pub skipped: Vec<u8>,
    pub topics: Vec<[u8; 32]>,
}

/// The code a record carries.
pub open spec fn record_code(c: EventCodes, r: EventRecord) -> (u8, u8) {
    match r.event {
        RawEvent::Unrecognized { pallet_index, event_index } => (pallet_index, event_index),
        _ => code_of(c, event_kind(r.event)),
    }
}

/// A record whose kind agrees with its code; the payload of an
/// unrecognized one spans exactly the layout listed for its code.
pub open spec fn record_fits(c: EventCodes, shapes: Seq<EventShape>, r: EventRecord) -> bool {
    &&& kind_of(c, record_code(c, r)) == event_kind(r.event)
    &&& if r.event is Unrecognized {
        shape_for(shapes, record_code(c, r)) matches Some(ps) && parts_len(ps, r.skipped@) == Some(
            r.skipped@.len(),
        )
    } else {
        r.skipped@.len() == 0
    }
}

/// What follows a record's phase: its code, payload and topics.
pub open spec fn record_tail(c: EventCodes, r: EventRecord) -> Seq<u8> {
    let code = record_code(c, r);
    seq![code.0, code.1] + (payload_enc(r.event) + (r.skipped@ + r.topics.enc()))
}

/// The bytes of a record: phase, code, payload, topics.
pub open spec fn record_enc(c: EventCodes, r: EventRecord) -> Seq<u8> {
    r.phase.enc() + record_tail(c, r)
}

/// A recognized kind's code is the code it was recognized under.
proof fn code_of_kind(c: EventCodes, code: (u8, u8), k: nat)
    requires
        kind_of(c, code) == k,
        k < 8,
    ensures
        code_of(c, k) == code,
{
    reveal(kind_of);
    reveal(code_of);
}

fn kind_at(c: &EventCodes, code: (u8, u8)) -> (k: u8)
    ensures
        k as nat == kind_of(*c, code),
        k <= 8,
{
    proof {
        reveal(kind_of);
    }
    if code.0 == c.twin_stored.0 && code.1 == c.twin_stored.1 {
        0
    } else if code.0 == c.twin_updated.0 && code.1 == c.twin_updated.1 {
        1
    } else if code.0 == c.farm_stored.0 && code.1 == c.farm_stored.1 {
        2
    } else if code.0 == c.farm_updated.0 && code.1 == c.farm_updated.1 {
        3
    } else if code.0 == c.node_stored.0 && code.1 == c.node_stored.1 {
        4
    } else if code.0 == c.node_updated.0 && code.1 == c.node_updated.1 {
        5
    } else if code.0 == c.contract_created.0 && code.1 == c.contract_created.1 {
        6
    } else if code.0 == c.contract_updated.0 && code.1 == c.contract_updated.1 {
        7
    } else {
        8
    }
}

/// Reads the payload of an event of kind `k` at `pos`.
fn take_body(b: &[u8], pos: usize, k: u8) -> (r: Option<(RawEvent, usize)>)
    requires
        pos <= b@.len(),
        k < 8,
    ensures
        match r {
            Some((e, p)) => event_kind(e) == k && pos <= p <= b@.len() && b@.subrange(
                pos as int,
                p as int,
            ) == payload_enc(e),
            None => forall|e: RawEvent|
                event_kind(e) == k ==> !starts_with(rest_of(b@, pos as int), #[trigger] payload_enc(e)),
        },
{
    if k == 0 {
        match wire::Twin::take(b, pos) {
            Some((x, p)) => Some((RawEvent::TwinStored(x), p)),
            None => {
                proof {
                    assert forall|e: RawEvent| event_kind(e) == k implies !starts_with(
                        rest_of(b@, pos as int),
                        #[trigger] payload_enc(e),
                    ) by {
                        if let RawEvent::TwinStored(x) = e {
                            assert(payload_enc(e) == x.enc());
                        }
                    }
                }
                None
            },
        }
    } else if k == 1 {
        match wire::Twin::take(b, pos) {
            Some((x, p)) => Some((RawEvent::TwinUpdated(x), p)),
            None => {
                proof {
                    assert forall|e: RawEvent| event_kind(e) == k implies !starts_with(
                        rest_of(b@, pos as int),
                        #[trigger] payload_enc(e),
                    ) by {
                        if let RawEvent::TwinUpdated(x) = e {
                            assert(payload_enc(e) == x.enc());
                        }
                    }
                }
                None
            },
        }
    } else if k == 2 {
        match wire::Farm::take(b, pos) {
            Some((x, p)) => Some((RawEvent::FarmStored(x), p)),
            None => {
                proof {
                    assert forall|e: RawEvent| event_kind(e) == k implies !starts_with(
                        rest_of(b@, pos as int),
                        #[trigger] payload_enc(e),
                    ) by {
                        if let RawEvent::FarmStored(x) = e {
                            assert(payload_enc(e) == x.enc());
                        }
                    }
                }
                None
            },
        }
    } else if k == 3 {
        match wire::Farm::take(b, pos) {
            Some((x, p)) => Some((RawEvent::FarmUpdated(x), p)),
            None => {
                proof {
                    assert forall|e: RawEvent| event_kind(e) == k implies !starts_with(
                        rest_of(b@, pos as int),
                        #[trigger] payload_enc(e),
                    ) by {
                        if let RawEvent::FarmUpdated(x) = e {
                            assert(payload_enc(e) == x.enc());
                        }
                    }
                }
                None
            },
        }
    } else if k == 4 {
        match wire::Node::take(b, pos) {
            Some((x, p)) => Some((RawEvent::NodeStored(x), p)),
            None => {
                proof {
                    assert forall|e: RawEvent| event_kind(e) == k implies !starts_with(
                        rest_of(b@, pos as int),
                        #[trigger] payload_enc(e),
                    ) by {
                        if let RawEvent::NodeStored(x) = e {
                            assert(payload_enc(e) == x.enc());
                        }
                    }
                }
                None
            },
        }
    } else if k == 5 {
        match wire::Node::take(b, pos) {
            Some((x, p)) => Some((RawEvent::NodeUpdated(x), p)),
            None => {
                proof {
                    assert forall|e: RawEvent| event_kind(e) == k implies !starts_with(
                        rest_of(b@, pos as int),
                        #[trigger] payload_enc(e),
                    ) by {
                        if let RawEvent::NodeUpdated(x) = e {
                            assert(payload_enc(e) == x.enc());
                        }
                    }
                }
                None
            },
        }
    } else if k == 6 {
        match wire::Contract::take(b, pos) {
            Some((x, p)) => Some((RawEvent::ContractCreated(x), p)),
            None => {
                proof {
                    assert forall|e: RawEvent| event_kind(e) == k implies !starts_with(
                        rest_of(b@, pos as int),
                        #[trigger] payload_enc(e),
                    ) by {
                        if let RawEvent::ContractCreated(x) = e {
                            assert(payload_enc(e) == x.enc());
                        }
                    }
                }
                None
            },
        }
    } else if k == 7 {
        match wire::Contract::take(b, pos) {
            Some((x, p)) => Some((RawEvent::ContractUpdated(x), p)),
            None => {
                proof {
                    assert forall|e: RawEvent| event_kind(e) == k implies !starts_with(
                        rest_of(b@, pos as int),
                        #[trigger] payload_enc(e),
                    ) by {
                        if let RawEvent::ContractUpdated(x) = e {
                            assert(payload_enc(e) == x.enc());
                        }
                    }
                }
                None
            },
        }
    } else {
        None
    }
}



/// Payloads of one kind that both start `s` are the same bytes.
proof fn payload_prefix_free(s: Seq<u8>, e: RawEvent, f: RawEvent)
    requires
        event_kind(e) == event_kind(f),
        starts_with(s, payload_enc(e)),
        starts_with(s, payload_enc(f)),
    ensures
        payload_enc(e) == payload_enc(f),
{
    match (e, f) {
        (RawEvent::TwinStored(x), RawEvent::TwinStored(y)) => wire::Twin::prefix_free(s, x, y),
        (RawEvent::TwinUpdated(x), RawEvent::TwinUpdated(y)) => wire::Twin::prefix_free(s, x, y),
        (RawEvent::FarmStored(x), RawEvent::FarmStored(y)) => wire::Farm::prefix_free(s, x, y),
        (RawEvent::FarmUpdated(x), RawEvent::FarmUpdated(y)) => wire::Farm::prefix_free(s, x, y),
        (RawEvent::NodeStored(x), RawEvent::NodeStored(y)) => wire::Node::prefix_free(s, x, y),
        (RawEvent::NodeUpdated(x), RawEvent::NodeUpdated(y)) => wire::Node::prefix_free(s, x, y),
        (RawEvent::ContractCreated(x), RawEvent::ContractCreated(y)) => wire::Contract::prefix_free(s, x, y),
        (RawEvent::ContractUpdated(x), RawEvent::ContractUpdated(y)) => wire::Contract::prefix_free(s, x, y),
        _ => {},
    }
}

/// Reads one record at `pos`; the payload of an unrecognized event is
/// skipped by the layout listed for its code.
#[verifier::spinoff_prover]
#[verifier::rlimit(100)]
pub fn take_record(b: &[u8], pos: usize, c: &EventCodes, shapes: &Vec<EventShape>) -> (r: Option<
    (EventRecord, usize),
>)
    requires
        pos <= b@.len(),
    ensures
        match r {
            Some((rec, p)) => record_fits(*c, shapes@, rec) && pos <= p <= b@.len() && b@.subrange(
                pos as int,
                p as int,
            ) == record_enc(*c, rec),
            None => forall|rec: EventRecord|
                record_fits(*c, shapes@, rec) ==> !starts_with(
                    rest_of(b@, pos as int),
                    #[trigger] record_enc(*c, rec),
                ),
        },
{
    let ghost cs = *c;
    let ghost sh = shapes@;
    let (phase, p1) = match Phase::take(b, pos) {
        Some(found) => found,
        None => {
            proof {
                assert forall|rec: EventRecord| record_fits(cs, sh, rec) implies !starts_with(
                    rest_of(b@, pos as int),
                    #[trigger] record_enc(cs, rec),
                ) by {
                    starts_with_split(rest_of(b@, pos as int), rec.phase.enc(), record_tail(cs, rec));
                }
            }
            return None;
        },
    };
    proof {
        assert forall|rec: EventRecord|
            record_fits(cs, sh, rec) && starts_with(rest_of(b@, pos as int), #[trigger] record_enc(cs, rec))
                implies starts_with(rest_of(b@, p1 as int), record_tail(cs, rec)) by {
            starts_with_split(rest_of(b@, pos as int), rec.phase.enc(), record_tail(cs, rec));
            read_prefix(b@, pos as int, p1 as int, phase.enc());
            Phase::prefix_free(rest_of(b@, pos as int), phase, rec.phase);
            starts_with_after(b@, pos as int, p1 as int, phase.enc(), record_tail(cs, rec));
        }
    }
    if b.len() - p1 < 2 {
        proof {
            assert forall|rec: EventRecord| record_fits(cs, sh, rec) implies !starts_with(
                rest_of(b@, pos as int),
                #[trigger] record_enc(cs, rec),
            ) by {
                assert(record_tail(cs, rec).len() >= 2);
            }
        }
        return None;
    }
    let code = (b[p1], b[p1 + 1]);
    let k = kind_at(c, code);
    let p2 = p1 + 2;
    proof {
        assert(b@.subrange(p1 as int, p2 as int) =~= seq![code.0, code.1]);
        assert forall|rec: EventRecord|
            record_fits(cs, sh, rec) && starts_with(rest_of(b@, pos as int), #[trigger] record_enc(cs, rec))
                implies record_code(cs, rec) == code && event_kind(rec.event) == k as nat
                && starts_with(
                rest_of(b@, p2 as int),
                payload_enc(rec.event) + (rec.skipped@ + rec.topics.enc()),
            ) by {
            let rc = record_code(cs, rec);
            let tail = record_tail(cs, rec);
            let r1 = rest_of(b@, p1 as int);
            assert(starts_with(r1, tail));
            assert(r1.subrange(0, tail.len() as int)[0] == r1[0]);
            assert(r1.subrange(0, tail.len() as int)[1] == r1[1]);
            assert(tail[0] == rc.0 && tail[1] == rc.1);
            starts_with_after(
                b@,
                p1 as int,
                p2 as int,
                seq![code.0, code.1],
                payload_enc(rec.event) + (rec.skipped@ + rec.topics.enc()),
            );
        }
    }
    if k == 8 {
        let idx = match find_shape(shapes, code) {
            Some(idx) => idx,
            None => {
                proof {
                    assert forall|rec: EventRecord| record_fits(cs, sh, rec) implies !starts_with(
                        rest_of(b@, pos as int),
                        #[trigger] record_enc(cs, rec),
                    ) by {
                        if starts_with(rest_of(b@, pos as int), record_enc(cs, rec)) {
                            assert(rec.event is Unrecognized);
                        }
                    }
                }
                return None;
            },
        };
        let ghost ps = shapes@[idx as int].parts@;
        let p3 = match skip_parts(b, p2, &shapes[idx].parts) {
            Some(p3) => p3,
            None => {
                proof {
                    assert forall|rec: EventRecord| record_fits(cs, sh, rec) implies !starts_with(
                        rest_of(b@, pos as int),
                        #[trigger] record_enc(cs, rec),
                    ) by {
                        if starts_with(rest_of(b@, pos as int), record_enc(cs, rec)) {
                            assert(rec.event is Unrecognized);
                            let r2 = rest_of(b@, p2 as int);
                            assert(payload_enc(rec.event) + (rec.skipped@ + rec.topics.enc())
                                =~= rec.skipped@ + rec.topics.enc());
                            starts_with_split(r2, rec.skipped@, rec.topics.enc());
                            let n = rec.skipped@.len() as int;
                            assert(rec.skipped@.take(n) =~= rec.skipped@);
                            assert(r2.take(n) =~= r2.subrange(0, n));
                            parts_local(ps, rec.skipped@, r2, rec.skipped@.len());
                        }
                    }
                }
                return None;
            },
        };
        let skipped = bytes_between(b, p2, p3);
        proof {
            let r2 = rest_of(b@, p2 as int);
            assert(skipped@ =~= r2.take((p3 - p2) as int));
            assert(skipped@.take((p3 - p2) as int) =~= r2.take((p3 - p2) as int));
            parts_local(ps, r2, skipped@, (p3 - p2) as nat);
            assert(b@.subrange(p2 as int, p3 as int) == skipped@);
        }
        let (topics, p4) = match <Vec<[u8; 32]> as Layout>::take(b, p3) {
            Some(found) => found,
            None => {
                proof {
                    assert forall|rec: EventRecord| record_fits(cs, sh, rec) implies !starts_with(
                        rest_of(b@, pos as int),
                        #[trigger] record_enc(cs, rec),
                    ) by {
                        if starts_with(rest_of(b@, pos as int), record_enc(cs, rec)) {
                            assert(rec.event is Unrecognized);
                            let r2 = rest_of(b@, p2 as int);
                            assert(payload_enc(rec.event) + (rec.skipped@ + rec.topics.enc())
                                =~= rec.skipped@ + rec.topics.enc());
                            starts_with_split(r2, rec.skipped@, rec.topics.enc());
                            let n = rec.skipped@.len() as int;
                            assert(rec.skipped@.take(n) =~= rec.skipped@);
                            assert(r2.take(n) =~= r2.subrange(0, n));
                            parts_local(ps, rec.skipped@, r2, rec.skipped@.len());
                            read_prefix(b@, p2 as int, p3 as int, skipped@);
                            assert(rec.skipped@ =~= skipped@);
                            starts_with_after(b@, p2 as int, p3 as int, skipped@, rec.topics.enc());
                        }
                    }
                }
                return None;
            },
        };
        let rec = EventRecord {
            phase,
            event: RawEvent::Unrecognized { pallet_index: code.0, event_index: code.1 },
            skipped,
            topics,
        };
        proof {
            assert(b@.subrange(pos as int, p4 as int) =~= b@.subrange(pos as int, p1 as int)
                + b@.subrange(p1 as int, p2 as int) + b@.subrange(p2 as int, p3 as int) + b@.subrange(
                p3 as int,
                p4 as int,
            ));
            assert(record_enc(cs, rec) =~= phase.enc() + seq![code.0, code.1] + skipped@
                + topics.enc());
        }
        return Some((rec, p4));
    }
    let (event, p3) = match take_body(b, p2, k) {
        Some(found) => found,
        None => {
            proof {
                assert forall|rec: EventRecord| record_fits(cs, sh, rec) implies !starts_with(
                    rest_of(b@, pos as int),
                    #[trigger] record_enc(cs, rec),
                ) by {
                    if starts_with(rest_of(b@, pos as int), record_enc(cs, rec)) {
                        starts_with_split(
                            rest_of(b@, p2 as int),
                            payload_enc(rec.event),
                            rec.skipped@ + rec.topics.enc(),
                        );
                    }
                }
            }
            return None;
        },
    };
    let (topics, p4) = match <Vec<[u8; 32]> as Layout>::take(b, p3) {
        Some(found) => found,
        None => {
            proof {
                assert forall|rec: EventRecord| record_fits(cs, sh, rec) implies !starts_with(
                    rest_of(b@, pos as int),
                    #[trigger] record_enc(cs, rec),
                ) by {
                    if starts_with(rest_of(b@, pos as int), record_enc(cs, rec)) {
                        assert(rec.skipped@ + rec.topics.enc() =~= rec.topics.enc());
                        starts_with_split(
                            rest_of(b@, p2 as int),
                            payload_enc(rec.event),
                            rec.topics.enc(),
                        );
                        read_prefix(b@, p2 as int, p3 as int, payload_enc(event));
                        payload_prefix_free(rest_of(b@, p2 as int), event, rec.event);
                        starts_with_after(
                            b@,
                            p2 as int,
                            p3 as int,
                            payload_enc(event),
                            rec.topics.enc(),
                        );
                    }
                }
            }
            return None;
        },
    };
    let rec = EventRecord { phase, event, skipped: Vec::new(), topics };
    proof {
        code_of_kind(cs, code, k as nat);
        assert(b@.subrange(pos as int, p4 as int) =~= b@.subrange(pos as int, p1 as int)
            + b@.subrange(p1 as int, p2 as int) + b@.subrange(p2 as int, p3 as int) + b@.subrange(
            p3 as int,
            p4 as int,
        ));
        assert(record_enc(cs, rec) =~= phase.enc() + seq![code.0, code.1] + payload_enc(event)
            + topics.enc());
    }
    Some((rec, p4))
}

/// A copy of `b[start..end]`.
fn bytes_between(b: &[u8], start: usize, end: usize) -> (r: Vec<u8>)
    requires
        start <= end <= b@.len(),
    ensures
        r@ == b@.subrange(start as int, end as int),
{
    let mut r: Vec<u8> = Vec::new();
    let mut i: usize = start;
    while i < end
        invariant
            start <= i <= end,
            end <= b@.len(),
            r@ == b@.subrange(start as int, i as int),
        decreases end - i,
    {
        r.push(b[i]);
        i += 1;
        assert(r@ =~= b@.subrange(start as int, i as int));
    }
    r
}


/// The records' bytes one after the other.
pub open spec fn records_enc(c: EventCodes, recs: Seq<EventRecord>) -> Seq<u8>
    decreases recs.len(),
{
    if recs.len() == 0 {
        seq![]
    } else {
        records_enc(c, recs.drop_last()) + record_enc(c, recs.last())
    }
}

pub open spec fn events_of(recs: Seq<EventRecord>) -> Seq<RawEvent> {
    recs.map_values(|r: EventRecord| r.event)
}

/// `b` is a log of `n` records read as `recs`: a compact count, then every
/// record, recognized or not, filling `b` exactly.
pub open spec fn log_reads(
    c: EventCodes,
    shapes: Seq<EventShape>,
    b: Seq<u8>,
    n: u32,
    recs: Seq<EventRecord>,
) -> bool {
    &&& recs.len() == n
    &&& forall|i: int| 0 <= i < recs.len() ==> #[trigger] record_fits(c, shapes, recs[i])
    &&& b == compact_u32(n) + records_enc(c, recs)
}

/// Two fitting records whose bytes both start `s` are the same bytes.
proof fn record_prefix_free(
    c: EventCodes,
    shapes: Seq<EventShape>,
    s: Seq<u8>,
    x: EventRecord,
    y: EventRecord,
)
    requires
        record_fits(c, shapes, x),
        record_fits(c, shapes, y),
        starts_with(s, record_enc(c, x)),
        starts_with(s, record_enc(c, y)),
    ensures
        record_enc(c, x) == record_enc(c, y),
{
    let (cx, cy) = (record_code(c, x), record_code(c, y));
    starts_with_split(s, x.phase.enc(), record_tail(c, x));
    starts_with_split(s, y.phase.enc(), record_tail(c, y));
    Phase::prefix_free(s, x.phase, y.phase);
    let t = s.subrange(x.phase.enc().len() as int, s.len() as int);
    let (tx, ty) = (record_tail(c, x), record_tail(c, y));
    assert(t.subrange(0, tx.len() as int)[0] == t[0] && t.subrange(0, tx.len() as int)[1] == t[1]);
    assert(t.subrange(0, ty.len() as int)[0] == t[0] && t.subrange(0, ty.len() as int)[1] == t[1]);
    assert(cx == cy);
    let ux = payload_enc(x.event) + (x.skipped@ + x.topics.enc());
    let uy = payload_enc(y.event) + (y.skipped@ + y.topics.enc());
    starts_with_split(t, seq![cx.0, cx.1], ux);
    starts_with_split(t, seq![cy.0, cy.1], uy);
    let u = t.subrange(2, t.len() as int);
    if x.event is Unrecognized {
        assert(y.event is Unrecognized);
        let ps = shape_for(shapes, cx)->Some_0;
        assert(ux =~= x.skipped@ + x.topics.enc());
        assert(uy =~= y.skipped@ + y.topics.enc());
        starts_with_split(u, x.skipped@, x.topics.enc());
        starts_with_split(u, y.skipped@, y.topics.enc());
        let (nx, ny) = (x.skipped@.len() as int, y.skipped@.len() as int);
        assert(x.skipped@.take(nx) =~= x.skipped@);
        assert(y.skipped@.take(ny) =~= y.skipped@);
        assert(u.take(nx) =~= u.subrange(0, nx));
        assert(u.take(ny) =~= u.subrange(0, ny));
        parts_local(ps, x.skipped@, u, nx as nat);
        parts_local(ps, y.skipped@, u, ny as nat);
        assert(x.skipped@ == y.skipped@);
        let v = u.subrange(nx, u.len() as int);
        <Vec<[u8; 32]> as Layout>::prefix_free(v, x.topics, y.topics);
    } else {
        assert(ux =~= payload_enc(x.event) + x.topics.enc());
        assert(uy =~= payload_enc(y.event) + y.topics.enc());
        starts_with_split(u, payload_enc(x.event), x.topics.enc());
        starts_with_split(u, payload_enc(y.event), y.topics.enc());
        payload_prefix_free(u, x.event, y.event);
        let v = u.subrange(payload_enc(x.event).len() as int, u.len() as int);
        <Vec<[u8; 32]> as Layout>::prefix_free(v, x.topics, y.topics);
    }
}

proof fn records_enc_push(c: EventCodes, recs: Seq<EventRecord>, r: EventRecord)
    ensures
        records_enc(c, recs.push(r)) == records_enc(c, recs) + record_enc(c, r),
{
    assert(recs.push(r).drop_last() =~= recs);
}

/// Equally many fitting records whose bytes both start `s` are the same bytes.
proof fn records_prefix_free(
    c: EventCodes,
    shapes: Seq<EventShape>,
    s: Seq<u8>,
    a: Seq<EventRecord>,
    b: Seq<EventRecord>,
)
    requires
        a.len() == b.len(),
        forall|i: int| 0 <= i < a.len() ==> #[trigger] record_fits(c, shapes, a[i]),
        forall|i: int| 0 <= i < b.len() ==> #[trigger] record_fits(c, shapes, b[i]),
        starts_with(s, records_enc(c, a)),
        starts_with(s, records_enc(c, b)),
    ensures
        records_enc(c, a) == records_enc(c, b),
    decreases a.len(),
{
    if a.len() > 0 {
        let (a1, b1) = (a.drop_last(), b.drop_last());
        starts_with_split(s, records_enc(c, a1), record_enc(c, a.last()));
        starts_with_split(s, records_enc(c, b1), record_enc(c, b.last()));
        assert forall|i: int| 0 <= i < a1.len() implies #[trigger] record_fits(c, shapes, a1[i]) by {
            assert(a1[i] == a[i]);
        }
        assert forall|i: int| 0 <= i < b1.len() implies #[trigger] record_fits(c, shapes, b1[i]) by {
            assert(b1[i] == b[i]);
        }
        records_prefix_free(c, shapes, s, a1, b1);
        let t = s.subrange(records_enc(c, a1).len() as int, s.len() as int);
        record_prefix_free(c, shapes, t, a.last(), b.last());
    }
}

proof fn records_enc_split(c: EventCodes, recs: Seq<EventRecord>, k: int)
    requires
        0 <= k <= recs.len(),
    ensures
        records_enc(c, recs) == records_enc(c, recs.take(k)) + records_enc(c, recs.skip(k)),
    decreases recs.len(),
{
    if k == recs.len() {
        assert(recs.take(k) =~= recs);
        assert(recs.skip(k) =~= Seq::<EventRecord>::empty());
        assert(records_enc(c, recs) =~= records_enc(c, recs) + Seq::<u8>::empty());
    } else {
        let r1 = recs.drop_last();
        records_enc_split(c, r1, k);
        assert(r1.take(k) =~= recs.take(k));
        assert(recs.skip(k).drop_last() =~= r1.skip(k));
        assert(recs.skip(k).last() == recs.last());
        assert(records_enc(c, recs) =~= records_enc(c, recs.take(k)) + records_enc(
            c,
            recs.skip(k),
        ));
    }
}

proof fn records_enc_front(c: EventCodes, recs: Seq<EventRecord>)
    requires
        recs.len() > 0,
    ensures
        records_enc(c, recs) == record_enc(c, recs[0]) + records_enc(c, recs.skip(1)),
{
    records_enc_split(c, recs, 1);
    let one = recs.take(1);
    assert(one.drop_last() =~= Seq::<EventRecord>::empty());
    assert(records_enc(c, one.drop_last()) =~= Seq::<u8>::empty());
    assert(one.last() == recs[0]);
    assert(records_enc(c, one) =~= record_enc(c, recs[0]));
}

/// Reads a block's event log: a compact count, then the records, one at a
/// time. A recognized record is decoded; an unrecognized one is skipped by
/// the layout `shapes` lists for its code and tagged in its place. The
/// result has one entry per record, in order.
#[verifier::spinoff_prover]
#[verifier::rlimit(100)]
pub fn decode_event_log(b: &[u8], c: &EventCodes, shapes: &Vec<EventShape>) -> (r: Result<
    Vec<RawEvent>,
    DecodeError,
>)
    ensures
        match r {
            Ok(evs) => exists|n: u32, recs: Seq<EventRecord>|
                log_reads(*c, shapes@, b@, n, recs) && events_of(recs) == evs@,
            Err(_) => forall|n: u32, recs: Seq<EventRecord>| !log_reads(*c, shapes@, b@, n, recs),
        },
{
    let ghost cs = *c;
    let ghost sh = shapes@;
    let (n, left) = match compact_prefix(b) {
        Some(found) => found,
        None => {
            proof {
                assert forall|n: u32, recs: Seq<EventRecord>| !log_reads(cs, sh, b@, n, recs) by {
                    if log_reads(cs, sh, b@, n, recs) {
                        assert(b@.subrange(0, b@.len() as int) =~= b@);
                        starts_with_split(b@, compact_u32(n), records_enc(cs, recs));
                    }
                }
            }
            return Err(DecodeError);
        },
    };
    let start = b.len() - left;
    proof {
        assert(b@.subrange(0, start as int) == compact_u32(n));
        assert forall|m: u32, recs: Seq<EventRecord>| #[trigger] log_reads(cs, sh, b@, m, recs) implies m
            == n && starts_with(rest_of(b@, start as int), records_enc(cs, recs)) by {
            assert(b@.subrange(0, b@.len() as int) =~= b@);
            starts_with_split(b@, compact_u32(m), records_enc(cs, recs));
            compact_prefix_unique(b@, m, n);
            assert(b@.subrange(compact_u32(n).len() as int, b@.len() as int) =~= rest_of(
                b@,
                start as int,
            ));
        }
    }
    let mut events: Vec<RawEvent> = Vec::new();
    let ghost mut recs: Seq<EventRecord> = Seq::empty();
    let mut p = start;
    let mut i: u32 = 0;
    while i < n
        invariant
            b@.subrange(0, start as int) == compact_u32(n),
            start <= p <= b@.len(),
            recs.len() == i,
            i <= n,
            events@ == events_of(recs),
            forall|j: int| 0 <= j < recs.len() ==> #[trigger] record_fits(cs, sh, recs[j]),
            b@.subrange(start as int, p as int) == records_enc(cs, recs),
            cs == *c,
            sh == shapes@,
            forall|m: u32, rs: Seq<EventRecord>| #[trigger] log_reads(cs, sh, b@, m, rs) ==> m == n
                && starts_with(rest_of(b@, start as int), records_enc(cs, rs)),
        decreases n - i,
    {
        match take_record(b, p, c, shapes) {
            Some((rec, q)) => {
                proof {
                    records_enc_push(cs, recs, rec);
                    assert(b@.subrange(start as int, q as int) =~= b@.subrange(start as int, p as int)
                        + b@.subrange(p as int, q as int));
                }
                events.push(rec.event);
                proof {
                    recs = recs.push(rec);
                    assert(events@ =~= events_of(recs));
                }
                p = q;
                i = i + 1;
            },
            None => {
                proof {
                    assert forall|m: u32, rs: Seq<EventRecord>| !log_reads(cs, sh, b@, m, rs) by {
                        if log_reads(cs, sh, b@, m, rs) {
                            let s = rest_of(b@, start as int);
                            let ii = i as int;
                            read_prefix(b@, start as int, p as int, records_enc(cs, recs));
                            records_enc_split(cs, rs, ii);
                            records_enc_front(cs, rs.skip(ii));
                            starts_with_split(s, records_enc(cs, rs.take(ii)), records_enc(cs, rs.skip(ii)));
                            assert forall|j: int| 0 <= j < ii implies #[trigger] record_fits(cs, sh, rs.take(ii)[j]) by {
                                assert(rs.take(ii)[j] == rs[j]);
                            }
                            records_prefix_free(cs, sh, s, recs, rs.take(ii));
                            starts_with_after(b@, start as int, p as int, records_enc(cs, recs), records_enc(cs, rs.skip(ii)));
                            starts_with_split(rest_of(b@, p as int), record_enc(cs, rs.skip(ii)[0]), records_enc(cs, rs.skip(ii).skip(1)));
                            assert(rs.skip(ii)[0] == rs[ii]);
                            assert(record_fits(cs, sh, rs[ii]));
                        }
                    }
                }
                return Err(DecodeError);
            },
        }
    }
    if p != b.len() {
        proof {
            assert forall|m: u32, rs: Seq<EventRecord>| !log_reads(cs, sh, b@, m, rs) by {
                if log_reads(cs, sh, b@, m, rs) {
                    let s = rest_of(b@, start as int);
                    read_prefix(b@, start as int, p as int, records_enc(cs, recs));
                    records_prefix_free(cs, sh, s, recs, rs);
                    assert(b@.len() == compact_u32(n).len() + records_enc(cs, rs).len());
                }
            }
        }
        return Err(DecodeError);
    }
    proof {
        assert(b@ =~= b@.subrange(0, start as int) + b@.subrange(start as int, p as int));
        assert(log_reads(cs, sh, b@, n, recs));
    }
    Ok(events)
}


/// A log read as `recs` yields one event per record, in order, and an
/// event is tagged unrecognized exactly when its record's code is none of
/// the recognized ones.
pub proof fn log_keeps_every_record(
    c: EventCodes,
    shapes: Seq<EventShape>,
    b: Seq<u8>,
    n: u32,
    recs: Seq<EventRecord>,
)
    requires
        log_reads(c, shapes, b, n, recs),
    ensures
        events_of(recs).len() == n,
        forall|i: int|
            0 <= i < n ==> ((#[trigger] events_of(recs)[i]) is Unrecognized <==> kind_of(
                c,
                record_code(c, recs[i]),
            ) == 8),
{
    assert forall|i: int| 0 <= i < n implies ((#[trigger] events_of(recs)[i]) is Unrecognized
        <==> kind_of(c, record_code(c, recs[i])) == 8) by {
        assert(record_fits(c, shapes, recs[i]));
    }
}

} // verus!
