//! The decisions of each read: which schema a stored value was decoded with,
//! what an absent value stands for, and how a block hash is read from text.
//! Entity lookups read absence as the zero value; the balance and block hash
//! lookups report it as an error.

use vstd::prelude::*;
use vstd::string::StringSliceAdditionalSpecFns;
use crate::legacy;
use crate::mapping::{
    contract_from_current, contract_from_legacy, farm_from_current, farm_from_legacy,
    node_from_current, node_from_legacy, twin_from,
};
use crate::layout::{read_prefix, rest_of, Layout};
use crate::types::{AccountData, AccountInfo, Contract, Farm, H256, Node, Twin};
use crate::wire;

verus! {

/// The stored bytes do not hold a value of the expected type.
#[derive(Clone, Copy, Debug, PartialEq, Eq)]
pub struct DecodeError;

#[derive(Clone, Copy, Debug, PartialEq, Eq)]
pub enum QueryError {
    /// The value is absent where absence is an answer of its own.
    NotFound,
    /// The stored bytes are malformed for the requested type.
    Decode,
    /// A block hash is not 32 bytes of hexadecimal text.
    InvalidHash,
}

/// A stored value decoded with one of the schemas it may have been written in.
#[derive(Clone, Debug, PartialEq, Eq)]
pub enum Versioned<C, L> {
    Current(C),
    Legacy(L),
}

pub open spec fn farm_from_versioned(r: Farm, w: Versioned<wire::Farm, legacy::Farm>) -> bool {
    match w {
        Versioned::Current(c) => farm_from_current(r, c),
        Versioned::Legacy(l) => farm_from_legacy(r, l),
    }
}

pub open spec fn node_from_versioned(r: Node, w: Versioned<wire::Node, legacy::Node>) -> bool {
    match w {
        Versioned::Current(c) => node_from_current(r, c),
        Versioned::Legacy(l) => node_from_legacy(r, l),
    }
}

pub open spec fn contract_from_versioned(
    r: Contract,
    w: Versioned<wire::Contract, legacy::Contract>,
) -> bool {
    match w {
        Versioned::Current(c) => contract_from_current(r, c),
        Versioned::Legacy(l) => contract_from_legacy(r, l),
    }
}

impl Twin {
    /// The twin a lookup found: the zero twin where the key holds nothing.
    pub fn from_lookup(found: Option<Result<wire::Twin, DecodeError>>) -> (r: Result<
        Twin,
        QueryError,
    >)
        ensures
            match found {
                None => r is Ok && r->Ok_0.is_zero(),
                Some(Err(_)) => r == Err::<Twin, QueryError>(QueryError::Decode),
                Some(Ok(w)) => r is Ok && twin_from(r->Ok_0, w),
            },
    {
        match found {
            None => Ok(Twin::default()),
            Some(Err(_)) => Err(QueryError::Decode),
            Some(Ok(w)) => Ok(Twin::from_wire(w)),
        }
    }
}

impl Farm {
    pub fn from_versioned(w: Versioned<wire::Farm, legacy::Farm>) -> (r: Farm)
        ensures
            farm_from_versioned(r, w),
    {
        match w {
            Versioned::Current(c) => Farm::from_current(c),
            Versioned::Legacy(l) => Farm::from_legacy(l),
        }
    }

    /// The farm a lookup found: the zero farm where the key holds nothing.
    pub fn from_lookup(
        found: Option<Result<Versioned<wire::Farm, legacy::Farm>, DecodeError>>,
    ) -> (r: Result<Farm, QueryError>)
        ensures
            match found {
                None => r is Ok && r->Ok_0.is_zero(),
                Some(Err(_)) => r == Err::<Farm, QueryError>(QueryError::Decode),
                Some(Ok(w)) => r is Ok && farm_from_versioned(r->Ok_0, w),
            },
    {
        match found {
            None => Ok(Farm::default()),
            Some(Err(_)) => Err(QueryError::Decode),
            Some(Ok(w)) => Ok(Farm::from_versioned(w)),
        }
    }
}

impl Node {
    pub fn from_versioned(w: Versioned<wire::Node, legacy::Node>) -> (r: Node)
        ensures
            node_from_versioned(r, w),
    {
        match w {
            Versioned::Current(c) => Node::from_current(c),
            Versioned::Legacy(l) => Node::from_legacy(l),
        }
    }

    /// The node a lookup found: the zero node where the key holds nothing.
    pub fn from_lookup(
        found: Option<Result<Versioned<wire::Node, legacy::Node>, DecodeError>>,
    ) -> (r: Result<Node, QueryError>)
        ensures
            match found {
                None => r is Ok && r->Ok_0.is_zero(),
                Some(Err(_)) => r == Err::<Node, QueryError>(QueryError::Decode),
                Some(Ok(w)) => r is Ok && node_from_versioned(r->Ok_0, w),
            },
    {
        match found {
            None => Ok(Node::default()),
            Some(Err(_)) => Err(QueryError::Decode),
            Some(Ok(w)) => Ok(Node::from_versioned(w)),
        }
    }
}

impl Contract {
    pub fn from_versioned(w: Versioned<wire::Contract, legacy::Contract>) -> (r: Contract)
        ensures
            contract_from_versioned(r, w),
    {
        match w {
            Versioned::Current(c) => Contract::from_current(c),
            Versioned::Legacy(l) => Contract::from_legacy(l),
        }
    }

    /// The contract a lookup found: the zero contract where the key holds nothing.
    pub fn from_lookup(
        found: Option<Result<Versioned<wire::Contract, legacy::Contract>, DecodeError>>,
    ) -> (r: Result<Contract, QueryError>)
        ensures
            match found {
                None => r is Ok && r->Ok_0.is_zero(),
                Some(Err(_)) => r == Err::<Contract, QueryError>(QueryError::Decode),
                Some(Ok(w)) => r is Ok && contract_from_versioned(r->Ok_0, w),
            },
    {
        match found {
            None => Ok(Contract::default()),
            Some(Err(_)) => Err(QueryError::Decode),
            Some(Ok(w)) => Ok(Contract::from_versioned(w)),
        }
    }
}

impl AccountData {
    /// The balances of an account: every account lookup must resolve, so
    /// nothing stored is an error.
    pub fn from_lookup(found: Option<Result<AccountInfo, DecodeError>>) -> (r: Result<
        AccountData,
        QueryError,
    >)
        ensures
            match found {
                None => r == Err::<AccountData, QueryError>(QueryError::NotFound),
                Some(Err(_)) => r == Err::<AccountData, QueryError>(QueryError::Decode),
                Some(Ok(info)) => r == Ok::<AccountData, QueryError>(info.data),
            },
    {
        match found {
            None => Err(QueryError::NotFound),
            Some(Err(_)) => Err(QueryError::Decode),
            Some(Ok(info)) => Ok(info.data),
        }
    }
}

/// Decodes a whole stored value: the bytes must be exactly one value's
/// encoding, with nothing left over.
pub fn decode_exact<T: Layout>(b: &[u8]) -> (r: Result<T, DecodeError>)
    ensures
        match r {
            Ok(v) => v.enc() == b@,
            Err(_) => forall|v: T| #[trigger] v.enc() != b@,
        },
{
    proof {
        assert(rest_of(b@, 0) =~= b@);
    }
    match T::take(b, 0) {
        Some((v, p)) => {
            if p == b.len() {
                assert(b@.subrange(0, p as int) =~= b@);
                Ok(v)
            } else {
                proof {
                    assert forall|w: T| #[trigger] w.enc() != b@ by {
                        if w.enc() == b@ {
                            assert(b@.subrange(0, w.enc().len() as int) =~= b@);
                            read_prefix(b@, 0, p as int, v.enc());
                            T::prefix_free(b@, v, w);
                        }
                    }
                }
                Err(DecodeError)
            }
        },
        None => {
            proof {
                assert forall|w: T| #[trigger] w.enc() != b@ by {
                    if w.enc() == b@ {
                        assert(b@.subrange(0, w.enc().len() as int) =~= b@);
                    }
                }
            }
            Err(DecodeError)
        },
    }
}

/// Which historical layout a stored value was written in.
#[derive(Clone, Copy, Debug, PartialEq, Eq)]
pub enum Schema {
    Current,
    Legacy,
}

pub open spec fn holds_value(raw: Option<Vec<u8>>) -> bool {
    raw is Some && raw->Some_0@.len() > 0
}

/// Decodes a value in the layout of `schema`.
pub fn decode_versioned<C: Layout, L: Layout>(b: &[u8], schema: Schema) -> (r: Result<
    Versioned<C, L>,
    DecodeError,
>)
    ensures
        match r {
            Ok(Versioned::Current(c)) => schema == Schema::Current && c.enc() == b@,
            Ok(Versioned::Legacy(l)) => schema == Schema::Legacy && l.enc() == b@,
            Err(_) => if schema == Schema::Current {
                forall|c: C| #[trigger] c.enc() != b@
            } else {
                forall|l: L| #[trigger] l.enc() != b@
            },
        },
{
    match schema {
        Schema::Current => match decode_exact::<C>(b) {
            Ok(c) => Ok(Versioned::Current(c)),
            Err(e) => Err(e),
        },
        Schema::Legacy => match decode_exact::<L>(b) {
            Ok(l) => Ok(Versioned::Legacy(l)),
            Err(e) => Err(e),
        },
    }
}

/// The value stored under a key, decoded where there is one: an absent
/// value and an empty one both mean that the key holds nothing.
fn decode_present<T: Layout>(raw: &Option<Vec<u8>>) -> (r: Option<Result<T, DecodeError>>)
    ensures
        match r {
            None => !holds_value(*raw),
            Some(Ok(v)) => holds_value(*raw) && v.enc() == raw->Some_0@,
            Some(Err(_)) => holds_value(*raw) && forall|v: T| #[trigger] v.enc() != raw->Some_0@,
        },
{
    match raw {
        Some(b) => if b.len() > 0 {
            Some(decode_exact::<T>(b.as_slice()))
        } else {
            None
        },
        None => None,
    }
}

/// The value stored under a key in the layout of `schema`, decoded where
/// there is one.
fn decoded<C: Layout, L: Layout>(raw: &Option<Vec<u8>>, schema: Schema) -> (r: Option<
    Result<Versioned<C, L>, DecodeError>,
>)
    ensures
        match r {
            None => !holds_value(*raw),
            Some(Ok(Versioned::Current(c))) => holds_value(*raw) && schema == Schema::Current
                && c.enc() == raw->Some_0@,
            Some(Ok(Versioned::Legacy(l))) => holds_value(*raw) && schema == Schema::Legacy
                && l.enc() == raw->Some_0@,
            Some(Err(_)) => holds_value(*raw) && if schema == Schema::Current {
                forall|c: C| #[trigger] c.enc() != raw->Some_0@
            } else {
                forall|l: L| #[trigger] l.enc() != raw->Some_0@
            },
        },
{
    match raw {
        Some(b) => if b.len() > 0 {
            Some(decode_versioned::<C, L>(b.as_slice(), schema))
        } else {
            None
        },
        None => None,
    }
}

impl Twin {
    /// The twin stored under a key; the layout is the same in both schemas.
    pub fn from_storage(raw: &Option<Vec<u8>>) -> (r: Result<Twin, QueryError>)
        ensures
            !holds_value(*raw) ==> r is Ok && r->Ok_0.is_zero(),
            holds_value(*raw) ==> match r {
                Ok(t) => exists|w: wire::Twin| w.enc() == raw->Some_0@ && twin_from(t, w),
                Err(e) => e == QueryError::Decode && forall|w: wire::Twin| #[trigger] w.enc()
                    != raw->Some_0@,
            },
    {
        Twin::from_lookup(decode_present::<wire::Twin>(raw))
    }
}

impl Farm {
    /// The farm stored under a key in the layout of `schema`; the zero farm
    /// where nothing is stored.
    pub fn from_storage(raw: &Option<Vec<u8>>, schema: Schema) -> (r: Result<Farm, QueryError>)
        ensures
            !holds_value(*raw) ==> r is Ok && r->Ok_0.is_zero(),
            holds_value(*raw) && schema == Schema::Current ==> match r {
                Ok(f) => exists|w: wire::Farm| w.enc() == raw->Some_0@ && farm_from_current(f, w),
                Err(e) => e == QueryError::Decode && forall|w: wire::Farm| #[trigger] w.enc()
                    != raw->Some_0@,
            },
            holds_value(*raw) && schema == Schema::Legacy ==> match r {
                Ok(f) => exists|w: legacy::Farm| w.enc() == raw->Some_0@ && farm_from_legacy(f, w),
                Err(e) => e == QueryError::Decode && forall|w: legacy::Farm| #[trigger] w.enc()
                    != raw->Some_0@,
            },
    {
        Farm::from_lookup(decoded::<wire::Farm, legacy::Farm>(raw, schema))
    }
}

impl Node {
    /// The node stored under a key in the layout of `schema`; the zero node
    /// where nothing is stored.
    pub fn from_storage(raw: &Option<Vec<u8>>, schema: Schema) -> (r: Result<Node, QueryError>)
        ensures
            !holds_value(*raw) ==> r is Ok && r->Ok_0.is_zero(),
            holds_value(*raw) && schema == Schema::Current ==> match r {
                Ok(n) => exists|w: wire::Node| w.enc() == raw->Some_0@ && node_from_current(n, w),
                Err(e) => e == QueryError::Decode && forall|w: wire::Node| #[trigger] w.enc()
                    != raw->Some_0@,
            },
            holds_value(*raw) && schema == Schema::Legacy ==> match r {
                Ok(n) => exists|w: legacy::Node| w.enc() == raw->Some_0@ && node_from_legacy(n, w),
                Err(e) => e == QueryError::Decode && forall|w: legacy::Node| #[trigger] w.enc()
                    != raw->Some_0@,
            },
    {
        Node::from_lookup(decoded::<wire::Node, legacy::Node>(raw, schema))
    }
}

impl Contract {
    /// The contract stored under a key in the layout of `schema`; the zero
    /// contract where nothing is stored.
    pub fn from_storage(raw: &Option<Vec<u8>>, schema: Schema) -> (r: Result<
        Contract,
        QueryError,
    >)
        ensures
            !holds_value(*raw) ==> r is Ok && r->Ok_0.is_zero(),
            holds_value(*raw) && schema == Schema::Current ==> match r {
                Ok(c) => exists|w: wire::Contract| w.enc() == raw->Some_0@ && contract_from_current(
                    c,
                    w,
                ),
                Err(e) => e == QueryError::Decode && forall|w: wire::Contract| #[trigger] w.enc()
                    != raw->Some_0@,
            },
            holds_value(*raw) && schema == Schema::Legacy ==> match r {
                Ok(c) => exists|w: legacy::Contract| w.enc() == raw->Some_0@
                    && contract_from_legacy(c, w),
                Err(e) => e == QueryError::Decode && forall|w: legacy::Contract| #[trigger] w.enc()
                    != raw->Some_0@,
            },
    {
        Contract::from_lookup(decoded::<wire::Contract, legacy::Contract>(raw, schema))
    }
}

impl Farm {
    /// The farm stored under a key, in whichever layout the bytes hold:
    /// the current one first, else the legacy one.
    pub fn from_any_schema(raw: &Option<Vec<u8>>) -> (r: Result<Farm, QueryError>)
        ensures
            !holds_value(*raw) ==> r is Ok && r->Ok_0.is_zero(),
            holds_value(*raw) ==> match r {
                Ok(f) => (exists|w: wire::Farm| w.enc() == raw->Some_0@ && farm_from_current(f, w)) || ((forall|
                    w: wire::Farm,
                | #[trigger] w.enc() != raw->Some_0@) && exists|w: legacy::Farm|
                    w.enc() == raw->Some_0@ && farm_from_legacy(f, w)),
                Err(e) => e == QueryError::Decode && (forall|w: wire::Farm| #[trigger] w.enc()
                    != raw->Some_0@) && (forall|w: legacy::Farm| #[trigger] w.enc() != raw->Some_0@),
            },
    {
        match Farm::from_storage(raw, Schema::Current) {
            Ok(f) => Ok(f),
            Err(_) => Farm::from_storage(raw, Schema::Legacy),
        }
    }
}

impl Node {
    /// The node stored under a key, in whichever layout the bytes hold:
    /// the current one first, else the legacy one.
    pub fn from_any_schema(raw: &Option<Vec<u8>>) -> (r: Result<Node, QueryError>)
        ensures
            !holds_value(*raw) ==> r is Ok && r->Ok_0.is_zero(),
            holds_value(*raw) ==> match r {
                Ok(n) => (exists|w: wire::Node| w.enc() == raw->Some_0@ && node_from_current(n, w)) || ((forall|
                    w: wire::Node,
                | #[trigger] w.enc() != raw->Some_0@) && exists|w: legacy::Node|
                    w.enc() == raw->Some_0@ && node_from_legacy(n, w)),
                Err(e) => e == QueryError::Decode && (forall|w: wire::Node| #[trigger] w.enc()
                    != raw->Some_0@) && (forall|w: legacy::Node| #[trigger] w.enc() != raw->Some_0@),
            },
    {
        match Node::from_storage(raw, Schema::Current) {
            Ok(n) => Ok(n),
            Err(_) => Node::from_storage(raw, Schema::Legacy),
        }
    }
}

impl Contract {
    /// The contract stored under a key, in whichever layout the bytes hold:
    /// the current one first, else the legacy one.
    pub fn from_any_schema(raw: &Option<Vec<u8>>) -> (r: Result<Contract, QueryError>)
        ensures
            !holds_value(*raw) ==> r is Ok && r->Ok_0.is_zero(),
            holds_value(*raw) ==> match r {
                Ok(c) => (exists|w: wire::Contract| w.enc() == raw->Some_0@ && contract_from_current(c, w)) || ((forall|
                    w: wire::Contract,
                | #[trigger] w.enc() != raw->Some_0@) && exists|w: legacy::Contract|
                    w.enc() == raw->Some_0@ && contract_from_legacy(c, w)),
                Err(e) => e == QueryError::Decode && (forall|w: wire::Contract| #[trigger] w.enc()
                    != raw->Some_0@) && (forall|w: legacy::Contract| #[trigger] w.enc() != raw->Some_0@),
            },
    {
        match Contract::from_storage(raw, Schema::Current) {
            Ok(c) => Ok(c),
            Err(_) => Contract::from_storage(raw, Schema::Legacy),
        }
    }
}

impl AccountData {
    /// The balances of an account from its raw stored value: every account
    /// lookup must resolve, so nothing stored is `NotFound`.
    pub fn from_storage(raw: &Option<Vec<u8>>) -> (r: Result<AccountData, QueryError>)
        ensures
            !holds_value(*raw) ==> r == Err::<AccountData, QueryError>(QueryError::NotFound),
            holds_value(*raw) ==> match r {
                Ok(d) => exists|i: AccountInfo| i.enc() == raw->Some_0@ && i.data == d,
                Err(e) => e == QueryError::Decode && forall|i: AccountInfo| #[trigger] i.enc()
                    != raw->Some_0@,
            },
    {
        AccountData::from_lookup(decode_present::<AccountInfo>(raw))
    }
}

/// The farm id that a name lookup's raw value holds: 0 where nothing is
/// stored.
pub fn farm_id_from_storage(raw: &Option<Vec<u8>>) -> (r: Result<u32, QueryError>)
    ensures
        !holds_value(*raw) ==> r == Ok::<u32, QueryError>(0),
        holds_value(*raw) ==> match r {
            Ok(id) => id.enc() == raw->Some_0@,
            Err(e) => e == QueryError::Decode && forall|id: u32| #[trigger] id.enc()
                != raw->Some_0@,
        },
{
    farm_id_from_lookup(decode_present::<u32>(raw))
}

/// The id a farm name lookup found: 0 where no farm has the name.
pub fn farm_id_from_lookup(found: Option<Result<u32, DecodeError>>) -> (r: Result<
    u32,
    QueryError,
>)
    ensures
        match found {
            None => r == Ok::<u32, QueryError>(0),
            Some(Err(_)) => r == Err::<u32, QueryError>(QueryError::Decode),
            Some(Ok(id)) => r == Ok::<u32, QueryError>(id),
        },
{
    match found {
        None => Ok(0),
        Some(Err(_)) => Err(QueryError::Decode),
        Some(Ok(id)) => Ok(id),
    }
}

// ------------------------------------------------------------- block hashes

pub open spec fn is_hex_digit(c: u8) -> bool {
    (48 <= c <= 57) || (65 <= c <= 70) || (97 <= c <= 102)
}

/// Value of a hexadecimal digit, either case.
pub open spec fn hex_value(c: u8) -> int {
    if 48 <= c <= 57 {
        c - 48
    } else if 65 <= c <= 70 {
        c - 55
    } else {
        c - 87
    }
}

/// 64 hexadecimal digits.
pub open spec fn is_hash_text(s: Seq<u8>) -> bool {
    s.len() == 64 && forall|i: int| 0 <= i < 64 ==> is_hex_digit(#[trigger] s[i])
}

/// The bytes that pairs of hexadecimal digits stand for, high digit first.
pub open spec fn hex_pairs(s: Seq<u8>) -> Seq<u8> {
    Seq::new(s.len() / 2, |i: int| (hex_value(s[2 * i]) * 16 + hex_value(s[2 * i + 1])) as u8)
}

/// Relies on `hex::decode_to_slice`: it fails unless the text has exactly
/// two digits per output byte and only hexadecimal digits, and fills byte
/// `i` from digits `2i` (high) and `2i + 1` (low).
#[verifier::external_body]
fn decode_hex_32(data: &[u8]) -> (r: Option<[u8; 32]>)
    ensures
        r is Some <==> is_hash_text(data@),
        r is Some ==> r->Some_0@ == hex_pairs(data@),
{
    let mut out = [0u8; 32];
    match hex::decode_to_slice(data, &mut out) {
        Ok(()) => Some(out),
        Err(_) => None,
    }
}

/// A copy of `b[start..end]`.
fn bytes_between(b: &[u8], start: usize, end: usize) -> (r: Vec<u8>)
    requires
        start <= end <= b@.len(),
    ensures
        r@ == b@.subrange(start as int, end as int),
{
    let mut r: Vec<u8> = Vec::new();
    let mut i: usize = start;
    while i < end
        invariant
            start <= i <= end,
            end <= b@.len(),
            r@ == b@.subrange(start as int, i as int),
        decreases end - i,
    {
        r.push(b[i]);
        i += 1;
        assert(r@ =~= b@.subrange(start as int, i as int));
    }
    r
}

/// `0x` as bytes.
pub open spec fn hex_prefix() -> Seq<u8> {
    seq![48u8, 120u8]
}

/// Reads exactly `0x` followed by 64 hexadecimal digits; any other text is
/// `InvalidHash`.
pub fn parse_block_hash(s: &str) -> (r: Result<H256, QueryError>)
    ensures
        ({
            let b = s.spec_bytes();
            if b.len() == 66 && b.subrange(0, 2) == hex_prefix() && is_hash_text(b.subrange(2, 66)) {
                r is Ok && r->Ok_0.bytes@ == hex_pairs(b.subrange(2, 66))
            } else {
                r == Err::<H256, QueryError>(QueryError::InvalidHash)
            }
        }),
{
    let b = s.as_bytes();
    if b.len() != 66 || b[0] != 48 || b[1] != 120 {
        proof {
            if b@.len() == 66 {
                assert(b@.subrange(0, 2)[0] == b@[0] && b@.subrange(0, 2)[1] == b@[1]);
            }
        }
        return Err(QueryError::InvalidHash);
    }
    assert(b@.subrange(0, 2) =~= hex_prefix());
    let digits = bytes_between(b, 2, 66);
    match decode_hex_32(digits.as_slice()) {
        Some(bytes) => Ok(H256 { bytes }),
        None => Err(QueryError::InvalidHash),
    }
}

pub open spec fn null_text() -> Seq<u8> {
    seq![110u8, 117u8, 108u8, 108u8]
}

/// `"0x` as bytes.
pub open spec fn quoted_hex_prefix() -> Seq<u8> {
    seq![34u8, 48u8, 120u8]
}

/// Reads the answer to a block hash request: exactly a JSON string `"0x`
/// followed by 64 hexadecimal digits and a closing quote. No answer, or
/// JSON `null` (a height beyond the chain's tip), is `NotFound`; any other
/// text is `InvalidHash`.
pub fn hash_from_rpc_result(resp: Option<&str>) -> (r: Result<H256, QueryError>)
    ensures
        match resp {
            None => r == Err::<H256, QueryError>(QueryError::NotFound),
            Some(s) => {
                let b = s.spec_bytes();
                if b == null_text() {
                    r == Err::<H256, QueryError>(QueryError::NotFound)
                } else if b.len() == 68 && b.subrange(0, 3) == quoted_hex_prefix() && b[67] == 34u8
                    && is_hash_text(b.subrange(3, 67)) {
                    r is Ok && r->Ok_0.bytes@ == hex_pairs(b.subrange(3, 67))
                } else {
                    r == Err::<H256, QueryError>(QueryError::InvalidHash)
                }
            },
        },
{
    match resp {
        None => Err(QueryError::NotFound),
        Some(s) => {
            let b = s.as_bytes();
            if b.len() == 4 && b[0] == 110 && b[1] == 117 && b[2] == 108 && b[3] == 108 {
                assert(b@ =~= null_text());
                return Err(QueryError::NotFound);
            }
            proof {
                if b@.len() != 4 {
                    assert(b@.len() != null_text().len());
                } else {
                    assert(b@ != null_text()) by {
                        if b@ == null_text() {
                            assert(b@[0] == 110 && b@[1] == 117 && b@[2] == 108 && b@[3] == 108);
                        }
                    }
                }
            }
            if b.len() != 68 || b[0] != 34 || b[1] != 48 || b[2] != 120 || b[67] != 34 {
                proof {
                    if b@.len() == 68 {
                        let p = b@.subrange(0, 3);
                        assert(p[0] == b@[0] && p[1] == b@[1] && p[2] == b@[2]);
                    }
                }
                return Err(QueryError::InvalidHash);
            }
            assert(b@.subrange(0, 3) =~= quoted_hex_prefix());
            let digits = bytes_between(b, 3, 67);
            match decode_hex_32(digits.as_slice()) {
                Some(bytes) => Ok(H256 { bytes }),
                None => Err(QueryError::InvalidHash),
            }
        },
    }
}

} // verus!
