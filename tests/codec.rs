use tfchain_client::call::Call;
use tfchain_client::query::{
    decode_exact, farm_id_from_lookup, farm_id_from_storage, hash_from_rpc_result, parse_block_hash, DecodeError,
    QueryError,
};
use tfchain_client::layout::encode_le;
use tfchain_client::scale::encode_bytes;
use tfchain_client::storage::{account_key, events_key, farm_key, storage_value_key, twin_key};
use tfchain_client::submit::{next_step, Step, SubmissionError, TxStatus, WatchEvent};
use tfchain_client::types::{AccountData, AccountId32, AccountInfo, H256};

fn hex_of(b: &[u8]) -> String {
    b.iter().map(|x| format!("{:02x}", x)).collect()
}

#[test]
fn call_payload_round_trips() {
    let c = Call::with_text(11, 4, "10.0.0.1");
    let bytes = c.encode();
    assert_eq!(bytes[..3], [11, 4, 8 << 2]);
    assert_eq!(Call::decode(&bytes), Some(c));
}

#[test]
fn call_payload_with_two_byte_length() {
    let text = "a".repeat(64);
    let c = Call::with_text(1, 2, &text);
    let bytes = c.encode();
    assert_eq!(bytes[..4], [1, 2, 0x01, 0x01]);
    assert_eq!(bytes.len(), 4 + 64);
    assert_eq!(Call::decode(&bytes), Some(c));
}

#[test]
fn malformed_call_payloads_are_rejected() {
    assert_eq!(Call::decode(&[1]), None);
    assert_eq!(Call::decode(&[1, 2, 8, 0x61]), None);
    assert_eq!(Call::decode(&[1, 2, 4, 0x61, 0x62]), None);
    // one-byte value written in the two-byte form
    assert_eq!(Call::decode(&[1, 2, 0x05, 0x00, 0x61]), None);
}

#[test]
fn integers_encode_little_endian() {
    assert_eq!(encode_le(0x0102_0304, 4), vec![4, 3, 2, 1]);
    assert_eq!(encode_le(1, 8), vec![1, 0, 0, 0, 0, 0, 0, 0]);
    assert_eq!(encode_bytes(b"ab"), vec![8, 0x61, 0x62]);
}

#[test]
fn storage_keys_hash_module_and_item() {
    assert_eq!(
        hex_of(&events_key()),
        "26aa394eea5630e07c48ae0c9558cef780d41e5e16056765bc8461851072c9d7"
    );
    assert_eq!(events_key(), storage_value_key("System", "Events"));
    let acct = AccountId32 { bytes: [0xd4; 32] };
    let k = account_key(&acct);
    assert_eq!(k.len(), 80);
    assert_eq!(
        hex_of(&k[..32]),
        "26aa394eea5630e07c48ae0c9558cef7b99d880ec681799c0cf30e8886371da9"
    );
    assert_eq!(k[48..], [0xd4; 32]);
}

#[test]
fn map_keys_append_the_encoded_id() {
    let t = twin_key(1);
    assert_eq!(t.len(), 32 + 16 + 4);
    assert_eq!(t[48..], [1, 0, 0, 0]);
    assert_ne!(twin_key(1), farm_key(1));
    assert_ne!(twin_key(1)[32..48], twin_key(2)[32..48]);
}

#[test]
fn balance_lookup_requires_a_value() {
    assert_eq!(AccountData::from_lookup(None), Err(QueryError::NotFound));
    assert_eq!(AccountData::from_lookup(Some(Err(DecodeError))), Err(QueryError::Decode));
}

#[test]
fn funded_account_has_positive_free_balance() {
    let info = AccountInfo {
        nonce: 0,
        consumers: 0,
        providers: 1,
        sufficients: 0,
        data: AccountData {
            free: 1_152_921_504_606_846_976,
            reserved: 0,
            misc_frozen: 0,
            fee_frozen: 0,
        },
    };
    let data = AccountData::from_lookup(Some(Ok(info))).unwrap();
    assert!(data.free > 0);
    assert_eq!(data.free, 1_152_921_504_606_846_976);
}

#[test]
fn farm_id_lookup_defaults_to_zero() {
    assert_eq!(farm_id_from_lookup(None), Ok(0));
    assert_eq!(farm_id_from_lookup(Some(Ok(17))), Ok(17));
    assert_eq!(farm_id_from_lookup(Some(Err(DecodeError))), Err(QueryError::Decode));
}

#[test]
fn block_hash_text_is_parsed() {
    let text = format!("0x{}", "ab".repeat(31) + "0F");
    let h = parse_block_hash(&text).unwrap();
    assert_eq!(h.bytes[0], 0xab);
    assert_eq!(h.bytes[31], 0x0f);
    assert_eq!(parse_block_hash("0x12"), Err(QueryError::InvalidHash));
    assert_eq!(parse_block_hash("0"), Err(QueryError::InvalidHash));
    let bad = format!("0x{}", "zz".repeat(32));
    assert_eq!(parse_block_hash(&bad), Err(QueryError::InvalidHash));
}

#[test]
fn block_hash_needs_the_0x_prefix() {
    let digits = "ab".repeat(32);
    assert_eq!(parse_block_hash(&format!("zz{}", digits)), Err(QueryError::InvalidHash));
    assert_eq!(parse_block_hash(&digits[..64]), Err(QueryError::InvalidHash));
    assert_eq!(parse_block_hash(&format!("0x{}00", digits)), Err(QueryError::InvalidHash));
}

#[test]
fn rpc_hash_answers() {
    let answer = format!("\"0x{}\"", "01".repeat(32));
    assert_eq!(hash_from_rpc_result(Some(&answer)), Ok(H256 { bytes: [1u8; 32] }));
    assert_eq!(hash_from_rpc_result(Some("null")), Err(QueryError::NotFound));
    assert_eq!(hash_from_rpc_result(None), Err(QueryError::NotFound));
    assert_eq!(hash_from_rpc_result(Some("\"0x01\"")), Err(QueryError::InvalidHash));
    let no_quote = format!("x0x{}\"", "01".repeat(32));
    assert_eq!(hash_from_rpc_result(Some(&no_quote)), Err(QueryError::InvalidHash));
    let unclosed = format!("\"0x{}x", "01".repeat(32));
    assert_eq!(hash_from_rpc_result(Some(&unclosed)), Err(QueryError::InvalidHash));
    let longer = format!("\"0x{}\" ", "01".repeat(32));
    assert_eq!(hash_from_rpc_result(Some(&longer)), Err(QueryError::InvalidHash));
}

#[test]
fn submission_waits_for_the_requested_status() {
    let h = H256 { bytes: [9u8; 32] };
    assert_eq!(next_step(TxStatus::Ready, WatchEvent::Ready), Step::Done(None));
    assert_eq!(next_step(TxStatus::InBlock, WatchEvent::Ready), Step::Wait);
    assert_eq!(next_step(TxStatus::InBlock, WatchEvent::InBlock(h)), Step::Done(Some(h)));
    assert_eq!(next_step(TxStatus::Finalized, WatchEvent::InBlock(h)), Step::Wait);
    assert_eq!(next_step(TxStatus::Finalized, WatchEvent::Finalized(h)), Step::Done(Some(h)));
    assert_eq!(
        next_step(TxStatus::Finalized, WatchEvent::Dropped),
        Step::Fail(SubmissionError::Dropped)
    );
    assert_eq!(
        next_step(TxStatus::Ready, WatchEvent::Invalid),
        Step::Fail(SubmissionError::Invalid)
    );
    assert_eq!(next_step(TxStatus::Ready, WatchEvent::Broadcast), Step::Wait);
}

fn account_record(free: u128) -> Vec<u8> {
    let mut b = Vec::new();
    for counter in [5u32, 1, 2, 0] {
        b.extend_from_slice(&counter.to_le_bytes());
    }
    for balance in [free, 7u128, 0, 3] {
        b.extend_from_slice(&balance.to_le_bytes());
    }
    b
}

#[test]
fn account_record_decodes_field_by_field() {
    let info = decode_exact::<AccountInfo>(&account_record(1_000_000_000_000)).unwrap();
    assert_eq!((info.nonce, info.consumers, info.providers, info.sufficients), (5, 1, 2, 0));
    assert_eq!(info.data.free, 1_000_000_000_000);
    assert_eq!(info.data.reserved, 7);
    assert_eq!(info.data.fee_frozen, 3);
    assert!(decode_exact::<AccountInfo>(&account_record(1)[..79]).is_err());
    let mut longer = account_record(1);
    longer.push(0);
    assert!(decode_exact::<AccountInfo>(&longer).is_err());
}

#[test]
fn balance_from_storage_needs_a_value() {
    assert_eq!(AccountData::from_storage(&None), Err(QueryError::NotFound));
    assert_eq!(AccountData::from_storage(&Some(vec![])), Err(QueryError::NotFound));
    assert_eq!(AccountData::from_storage(&Some(vec![1, 2, 3])), Err(QueryError::Decode));
    let data = AccountData::from_storage(&Some(account_record(u128::MAX))).unwrap();
    assert_eq!(data.free, u128::MAX);
    assert!(data.free > 0);
}

#[test]
fn farm_id_from_storage_defaults_to_zero() {
    assert_eq!(farm_id_from_storage(&None), Ok(0));
    assert_eq!(farm_id_from_storage(&Some(vec![])), Ok(0));
    assert_eq!(farm_id_from_storage(&Some(vec![0x2a, 0, 0, 0])), Ok(42));
    assert_eq!(farm_id_from_storage(&Some(vec![0x2a, 0])), Err(QueryError::Decode));
}
