use tfchain_client::call::Call;
use tfchain_client::extrinsic::{signed_extrinsic, signing_payload};
use tfchain_client::types::{AccountId32, H256};

#[test]
fn short_payload_is_signed_as_is() {
    let call = Call::with_text(11, 4, "10.0.0.1").encode();
    let genesis = H256 { bytes: [0xaa; 32] };
    let p = signing_payload(&call, 5, 0, 101, 2, &genesis);
    let mut expected = call.clone();
    expected.extend([0u8, 5 << 2, 0]);
    expected.extend(101u32.to_le_bytes());
    expected.extend(2u32.to_le_bytes());
    expected.extend([0xaa; 64]);
    assert_eq!(p, expected);
}

#[test]
fn long_payload_is_signed_through_its_digest() {
    let call = Call::with_text(11, 4, &"x".repeat(300)).encode();
    let genesis = H256 { bytes: [1; 32] };
    let p = signing_payload(&call, 1, 0, 1, 1, &genesis);
    assert_eq!(p.len(), 32);
    assert_ne!(p, signing_payload(&call, 2, 0, 1, 1, &genesis));
}

#[test]
fn signed_extrinsic_layout() {
    let call = Call::with_text(11, 4, "ip").encode();
    let signer = AccountId32 { bytes: [0xd4; 32] };
    let x = signed_extrinsic(&signer, &[7u8; 64], 64, 0, &call).unwrap();
    let body_len = 2 + 32 + 1 + 64 + 1 + 2 + 1 + call.len();
    // two-byte compact length: body_len * 4 + 1, little-endian
    let prefix = (body_len as u16) * 4 + 1;
    assert_eq!(x[..2], prefix.to_le_bytes());
    assert_eq!(x.len(), 2 + body_len);
    assert_eq!(x[2..4], [0x84, 0]);
    assert_eq!(x[4..36], [0xd4; 32]);
    assert_eq!(x[36], 1);
    assert_eq!(x[37..101], [7u8; 64]);
    assert_eq!(x[101..105], [0, 0x01, 0x01, 0]);
    assert_eq!(x[105..], call[..]);
}
