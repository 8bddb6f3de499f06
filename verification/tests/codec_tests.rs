use simdev::codec::{
    decode_raw_message, decode_signed_message, encode_raw_message, encode_signed_message,
    u64_to_decimal,
};
use simdev::message::{MessageChannel, RawMessage, SignedMessage};

fn sample_raw() -> RawMessage {
    RawMessage {
        channel: MessageChannel::Normal(233),
        timestamp: 7,
        from_address: vec![0xaa; 20],
        to_address: vec![0u8; 20],
        encrypted: false,
        payload: vec![1, 2, 3],
        enc_iv: None,
    }
}

#[test]
fn raw_encoding_exact_bytes() {
    let bytes = encode_raw_message(&sample_raw()).unwrap();
    let mut expected: Vec<u8> = Vec::new();
    expected.push(0); // channel variant tag
    expected.extend_from_slice(&[233, 0, 0, 0]); // channel sub-id, little endian
    expected.extend_from_slice(&[7, 0, 0, 0, 0, 0, 0, 0]); // timestamp
    expected.extend_from_slice(&[20, 0, 0, 0]); // sender length
    expected.extend_from_slice(&[0xaa; 20]);
    expected.extend_from_slice(&[20, 0, 0, 0]); // destination length
    expected.extend_from_slice(&[0u8; 20]);
    expected.push(0); // not encrypted
    expected.extend_from_slice(&[3, 0, 0, 0]); // payload length
    expected.extend_from_slice(&[1, 2, 3]);
    expected.push(0); // no initialization vector
    assert_eq!(bytes, expected);
}

#[test]
fn raw_round_trip_plain_and_with_iv() {
    let plain = sample_raw();
    let bytes = encode_raw_message(&plain).unwrap();
    assert_eq!(decode_raw_message(&bytes).unwrap(), plain);

    let enc = RawMessage {
        channel: MessageChannel::Normal(0),
        timestamp: u64::MAX,
        from_address: vec![1; 20],
        to_address: vec![2; 20],
        encrypted: true,
        payload: vec![0xee; 48],
        enc_iv: Some(vec![9; 16]),
    };
    let bytes = encode_raw_message(&enc).unwrap();
    assert_eq!(decode_raw_message(&bytes).unwrap(), enc);

    let empty = RawMessage { payload: vec![], ..plain };
    let bytes = encode_raw_message(&empty).unwrap();
    assert_eq!(decode_raw_message(&bytes).unwrap(), empty);
}

#[test]
fn signed_round_trip() {
    let env = SignedMessage {
        raw: vec![1, 2, 3, 4],
        hash: vec![5; 32],
        nonce: 424242,
        signature: vec![6; 65],
        last_edge_addr: Some(vec![7; 20]),
    };
    let bytes = encode_signed_message(&env).unwrap();
    assert_eq!(decode_signed_message(&bytes).unwrap(), env);

    let bare = SignedMessage { last_edge_addr: None, ..env };
    let bytes = encode_signed_message(&bare).unwrap();
    assert_eq!(decode_signed_message(&bytes).unwrap(), bare);
}

#[test]
fn decoding_rejects_malformed_bytes() {
    let good = encode_raw_message(&sample_raw()).unwrap();

    let mut trailing = good.clone();
    trailing.push(0);
    assert!(decode_raw_message(&trailing).is_none());

    let mut truncated = good.clone();
    truncated.pop();
    assert!(decode_raw_message(&truncated).is_none());

    // The boolean field accepts only the bytes 0 and 1.
    let mut bad_bool = good.clone();
    let flag_index = 5 + 8 + 24 + 24;
    assert_eq!(bad_bool[flag_index], 0);
    bad_bool[flag_index] = 2;
    assert!(decode_raw_message(&bad_bool).is_none());

    // The option field accepts only the tags 0 and 1.
    let mut bad_opt = good.clone();
    let last = bad_opt.len() - 1;
    bad_opt[last] = 2;
    assert!(decode_raw_message(&bad_opt).is_none());

    // An unknown channel tag is rejected.
    let mut bad_channel = good;
    bad_channel[0] = 1;
    assert!(decode_raw_message(&bad_channel).is_none());

    assert!(decode_raw_message(&[]).is_none());
    assert!(decode_signed_message(&[]).is_none());
}

#[test]
fn decimal_rendering_exact() {
    assert_eq!(u64_to_decimal(0), b"0".to_vec());
    assert_eq!(u64_to_decimal(9), b"9".to_vec());
    assert_eq!(u64_to_decimal(10), b"10".to_vec());
    assert_eq!(u64_to_decimal(1_700_000_000), b"1700000000".to_vec());
    assert_eq!(u64_to_decimal(u64::MAX), b"18446744073709551615".to_vec());
}
