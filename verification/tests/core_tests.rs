use simdev::check::check_message;
use simdev::codec::{decode_raw_message, encode_raw_message, encode_signed_message};
use simdev::keys::{
    content_hash, did_str_to_addr_bytes, get_eth_address, get_eth_address_bytes,
    parse_signing_key, random_signing_key, ToRingsDIDString,
};
use simdev::message::{MessageChannel, MessageError, SignedMessage};
use simdev::nostr::{default_filter, default_kind, EventKind};
use simdev::signer::DephySigningKey;

const KEY_A: &str = "4c0883a69102937d6231471b5dbb6204fe5129617082792ae468d01a3f362318";
const KEY_B: &str = "6c3699283bda56ad74f6b855546325b68d482e983852a7a82979cc4807b3b1f4";

#[test]
fn scenario_normal_unencrypted() {
    let sk = random_signing_key();
    let (env, raw) = sk
        .create_message(MessageChannel::Normal(233), vec![0x01, 0x02, 0x03], None, None)
        .unwrap();
    assert!(!raw.encrypted);
    assert_eq!(raw.enc_iv, None);
    assert_eq!(raw.to_address, vec![0u8; 20]);
    assert_eq!(raw.from_address, get_eth_address_bytes(&sk.public_key()));
    assert_eq!(raw.payload, vec![0x01, 0x02, 0x03]);
    assert_eq!(env.signature.len(), 65);
    assert_eq!(env.nonce, raw.timestamp);
    assert!(raw.timestamp > 1_000_000_000);
    let bytes = encode_signed_message(&env).unwrap();
    let (env2, raw2) = check_message(&bytes).unwrap();
    assert_eq!(env2, env);
    assert_eq!(raw2, raw);
}

#[test]
fn round_trip_encrypted() {
    let alice = parse_signing_key(KEY_A).unwrap();
    let bob = parse_signing_key(KEY_B).unwrap();
    let bob_pub = bob.public_key();
    let payload = vec![0xde, 0xad, 0xbe, 0xef, 0x00, 0x11];
    let (env, raw) = alice
        .create_message(MessageChannel::Normal(233), payload.clone(), None, Some(&bob_pub))
        .unwrap();
    assert!(raw.encrypted);
    assert_eq!(raw.enc_iv.as_ref().unwrap().len(), 16);
    assert_eq!(raw.to_address, get_eth_address_bytes(&bob_pub));
    assert_ne!(raw.payload, payload);
    let bytes = encode_signed_message(&env).unwrap();
    let (_, raw2) = check_message(&bytes).unwrap();
    assert_eq!(raw2, raw);
    let plain = bob.decrypt_payload(&alice.public_key(), &raw2).unwrap();
    assert_eq!(plain, payload);
}

#[test]
fn tamper_every_signed_byte() {
    let sk = parse_signing_key(KEY_A).unwrap();
    let (env, _) = sk
        .create_message_at(
            MessageChannel::Normal(233),
            vec![5, 6, 7, 8],
            None,
            None,
            None,
            1_700_000_000,
        )
        .unwrap();
    let bytes = encode_signed_message(&env).unwrap();
    assert!(check_message(&bytes).is_ok());
    // The trailing 25 bytes encode `last_edge_addr`, the one field a relay
    // may rewrite in transit; every byte of raw, hash, nonce and signature
    // must be caught.
    let guarded = bytes.len() - 25;
    for i in 0..guarded {
        let mut tampered = bytes.clone();
        tampered[i] ^= 0x01;
        assert!(check_message(&tampered).is_err(), "flip at byte {} was accepted", i);
    }
}

#[test]
fn nonce_mismatch_is_reported() {
    let sk = parse_signing_key(KEY_A).unwrap();
    let (env, _) = sk
        .create_message_at(MessageChannel::Normal(1), vec![9], None, None, None, 1000)
        .unwrap();
    let new_hash = content_hash(&env.raw, 1001);
    let env2 = SignedMessage {
        raw: env.raw.clone(),
        hash: new_hash,
        nonce: 1001,
        signature: env.signature.clone(),
        last_edge_addr: env.last_edge_addr.clone(),
    };
    let bytes = encode_signed_message(&env2).unwrap();
    match check_message(&bytes) {
        Err(MessageError::NonceMismatch { outer, inner }) => {
            assert_eq!(outer, 1001);
            assert_eq!(inner, 1000);
        },
        other => panic!("expected a nonce mismatch, got {:?}", other),
    }
}

#[test]
fn hash_mismatch_is_reported() {
    let sk = parse_signing_key(KEY_A).unwrap();
    let (env, _) = sk
        .create_message_at(MessageChannel::Normal(1), vec![9], None, None, None, 1000)
        .unwrap();
    let env2 = SignedMessage { hash: vec![0u8; 32], ..env.clone() };
    let bytes = encode_signed_message(&env2).unwrap();
    match check_message(&bytes) {
        Err(MessageError::HashMismatch { expected, actual }) => {
            assert_eq!(expected, vec![0u8; 32]);
            assert_eq!(actual, content_hash(&env.raw, env.nonce));
        },
        other => panic!("expected a hash mismatch, got {:?}", other),
    }
}

#[test]
fn bad_signature_length_is_reported() {
    let sk = parse_signing_key(KEY_A).unwrap();
    let (env, _) = sk
        .create_message_at(MessageChannel::Normal(1), vec![9], None, None, None, 1000)
        .unwrap();
    let mut sig = env.signature.clone();
    sig.pop();
    let env2 = SignedMessage { signature: sig, ..env };
    let bytes = encode_signed_message(&env2).unwrap();
    match check_message(&bytes) {
        Err(MessageError::BadSignatureLength { length }) => assert_eq!(length, 64),
        other => panic!("expected a signature length error, got {:?}", other),
    }
}

#[test]
fn bad_recovery_id_is_reported() {
    let sk = parse_signing_key(KEY_A).unwrap();
    let (env, _) = sk
        .create_message_at(MessageChannel::Normal(1), vec![9], None, None, None, 1000)
        .unwrap();
    let mut sig = env.signature.clone();
    sig[64] = 7;
    let env2 = SignedMessage { signature: sig, ..env };
    let bytes = encode_signed_message(&env2).unwrap();
    match check_message(&bytes) {
        Err(MessageError::BadRecoveryId { value }) => assert_eq!(value, 7),
        other => panic!("expected a recovery id error, got {:?}", other),
    }
}

#[test]
fn recovery_error_is_reported() {
    let sk = parse_signing_key(KEY_A).unwrap();
    let (env, _) = sk
        .create_message_at(MessageChannel::Normal(1), vec![9], None, None, None, 1000)
        .unwrap();
    let env2 = SignedMessage { signature: vec![0u8; 65], ..env };
    let bytes = encode_signed_message(&env2).unwrap();
    match check_message(&bytes) {
        Err(MessageError::RecoveryError) => {},
        other => panic!("expected a recovery error, got {:?}", other),
    }
}

#[test]
fn wrong_sender_is_rejected() {
    let alice = parse_signing_key(KEY_A).unwrap();
    let bob = parse_signing_key(KEY_B).unwrap();
    let (env, _) = alice
        .create_message_at(MessageChannel::Normal(1), vec![9], None, None, None, 1000)
        .unwrap();
    let mut raw = decode_raw_message(&env.raw).unwrap();
    raw.from_address = get_eth_address_bytes(&bob.public_key());
    let raw_bytes = encode_raw_message(&raw).unwrap();
    let hash = content_hash(&raw_bytes, env.nonce);
    let env2 = SignedMessage { raw: raw_bytes, hash, ..env };
    let bytes = encode_signed_message(&env2).unwrap();
    match check_message(&bytes) {
        Err(MessageError::SignatureMismatch { expected, .. }) => {
            assert_eq!(expected, get_eth_address_bytes(&bob.public_key()));
        },
        Err(MessageError::RecoveryError) => {},
        other => panic!("expected the signer check to fail, got {:?}", other),
    }
}

#[test]
fn address_known_vector() {
    let sk = parse_signing_key("0000000000000000000000000000000000000000000000000000000000000001")
        .unwrap();
    assert_eq!(
        get_eth_address(&sk.public_key()),
        "0x7e5f4552091a69125d5dfcb7b8c2659029395bdf"
    );
}

#[test]
fn address_is_deterministic_and_distinct() {
    let a = random_signing_key();
    let b = random_signing_key();
    let addr1 = get_eth_address_bytes(&a.public_key());
    let addr2 = get_eth_address_bytes(&a.public_key());
    assert_eq!(addr1, addr2);
    assert_eq!(addr1.len(), 20);
    assert_ne!(addr1, get_eth_address_bytes(&b.public_key()));
    assert_eq!(a.eth_addr(), addr1);
    let hex = a.eth_addr_string();
    assert_eq!(hex.len(), 40);
    assert_eq!(get_eth_address(&a.public_key()), format!("0x{}", hex));
}

#[test]
fn parse_signing_key_errors() {
    match parse_signing_key("zz") {
        Err(MessageError::DecodeError) => {},
        Err(other) => panic!("expected a decode error, got {:?}", other),
        Ok(_) => panic!("expected a decode error, got a key"),
    }
    match parse_signing_key("abcd") {
        Err(MessageError::CryptoError) => {},
        Err(other) => panic!("expected a crypto error, got {:?}", other),
        Ok(_) => panic!("expected a crypto error, got a key"),
    }
    let zeros = "0000000000000000000000000000000000000000000000000000000000000000";
    match parse_signing_key(zeros) {
        Err(MessageError::CryptoError) => {},
        Err(other) => panic!("expected a crypto error for the zero scalar, got {:?}", other),
        Ok(_) => panic!("expected a crypto error for the zero scalar, got a key"),
    }
    let sk = parse_signing_key(KEY_A).unwrap();
    let again = parse_signing_key(KEY_A).unwrap();
    assert_eq!(sk.eth_addr(), again.eth_addr());
}

#[test]
fn parse_signing_key_pads_short_encodings() {
    // The scalar parser left-pads encodings of 24 to 31 bytes with zeros, so
    // 48 digits of the scalar one name the same key as the full 64 digits.
    let short = "000000000000000000000000000000000000000000000001";
    let full = "0000000000000000000000000000000000000000000000000000000000000001";
    let a = parse_signing_key(short).unwrap();
    let b = parse_signing_key(full).unwrap();
    assert_eq!(a.eth_addr(), b.eth_addr());
    // 23 bytes is below the minimum the parser accepts.
    let too_short = "0000000000000000000000000000000000000000000001";
    assert!(parse_signing_key(too_short).is_err());
}

#[test]
fn did_string_round_trip() {
    let addr = vec![0xab; 20];
    let did = addr.to_did_string();
    assert_eq!(did, format!("0x{}", "ab".repeat(20)));
    let full = format!("did:dephy:{}", did);
    assert_eq!(did_str_to_addr_bytes(&full).unwrap(), addr);
}

#[test]
fn did_string_errors() {
    assert!(did_str_to_addr_bytes("not a did").is_err());
    assert!(did_str_to_addr_bytes("did:dephy:0x1234").is_err());
    let bad_hex = format!("did:dephy:0x{}", "zz".repeat(20));
    assert!(did_str_to_addr_bytes(&bad_hex).is_err());
    let no_prefix = format!("xid:dephy:0x{}", "ab".repeat(20));
    assert!(did_str_to_addr_bytes(&no_prefix).is_err());
}

#[test]
fn default_kind_and_filter() {
    assert_eq!(default_kind(), EventKind::Regular(1111));
    let f = default_filter(None);
    assert_eq!(f.kind, EventKind::Regular(1111));
    assert_eq!(f.tag_letter, 'c');
    assert_eq!(f.tag_values, vec!["dephy".to_string()]);
    let g = default_filter(Some(EventKind::Regular(42)));
    assert_eq!(g.kind, EventKind::Regular(42));
}

#[test]
fn caller_supplied_destination_is_kept() {
    let sk = parse_signing_key(KEY_B).unwrap();
    let to = vec![0x11; 20];
    let (env, raw) = sk
        .create_message_at(
            MessageChannel::Normal(5),
            vec![1],
            Some(to.clone()),
            None,
            None,
            77,
        )
        .unwrap();
    assert_eq!(raw.to_address, to);
    assert_eq!(raw.timestamp, 77);
    assert_eq!(env.nonce, 77);
    assert_eq!(env.last_edge_addr.as_ref().unwrap(), &raw.from_address);
    let bytes = encode_signed_message(&env).unwrap();
    assert!(check_message(&bytes).is_ok());
}
