//! Re-verifying envelopes: the exact inverse of the signer.
//!
//! `check_model` is the mathematical account of the ordered, fail-fast
//! checks; `check_message` reports exactly that outcome. The lemmas at the
//! end state the laws that tie the signer and the checker together.

use vstd::prelude::*;
use vstd::slice::slice_to_vec;
use crate::message::{MessageError, RawMessage, RawModel, SignedMessage, SignedModel};
use crate::codec::{
    d_raw, d_signed, dec_ascii, decode_raw_message, decode_signed_message, e_raw, e_signed,
    encodable_raw, encodable_signed, lemma_raw_round_trip, lemma_raw_sound,
    lemma_signed_round_trip, lemma_signed_sound,
};
use crate::keys::{
    content_hash, eth_addr_of, get_eth_address_bytes, keccak256, keccak_of, recover_of,
    recover_pubkey,
};
use crate::signer::well_signed;

verus! {

/// The exact outcome of checking wire bytes, in the order the checks run.
pub enum Outcome {
    /// Every check passed; the envelope and its raw record.
    Accept { env: SignedModel, raw: RawModel },
    /// The wire bytes are not a canonical envelope encoding.
    BadEnvelope,
    /// The stored hash differs from the hash of the raw bytes and the nonce.
    HashMismatch { expected: Seq<u8>, actual: Seq<u8> },
    /// The raw bytes are not a canonical record encoding.
    BadRaw,
    /// The record's timestamp differs from the envelope's nonce.
    NonceMismatch { outer: u64, inner: u64 },
    /// The signature is not exactly 65 bytes.
    BadSignatureLength { length: int },
    /// The trailing signature byte is not a valid recovery id.
    BadRecoveryId { value: u8 },
    /// No public key could be recovered from the signature.
    RecoveryFailed,
    /// The recovered signer address differs from the record's sender.
    SignerMismatch { expected: Seq<u8>, actual: Seq<u8> },
}

/// What checking `data` finds, stopping at the first failure.
pub open spec fn check_model(data: Seq<u8>) -> Outcome {
    match d_signed(data) {
        None => Outcome::BadEnvelope,
        Some(env) => {
            let computed = keccak_of(env.raw + dec_ascii(env.nonce));
            if env.hash != computed {
                Outcome::HashMismatch { expected: env.hash, actual: computed }
            } else {
                match d_raw(env.raw) {
                    None => Outcome::BadRaw,
                    Some(raw) => if env.nonce != raw.timestamp {
                        Outcome::NonceMismatch { outer: env.nonce, inner: raw.timestamp }
                    } else if env.signature.len() != 65 {
                        Outcome::BadSignatureLength { length: env.signature.len() as int }
                    } else if env.signature[64] > 3 {
                        Outcome::BadRecoveryId { value: env.signature[64] }
                    } else {
                        match recover_of(keccak_of(env.hash), env.signature) {
                            None => Outcome::RecoveryFailed,
                            Some(pk) => {
                                let addr = eth_addr_of(pk);
                                if raw.from_address != addr {
                                    Outcome::SignerMismatch {
                                        expected: raw.from_address,
                                        actual: addr,
                                    }
                                } else {
                                    Outcome::Accept { env, raw }
                                }
                            },
                        }
                    },
                }
            }
        },
    }
}

/// How an executable result reports an outcome: accepted records match the
/// model, and each error carries the outcome's own values. Both decode
/// failures surface as `DecodeError`.
pub open spec fn reports(
    r: Result<(SignedMessage, RawMessage), MessageError>,
    o: Outcome,
) -> bool {
    match r {
        Ok(p) => o == (Outcome::Accept { env: p.0@, raw: p.1@ }),
        Err(e) => match e {
            MessageError::DecodeError => o is BadEnvelope || o is BadRaw,
            MessageError::HashMismatch { expected, actual } => o == (Outcome::HashMismatch {
                expected: expected@,
                actual: actual@,
            }),
            MessageError::NonceMismatch { outer, inner } => o == (Outcome::NonceMismatch {
                outer,
                inner,
            }),
            MessageError::BadSignatureLength { length } => o == (Outcome::BadSignatureLength {
                length: length as int,
            }),
            MessageError::BadRecoveryId { value } => o == (Outcome::BadRecoveryId { value }),
            MessageError::RecoveryError => o is RecoveryFailed,
            MessageError::SignatureMismatch { expected, actual } => o == (Outcome::SignerMismatch {
                expected: expected@,
                actual: actual@,
            }),
            _ => false,
        },
    }
}

fn bytes_eq(a: &[u8], b: &[u8]) -> (r: bool)
    ensures
        r == (a@ == b@),
{
    if a.len() != b.len() {
        assert(a@ != b@);
        return false;
    }
    let mut i: usize = 0;
    while i < a.len()
        invariant
            a@.len() == b@.len(),
            i <= a@.len(),
            forall|j: int| 0 <= j < i ==> a@[j] == b@[j],
        decreases a@.len() - i,
    {
        if a[i] != b[i] {
            return false;
        }
        i = i + 1;
    }
    proof {
        assert(a@ =~= b@);
    }
    true
}

/// Check wire bytes, in order: decode the envelope; recompute the binding
/// hash over the raw bytes and the decimal nonce; decode the raw record;
/// match its timestamp against the nonce; take the signature apart; recover
/// the signer's public key from the double hash; and compare the derived
/// address with the record's sender. Stops at the first failing check.
pub fn check_message(data: &[u8]) -> (r: Result<(SignedMessage, RawMessage), MessageError>)
    ensures
        reports(r, check_model(data@)),
{
    let env = match decode_signed_message(data) {
        Some(e) => e,
        None => {
            return Err(MessageError::DecodeError);
        },
    };
    let computed = content_hash(env.raw.as_slice(), env.nonce);
    if !bytes_eq(env.hash.as_slice(), computed.as_slice()) {
        return Err(MessageError::HashMismatch { expected: env.hash, actual: computed });
    }
    let raw_msg = match decode_raw_message(env.raw.as_slice()) {
        Some(m) => m,
        None => {
            return Err(MessageError::DecodeError);
        },
    };
    if env.nonce != raw_msg.timestamp {
        return Err(MessageError::NonceMismatch { outer: env.nonce, inner: raw_msg.timestamp });
    }
    if env.signature.len() != 65 {
        return Err(MessageError::BadSignatureLength { length: env.signature.len() });
    }
    let recid = env.signature[64];
    if recid > 3 {
        return Err(MessageError::BadRecoveryId { value: recid });
    }
    let digest = keccak256(env.hash.as_slice());
    let recovered = match recover_pubkey(digest.as_slice(), env.signature.as_slice()) {
        Some(k) => k,
        None => {
            return Err(MessageError::RecoveryError);
        },
    };
    let recovered_addr = get_eth_address_bytes(&recovered);
    if !bytes_eq(raw_msg.from_address.as_slice(), recovered_addr.as_slice()) {
        let expected = slice_to_vec(raw_msg.from_address.as_slice());
        return Err(MessageError::SignatureMismatch { expected, actual: recovered_addr });
    }
    Ok((env, raw_msg))
}

// ---------------------------------------------------------------------------
// Laws.
// ---------------------------------------------------------------------------

/// Round trip: an envelope that the signer produced, serialized and checked,
/// passes every check and yields the same envelope and raw record back.
pub proof fn lemma_round_trip(env: SignedModel, raw: RawModel, pk: Seq<u8>)
    requires
        well_signed(env, raw, pk),
        encodable_signed(env),
        encodable_raw(raw),
    ensures
        check_model(e_signed(env)) == (Outcome::Accept { env, raw }),
{
    lemma_signed_round_trip(env);
    lemma_raw_round_trip(raw);
}

/// Nonce binding: an envelope whose raw record decodes but carries a
/// timestamp other than the envelope's nonce is rejected with a hash or
/// nonce mismatch, never accepted.
pub proof fn lemma_nonce_binding(data: Seq<u8>, env: SignedModel, raw: RawModel)
    requires
        d_signed(data) == Some(env),
        d_raw(env.raw) == Some(raw),
        raw.timestamp != env.nonce,
    ensures
        check_model(data) is HashMismatch || check_model(data) is NonceMismatch,
{
}

/// Hash binding: an envelope whose stored hash is not the hash of its raw
/// bytes and decimal nonce is rejected with exactly a hash mismatch.
pub proof fn lemma_hash_binding(data: Seq<u8>, env: SignedModel)
    requires
        d_signed(data) == Some(env),
        env.hash != keccak_of(env.raw + dec_ascii(env.nonce)),
    ensures
        check_model(data) == (Outcome::HashMismatch {
            expected: env.hash,
            actual: keccak_of(env.raw + dec_ascii(env.nonce)),
        }),
{
}

/// Tamper detection, hash field: replacing the stored hash of a well-signed
/// envelope with any other value is caught as a hash mismatch.
pub proof fn lemma_tampered_hash(
    env: SignedModel,
    raw: RawModel,
    pk: Seq<u8>,
    env2: SignedModel,
)
    requires
        well_signed(env, raw, pk),
        encodable_signed(env2),
        env2 == (SignedModel { hash: env2.hash, ..env }),
        env2.hash != env.hash,
    ensures
        check_model(e_signed(env2)) is HashMismatch,
{
    lemma_signed_round_trip(env2);
}

/// Tamper detection, nonce field: replacing the nonce of a well-signed
/// envelope with any other value is caught as a hash or nonce mismatch.
pub proof fn lemma_tampered_nonce(
    env: SignedModel,
    raw: RawModel,
    pk: Seq<u8>,
    env2: SignedModel,
)
    requires
        well_signed(env, raw, pk),
        encodable_signed(env2),
        encodable_raw(raw),
        env2 == (SignedModel { nonce: env2.nonce, ..env }),
        env2.nonce != env.nonce,
    ensures
        check_model(e_signed(env2)) is HashMismatch || check_model(e_signed(env2))
            is NonceMismatch,
{
    lemma_signed_round_trip(env2);
    if check_model(e_signed(env2)) is HashMismatch {
    } else {
        lemma_raw_round_trip(raw);
    }
}

/// What acceptance means: accepted wire bytes are exactly the canonical
/// encoding of the returned envelope, whose raw bytes encode the returned
/// record; the stored hash is the hash of raw bytes and decimal nonce; the
/// nonce is the record's timestamp; and the signer address recovered from
/// the signature over the double hash is the record's sender.
pub proof fn lemma_accept_sound(data: Seq<u8>, env: SignedModel, raw: RawModel)
    requires
        check_model(data) == (Outcome::Accept { env, raw }),
    ensures
        e_signed(env) == data,
        e_raw(raw) == env.raw,
        env.hash == keccak_of(env.raw + dec_ascii(env.nonce)),
        env.nonce == raw.timestamp,
        env.signature.len() == 65,
        env.signature[64] <= 3,
        recover_of(keccak_of(env.hash), env.signature) matches Some(pk) && raw.from_address
            == eth_addr_of(pk),
{
    lemma_signed_sound(data, env);
    lemma_raw_sound(env.raw, raw);
}

/// Address derivation is deterministic: the address is a function of the
/// public key bytes alone, so equal keys always yield equal addresses.
pub proof fn lemma_address_deterministic(pk1: Seq<u8>, pk2: Seq<u8>)
    requires
        pk1 == pk2,
    ensures
        eth_addr_of(pk1) == eth_addr_of(pk2),
{
}

} // verus!
