//! The two wire records and their mathematical models.

use vstd::prelude::*;

verus! {

/// Logical topic of a message: a kind tag with a numeric sub-id.
#[derive(Clone, Copy, Debug, PartialEq, Eq, Structural)]
pub enum MessageChannel {
    Normal(u32),
}

/// The inner record: what the signer vouches for.
///
/// `enc_iv` is present exactly when `encrypted` holds; `payload` is then the
/// ciphertext of the caller's plaintext.
#[derive(Clone, Debug, PartialEq, Eq)]
pub struct RawMessage {
    pub channel: MessageChannel,
    pub timestamp: u64,
    pub from_address: Vec<u8>,
    pub to_address: Vec<u8>,
    pub encrypted: bool,
    pub payload: Vec<u8>,
    pub enc_iv: Option<Vec<u8>>,
}

/// The wire envelope: the canonically encoded `RawMessage` together with its
/// binding hash, nonce and recoverable signature. `last_edge_addr` is a
/// provenance stamp that relays may overwrite in transit.
#[derive(Clone, Debug, PartialEq, Eq)]
pub struct SignedMessage {
    pub raw: Vec<u8>,
    pub hash: Vec<u8>,
    pub nonce: u64,
    pub signature: Vec<u8>,
    pub last_edge_addr: Option<Vec<u8>>,
}

/// Model of `RawMessage`: byte fields as sequences.
pub struct RawModel {
    pub channel: MessageChannel,
    pub timestamp: u64,
    pub from_address: Seq<u8>,
    pub to_address: Seq<u8>,
    pub encrypted: bool,
    pub payload: Seq<u8>,
    pub enc_iv: Option<Seq<u8>>,
}

/// Model of `SignedMessage`: byte fields as sequences.
pub struct SignedModel {
    pub raw: Seq<u8>,
    pub hash: Seq<u8>,
    pub nonce: u64,
    pub signature: Seq<u8>,
    pub last_edge_addr: Option<Seq<u8>>,
}

impl View for RawMessage {
    type V = RawModel;

    open spec fn view(&self) -> RawModel {
        RawModel {
            channel: self.channel,
            timestamp: self.timestamp,
            from_address: self.from_address@,
            to_address: self.to_address@,
            encrypted: self.encrypted,
            payload: self.payload@,
            enc_iv: match self.enc_iv {
                Some(iv) => Some(iv@),
                None => None,
            },
        }
    }
}

impl View for SignedMessage {
    type V = SignedModel;

    open spec fn view(&self) -> SignedModel {
        SignedModel {
            raw: self.raw@,
            hash: self.hash@,
            nonce: self.nonce,
            signature: self.signature@,
            last_edge_addr: match self.last_edge_addr {
                Some(a) => Some(a@),
                None => None,
            },
        }
    }
}

/// Everything that can go wrong while building or checking a message.
#[derive(Clone, Debug, PartialEq, Eq)]
pub enum MessageError {
    /// The wire bytes, or the inner raw bytes, are not a canonical encoding.
    DecodeError,
    /// The stored hash differs from the hash recomputed over `raw` and `nonce`.
    HashMismatch { expected: Vec<u8>, actual: Vec<u8> },
    /// The envelope nonce differs from the raw record's timestamp.
    NonceMismatch { outer: u64, inner: u64 },
    /// The signature is not exactly 65 bytes.
    BadSignatureLength { length: usize },
    /// The trailing signature byte is not a valid recovery id.
    BadRecoveryId { value: u8 },
    /// No public key could be recovered from the signature.
    RecoveryError,
    /// The recovered signer address differs from the raw record's sender.
    SignatureMismatch { expected: Vec<u8>, actual: Vec<u8> },
    /// A curve operation or the canonical encoding failed.
    CryptoError,
    /// The random source could not produce an initialization vector.
    RandomSourceError,
}

} // verus!
