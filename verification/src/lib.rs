//! Authenticated device telemetry messages.
//!
//! A signer assembles a raw message record, binds it to a content hash and a
//! nonce, and signs the double-hashed digest with a recoverable ECDSA
//! signature; any holder of the wire bytes can re-verify the envelope and
//! recover the signer's network address. Payloads may be end-to-end encrypted
//! to a recipient key.

pub mod message;
pub mod codec;
pub mod keys;
pub mod signer;
pub mod check;
pub mod nostr;
