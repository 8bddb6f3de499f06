//! Assembling, hashing and signing envelopes.
//!
//! The deterministic core is `create_message_at`, which takes the timestamp
//! and (when encrypting) the initialization vector as arguments;
//! `create_message` draws them from the wall clock and the system random
//! source and is exact relative to whatever they returned.

use vstd::prelude::*;
use vstd::slice::slice_to_vec;
use crate::message::{MessageChannel, MessageError, RawMessage, RawModel, SignedMessage, SignedModel};
use crate::codec::{dec_ascii, e_raw, encodable_signed, encode_raw, raw_size, LEN_LIMIT};
use crate::keys::{
    aes_cbc_decrypt, aes_cbc_encrypt, content_hash, eth_addr_of, fresh_iv, get_eth_address_bytes,
    hex_encode, hex_of, keccak256, keccak_of, pubkey_of, public_key_of, recover_of,
    shared_aes_key, shared_key_of, sign_of, sign_ok, sign_prehash, aes_enc_of, DeviceKey,
    DevicePublicKey,
};

verus! {

#[verifier::external_type_specification]
#[verifier::external_body]
pub struct ExSystemTime(std::time::SystemTime);

/// Relies on `std::time::SystemTime::now`: the wall clock.
#[verifier::external_body]
fn system_now() -> std::time::SystemTime {
    std::time::SystemTime::now()
}

/// Relies on `std::time::SystemTime::duration_since`, measured from the Unix
/// epoch; `None` when the clock reads before the epoch.
#[verifier::external_body]
fn since_epoch(t: &std::time::SystemTime) -> Option<core::time::Duration> {
    match t.duration_since(std::time::UNIX_EPOCH) {
        Ok(d) => Some(d),
        Err(_) => None,
    }
}

/// Relies on `core::time::Duration::as_secs`: the whole-second part.
#[verifier::external_body]
fn duration_secs(d: &core::time::Duration) -> u64 {
    d.as_secs()
}

/// The wall clock in whole seconds since the Unix epoch. Nothing is assumed
/// about the value; every contract downstream is relative to it.
fn unix_now() -> Option<u64> {
    let t = system_now();
    match since_epoch(&t) {
        Some(d) => Some(duration_secs(&d)),
        None => None,
    }
}

/// The default destination: twenty zero bytes.
pub open spec fn zero_addr() -> Seq<u8> {
    Seq::new(20, |i: int| 0u8)
}

fn zero_address() -> (r: Vec<u8>)
    ensures
        r@ == zero_addr(),
{
    let mut v: Vec<u8> = Vec::new();
    let mut k: usize = 0;
    while k < 20
        invariant
            k <= 20,
            v@ =~= zero_addr().subrange(0, k as int),
        decreases 20 - k,
    {
        v.push(0u8);
        assert(v@ =~= zero_addr().subrange(0, k + 1 as int));
        k = k + 1;
    }
    assert(v@ =~= zero_addr());
    v
}

fn copy_bytes(v: &Vec<u8>) -> (r: Vec<u8>)
    ensures
        r@ == v@,
{
    slice_to_vec(v.as_slice())
}

pub open spec fn opt_bytes_view(o: Option<Vec<u8>>) -> Option<Seq<u8>> {
    match o {
        Some(v) => Some(v@),
        None => None,
    }
}

pub open spec fn recipient_model(r: Option<&DevicePublicKey>) -> Option<Seq<u8>> {
    match r {
        Some(k) => Some(k.model()),
        None => None,
    }
}

pub open spec fn iv_of(o: Option<Seq<u8>>) -> Seq<u8> {
    match o {
        Some(v) => v,
        None => Seq::empty(),
    }
}

/// The raw record that the signer assembles from its inputs: sender address
/// derived from the signing key; destination forced to the recipient's
/// address when encrypting, else the caller's choice or the zero address;
/// payload encrypted under the agreed key exactly when a recipient is given.
pub open spec fn built_raw(
    sk: Seq<u8>,
    channel: MessageChannel,
    payload: Seq<u8>,
    to_address: Option<Seq<u8>>,
    recipient: Option<Seq<u8>>,
    timestamp: u64,
    iv: Seq<u8>,
) -> RawModel {
    RawModel {
        channel,
        timestamp,
        from_address: eth_addr_of(pubkey_of(sk)),
        to_address: match recipient {
            Some(pk) => eth_addr_of(pk),
            None => match to_address {
                Some(t) => t,
                None => zero_addr(),
            },
        },
        encrypted: recipient is Some,
        payload: match recipient {
            Some(pk) => aes_enc_of(shared_key_of(sk, pk), iv, payload),
            None => payload,
        },
        enc_iv: if recipient is Some {
            Some(iv)
        } else {
            None
        },
    }
}

/// The exact encoded size of the raw record the signer assembles, as a
/// function of its inputs alone: the ciphertext grows to the next padded
/// block, the destination is an address when encrypting, and the presence
/// bytes and length prefixes are fixed.
pub open spec fn built_size(payload_len: int, to_address: Option<Seq<u8>>, encrypting: bool) -> int {
    if encrypting {
        26 + 20 + 20 + (payload_len / 16 + 1) * 16 + 21
    } else {
        26 + 20 + (match to_address {
            Some(t) => t.len() as int,
            None => 20int,
        }) + payload_len + 1
    }
}

/// Everything that binds a signed envelope to its raw record and to the
/// signer's public key: the canonical bytes, the content hash over bytes and
/// decimal nonce, the nonce/timestamp agreement, and a recoverable signature
/// over the double hash that yields the sender's address.
pub open spec fn well_signed(env: SignedModel, raw: RawModel, pk: Seq<u8>) -> bool {
    &&& env.raw == e_raw(raw)
    &&& env.hash == keccak_of(env.raw + dec_ascii(env.nonce))
    &&& env.nonce == raw.timestamp
    &&& env.signature.len() == 65
    &&& env.signature[64] <= 3
    &&& recover_of(keccak_of(env.hash), env.signature) == Some(pk)
    &&& raw.from_address == eth_addr_of(pk)
}

/// The signing side of the protocol, as a device key offers it.
pub trait DephySigningKey {
    /// The identity of the signing key: its 32 secret scalar bytes.
    spec fn key_model(&self) -> Seq<u8>;

    /// Assemble, hash and sign a message now: the timestamp comes from the
    /// wall clock and, when a recipient is given, a fresh initialization
    /// vector from the system random source.
    fn create_message(
        &self,
        channel: MessageChannel,
        payload: Vec<u8>,
        to_address: Option<Vec<u8>>,
        recipient: Option<&DevicePublicKey>,
    ) -> (r: Result<(SignedMessage, RawMessage), MessageError>)
        ensures
            r matches Ok(p) ==> {
                &&& p.1@ == built_raw(
                    self.key_model(),
                    channel,
                    payload@,
                    opt_bytes_view(to_address),
                    recipient_model(recipient),
                    p.1@.timestamp,
                    iv_of(p.1@.enc_iv),
                )
                &&& well_signed(p.0@, p.1@, pubkey_of(self.key_model()))
                &&& encodable_signed(p.0@)
                &&& p.0@.hash.len() == 32
                &&& p.1@.from_address.len() == 20
                &&& p.0@.last_edge_addr == Some(p.1@.from_address)
                &&& (recipient is Some ==> (p.1@.enc_iv matches Some(v) && v.len() == 16))
                &&& raw_size(p.1@) <= LEN_LIMIT
            },
            r matches Err(e) ==> e == MessageError::CryptoError || e
                == MessageError::RandomSourceError,
            built_size(payload@.len() as int, opt_bytes_view(to_address), recipient is Some)
                > LEN_LIMIT ==> r is Err,
    ;

    /// The signer's own network address.
    fn eth_addr(&self) -> (r: Vec<u8>)
        ensures
            r@ == eth_addr_of(pubkey_of(self.key_model())),
            r@.len() == 20,
    ;

    /// The signer's own network address as lowercase hex, with no prefix.
    fn eth_addr_string(&self) -> (r: String)
        ensures
            r@ == hex_of(eth_addr_of(pubkey_of(self.key_model()))),
    ;

    /// The public key belonging to this signing key.
    fn public_key(&self) -> (r: DevicePublicKey)
        ensures
            r.model() == pubkey_of(self.key_model()),
            r.model().len() == 65,
    ;
}

impl DephySigningKey for DeviceKey {
    open spec fn key_model(&self) -> Seq<u8> {
        self.model()
    }

    fn create_message(
        &self,
        channel: MessageChannel,
        payload: Vec<u8>,
        to_address: Option<Vec<u8>>,
        recipient: Option<&DevicePublicKey>,
    ) -> (r: Result<(SignedMessage, RawMessage), MessageError>) {
        let timestamp = match unix_now() {
            Some(t) => t,
            None => {
                return Err(MessageError::CryptoError);
            },
        };
        let iv: Option<Vec<u8>> = match recipient {
            Some(_) => match fresh_iv() {
                Ok(v) => Some(v),
                Err(e) => {
                    return Err(e);
                },
            },
            None => None,
        };
        self.create_message_at(channel, payload, to_address, recipient, iv, timestamp)
    }

    fn eth_addr(&self) -> (r: Vec<u8>) {
        let pk = self.public_key();
        get_eth_address_bytes(&pk)
    }

    fn eth_addr_string(&self) -> (r: String) {
        let addr = self.eth_addr();
        hex_encode(addr.as_slice())
    }

    fn public_key(&self) -> (r: DevicePublicKey) {
        public_key_of(self)
    }
}

impl DeviceKey {
    /// Assemble, hash and sign a message, at the given timestamp and (when a
    /// recipient is given) with the given fresh 16-byte initialization
    /// vector. Deterministic; `create_message` supplies clock and randomness.
    pub fn create_message_at(
        &self,
        channel: MessageChannel,
        payload: Vec<u8>,
        to_address: Option<Vec<u8>>,
        recipient: Option<&DevicePublicKey>,
        iv: Option<Vec<u8>>,
        timestamp: u64,
    ) -> (r: Result<(SignedMessage, RawMessage), MessageError>)
        requires
            recipient is Some <==> iv is Some,
            iv matches Some(v) ==> v@.len() == 16,
        ensures
            r matches Ok(p) ==> {
                &&& p.1@ == built_raw(
                    self.model(),
                    channel,
                    payload@,
                    opt_bytes_view(to_address),
                    recipient_model(recipient),
                    timestamp,
                    iv_of(opt_bytes_view(iv)),
                )
                &&& well_signed(p.0@, p.1@, pubkey_of(self.model()))
                &&& encodable_signed(p.0@)
                &&& p.0@.hash.len() == 32
                &&& p.1@.from_address.len() == 20
                &&& p.0@.last_edge_addr == Some(p.1@.from_address)
                &&& p.0.signature@ == sign_of(self.model(), keccak_of(p.0.hash@))
                &&& raw_size(p.1@) <= LEN_LIMIT
            },
            r matches Err(e) ==> e == MessageError::CryptoError,
            ({
                let raw0 = built_raw(
                    self.model(),
                    channel,
                    payload@,
                    opt_bytes_view(to_address),
                    recipient_model(recipient),
                    timestamp,
                    iv_of(opt_bytes_view(iv)),
                );
                let oversize = built_size(
                    payload@.len() as int,
                    opt_bytes_view(to_address),
                    recipient is Some,
                ) > LEN_LIMIT;
                &&& (r is Err <==> oversize || !sign_ok(
                    self.model(),
                    keccak_of(keccak_of(e_raw(raw0) + dec_ascii(timestamp))),
                ))
                &&& (oversize ==> r == Err::<(SignedMessage, RawMessage), MessageError>(
                    MessageError::CryptoError,
                ))
            }),
    {
        let from_address = self.eth_addr();
        let (body, enc_iv, to_addr, encrypted): (Vec<u8>, Option<Vec<u8>>, Vec<u8>, bool) =
            match recipient {
            Some(rk) => {
                let ivv: Vec<u8> = match iv {
                    Some(v) => v,
                    None => {
                        proof {
                            assert(false);
                        }
                        return Err(MessageError::CryptoError);
                    },
                };
                let key = shared_aes_key(self, rk);
                let cipher = aes_cbc_encrypt(key.as_slice(), ivv.as_slice(), payload.as_slice());
                let to = get_eth_address_bytes(rk);
                (cipher, Some(ivv), to, true)
            },
            None => {
                let to = match to_address {
                    Some(t) => t,
                    None => zero_address(),
                };
                (payload, None, to, false)
            },
        };
        let raw_msg = RawMessage {
            channel,
            timestamp,
            from_address,
            to_address: to_addr,
            encrypted,
            payload: body,
            enc_iv,
        };
        let iv_len: u128 = match &raw_msg.enc_iv {
            Some(v) => 5 + v.len() as u128,
            None => 1,
        };
        let size: u128 = 26 + (raw_msg.from_address.len() as u128) + (raw_msg.to_address.len()
            as u128) + (raw_msg.payload.len() as u128) + iv_len;
        assert(size == built_size(
            payload@.len() as int,
            opt_bytes_view(to_address),
            recipient is Some,
        ));
        if size > LEN_LIMIT as u128 {
            return Err(MessageError::CryptoError);
        }
        assert(raw_size(raw_msg@) == size);
        let raw_bytes = encode_raw(&raw_msg);
        let hash = content_hash(raw_bytes.as_slice(), timestamp);
        let digest = keccak256(hash.as_slice());
        let signature = match sign_prehash(self, digest.as_slice()) {
            Ok(s) => s,
            Err(e) => {
                return Err(e);
            },
        };
        let last_edge = copy_bytes(&raw_msg.from_address);
        let env = SignedMessage {
            raw: raw_bytes,
            hash,
            nonce: timestamp,
            signature,
            last_edge_addr: Some(last_edge),
        };
        Ok((env, raw_msg))
    }

    /// Decrypt an encrypted record addressed to this key, given the sender's
    /// public key (say, as recovered from the envelope's signature). Inverts
    /// the encryption that `create_message` performed on the other side.
    pub fn decrypt_payload(&self, sender: &DevicePublicKey, raw: &RawMessage) -> (r: Option<
        Vec<u8>,
    >)
        requires
            raw@.enc_iv matches Some(v) && v.len() == 16,
        ensures
            forall|pt: Seq<u8>, ssk: Seq<u8>|
                (sender.model() == pubkey_of(ssk) && raw@.payload == aes_enc_of(
                    shared_key_of(ssk, pubkey_of(self.model())),
                    iv_of(raw@.enc_iv),
                    pt,
                )) ==> (r matches Some(v) && v@ == pt),
            r matches Some(v) ==> raw@.payload == aes_enc_of(
                shared_key_of(self.model(), sender.model()),
                iv_of(raw@.enc_iv),
                v@,
            ),
    {
        let ivv: &Vec<u8> = match &raw.enc_iv {
            Some(v) => v,
            None => {
                proof {
                    assert(false);
                }
                return None;
            },
        };
        let key = shared_aes_key(self, sender);
        aes_cbc_decrypt(key.as_slice(), ivv.as_slice(), raw.payload.as_slice())
    }
}

} // verus!
