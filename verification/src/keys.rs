//! Keys, digests, ciphers: the trusted boundary to the cryptographic crates.
//!
//! Each outside result that cannot be restated in a few lines is given a name
//! (an uninterpreted spec function of the plain argument values); the trusted
//! wrappers tie the runtime results to those names, and everything else is
//! proved against them.

use vstd::prelude::*;
use vstd::slice::{slice_subrange, slice_to_vec};
use vstd::string::{StringExecFns, StringSliceAdditionalSpecFns};
use aes::cipher::block_padding::Pkcs7;
use aes::cipher::{BlockDecryptMut, BlockEncryptMut, KeyIvInit};
use k256::elliptic_curve::sec1::ToEncodedPoint;
use rand::Fill;
use sha3::Digest;
use crate::codec::{dec_ascii, u64_to_decimal};
use crate::message::MessageError;

verus! {

// ---------------------------------------------------------------------------
// Names for outside results.
// ---------------------------------------------------------------------------

/// Whether 32 bytes are a valid (non-zero, in-range) secp256k1 secret scalar.
pub uninterp spec fn valid_sk(b: Seq<u8>) -> bool;

/// A scalar encoding left-padded with zeros to the 32 field bytes, as the
/// curve crate pads short slices before validating them.
pub open spec fn pad32(b: Seq<u8>) -> Seq<u8> {
    if b.len() >= 32 {
        b
    } else {
        Seq::new((32 - b.len()) as nat, |i: int| 0u8) + b
    }
}

/// Whether bytes are the uncompressed SEC1 encoding of a secp256k1 point.
pub uninterp spec fn valid_pk(b: Seq<u8>) -> bool;

/// The uncompressed SEC1 encoding of the public key of the secret scalar `sk`.
pub uninterp spec fn pubkey_of(sk: Seq<u8>) -> Seq<u8>;

/// The Keccak-256 digest (32 bytes) of `data`.
pub uninterp spec fn keccak_of(data: Seq<u8>) -> Seq<u8>;

/// The 65-byte recoverable ECDSA signature (r, s, recovery id) that the
/// scalar `sk` deterministically produces over the 32-byte `digest`.
pub uninterp spec fn sign_of(sk: Seq<u8>, digest: Seq<u8>) -> Seq<u8>;

/// Whether deterministic signing of the 32-byte `digest` under the scalar
/// `sk` succeeds: it fails only in the negligible cases where an
/// intermediate scalar of the signature computation is zero.
pub uninterp spec fn sign_ok(sk: Seq<u8>, digest: Seq<u8>) -> bool;

/// The public key (uncompressed encoding) recovered from a 65-byte signature
/// over `digest`, or `None` when the signature yields no valid curve point.
pub uninterp spec fn recover_of(digest: Seq<u8>, sig: Seq<u8>) -> Option<Seq<u8>>;

/// The 16-byte symmetric key derived from the ECDH shared secret of the
/// scalar `sk` and the public key encoded by `pk`, by extract-then-expand.
pub uninterp spec fn shared_key_of(sk: Seq<u8>, pk: Seq<u8>) -> Seq<u8>;

/// AES-128-CBC encryption of `pt` under `key` and `iv`, PKCS#7-padded.
pub uninterp spec fn aes_enc_of(key: Seq<u8>, iv: Seq<u8>, pt: Seq<u8>) -> Seq<u8>;

/// The 20-byte network address of a public key: the low-order 20 bytes of the
/// Keccak-256 digest of the uncompressed point without its format byte.
pub open spec fn eth_addr_of(pk: Seq<u8>) -> Seq<u8> {
    keccak_of(pk.subrange(1, 65)).subrange(12, 32)
}

// ---------------------------------------------------------------------------
// Key types. The model of a signing key is its 32 scalar bytes; the model of
// a public key is its 65-byte uncompressed SEC1 encoding. Both are kept in
// the validated byte form that the curve crate parses back on each use.
// ---------------------------------------------------------------------------

/// A device signing key: a secp256k1 secret scalar.
pub struct DeviceKey {
    sk_bytes: Vec<u8>,
}

/// A device public key, as handed out to peers or recovered from signatures.
pub struct DevicePublicKey {
    enc: Vec<u8>,
}

impl DeviceKey {
    /// The 32 secret scalar bytes: the mathematical identity of the key.
    pub closed spec fn model(&self) -> Seq<u8> {
        self.sk_bytes@
    }

    /// A device key always holds a valid 32-byte scalar.
    #[verifier::type_invariant]
    closed spec fn wf(&self) -> bool {
        valid_sk(self.sk_bytes@) && self.sk_bytes@.len() == 32
    }
}

impl DevicePublicKey {
    /// The uncompressed SEC1 encoding: the mathematical identity of the key.
    pub closed spec fn model(&self) -> Seq<u8> {
        self.enc@
    }

    /// A device public key always holds a valid uncompressed encoding:
    /// 65 bytes behind the format byte 4.
    #[verifier::type_invariant]
    closed spec fn wf(&self) -> bool {
        valid_pk(self.enc@) && self.enc@.len() == 65 && self.enc@[0] == 4
    }

    /// The uncompressed SEC1 encoding of this key.
    pub fn uncompressed_bytes(&self) -> (r: Vec<u8>)
        ensures
            r@ == self.model(),
            r@.len() == 65,
    {
        proof {
            use_type_invariant(self);
        }
        slice_to_vec(self.enc.as_slice())
    }
}

// ---------------------------------------------------------------------------
// Trusted wrappers around the outside crates.
// ---------------------------------------------------------------------------

/// Relies on `k256::SecretKey::random`: a fresh uniformly random non-zero
/// scalar; nothing is promised about its value.
#[verifier::external_body]
pub fn random_signing_key() -> (r: DeviceKey)
    ensures
        r.model().len() == 32,
        valid_sk(r.model()),
{
    let key = k256::SecretKey::random(&mut rand::rngs::OsRng);
    DeviceKey { sk_bytes: key.to_bytes().to_vec() }
}

/// Relies on `k256::SecretKey::from_slice`: succeeds exactly on a slice of
/// 24 to 32 bytes that, left-padded with zeros to 32 bytes, encodes a valid
/// non-zero secret scalar; the key is that padded scalar.
#[verifier::external_body]
fn signing_key_from_bytes(b: &[u8]) -> (r: Option<DeviceKey>)
    ensures
        r is Some <==> (24 <= b@.len() <= 32 && valid_sk(pad32(b@))),
        r matches Some(k) ==> k.model() == pad32(b@),
{
    match k256::SecretKey::from_slice(b) {
        Ok(key) => Some(DeviceKey { sk_bytes: key.to_bytes().to_vec() }),
        Err(_) => None,
    }
}

/// Relies on `k256::SecretKey::public_key`: the public key that belongs to
/// this scalar.
#[verifier::external_body]
pub(crate) fn public_key_of(key: &DeviceKey) -> (r: DevicePublicKey)
    ensures
        r.model() == pubkey_of(key.model()),
        r.model().len() == 65,
        valid_pk(r.model()),
{
    let sk = k256::SecretKey::from_slice(&key.sk_bytes).expect("a device key holds a valid scalar");
    let enc = sk.public_key().to_encoded_point(false).as_bytes().to_vec();
    DevicePublicKey { enc }
}

/// Relies on `sha3::Keccak256`: the 32-byte Keccak-256 digest, a function of
/// the input bytes alone.
#[verifier::external_body]
pub(crate) fn keccak256(data: &[u8]) -> (r: Vec<u8>)
    ensures
        r@ == keccak_of(data@),
        r@.len() == 32,
{
    sha3::Keccak256::digest(data).to_vec()
}

/// The binding hash of an envelope: Keccak-256 over the raw record bytes
/// followed by the decimal ASCII rendering of the nonce.
pub fn content_hash(raw: &[u8], nonce: u64) -> (r: Vec<u8>)
    ensures
        r@ == keccak_of(raw@ + dec_ascii(nonce)),
        r@.len() == 32,
{
    let mut input = slice_to_vec(raw);
    let mut decimal = u64_to_decimal(nonce);
    input.append(&mut decimal);
    keccak256(input.as_slice())
}

/// Relies on `k256::ecdsa::SigningKey::sign_prehash_recoverable`: a
/// deterministic (RFC 6979, no added entropy) 64-byte signature plus a
/// recovery id of at most 3, from which `VerifyingKey::recover_from_prehash`
/// recovers exactly the signer's public key. Success too depends on the key
/// and digest alone.
#[verifier::external_body]
pub(crate) fn sign_prehash(key: &DeviceKey, digest: &[u8]) -> (r: Result<Vec<u8>, MessageError>)
    requires
        digest@.len() == 32,
    ensures
        r is Ok <==> sign_ok(key.model(), digest@),
        r matches Ok(sig) ==> {
            &&& sig@ == sign_of(key.model(), digest@)
            &&& sig@.len() == 65
            &&& sig@[64] <= 3
            &&& recover_of(digest@, sig@) == Some(pubkey_of(key.model()))
        },
        r matches Err(e) ==> e == MessageError::CryptoError,
{
    let sk = k256::ecdsa::SigningKey::from_slice(&key.sk_bytes)
        .expect("a device key holds a valid scalar");
    match sk.sign_prehash_recoverable(digest) {
        Ok((sig, recid)) => {
            let mut v = sig.to_vec();
            v.push(recid.to_byte());
            Ok(v)
        },
        Err(_) => Err(MessageError::CryptoError),
    }
}

/// Relies on `k256::ecdsa::VerifyingKey::recover_from_prehash`: recovery is a
/// function of the digest and signature bytes alone, and returns an
/// uncompressed-encodable public key when it succeeds.
#[verifier::external_body]
pub(crate) fn recover_pubkey(digest: &[u8], sig: &[u8]) -> (r: Option<DevicePublicKey>)
    requires
        digest@.len() == 32,
        sig@.len() == 65,
        sig@[64] <= 3,
    ensures
        r is Some <==> recover_of(digest@, sig@) is Some,
        r matches Some(k) ==> {
            &&& recover_of(digest@, sig@) == Some(k.model())
            &&& k.model().len() == 65
            &&& valid_pk(k.model())
        },
{
    let rs = k256::ecdsa::Signature::try_from(&sig[0..64]).ok()?;
    let recid = k256::ecdsa::RecoveryId::from_byte(sig[64])?;
    let vk = k256::ecdsa::VerifyingKey::recover_from_prehash(digest, &rs, recid).ok()?;
    Some(DevicePublicKey { enc: vk.to_encoded_point(false).as_bytes().to_vec() })
}

/// Relies on `k256::ecdh::diffie_hellman` and `SharedSecret::extract` with a
/// Keccak-256 HKDF (no salt, empty context, 16-byte output). The agreement is
/// symmetric: both sides of the exchange derive the same key.
#[verifier::external_body]
pub(crate) fn shared_aes_key(key: &DeviceKey, peer: &DevicePublicKey) -> (r: Vec<u8>)
    ensures
        r@ == shared_key_of(key.model(), peer.model()),
        r@.len() == 16,
        forall|osk: Seq<u8>|
            peer.model() == pubkey_of(osk) ==> r@ == shared_key_of(osk, pubkey_of(key.model())),
{
    let sk = k256::SecretKey::from_slice(&key.sk_bytes).expect("a device key holds a valid scalar");
    let pk = k256::PublicKey::from_sec1_bytes(&peer.enc)
        .expect("a device public key holds a valid encoding");
    let secret = k256::ecdh::diffie_hellman(sk.to_nonzero_scalar(), pk.as_affine());
    let kdf = secret.extract::<sha3::Keccak256>(None);
    let context: [u8; 0] = [];
    let mut out = [0u8; 16];
    kdf.expand(&context, &mut out).expect("a 16-byte output never exceeds the expand limit");
    out.to_vec()
}

/// Relies on `cbc::Encryptor<aes::Aes128>` with PKCS#7 padding: the
/// ciphertext is a function of key, iv and plaintext, one block longer than
/// the padded plaintext rounds to.
#[verifier::external_body]
pub(crate) fn aes_cbc_encrypt(key: &[u8], iv: &[u8], pt: &[u8]) -> (r: Vec<u8>)
    requires
        key@.len() == 16,
        iv@.len() == 16,
    ensures
        r@ == aes_enc_of(key@, iv@, pt@),
        r@.len() == (pt@.len() / 16 + 1) * 16,
{
    let cipher = cbc::Encryptor::<aes::Aes128>::new_from_slices(key, iv)
        .expect("key and iv are 16 bytes");
    cipher.encrypt_padded_vec_mut::<Pkcs7>(pt)
}

/// Relies on `cbc::Decryptor<aes::Aes128>` with strict PKCS#7 padding:
/// decryption inverts encryption under the same key and iv, and anything it
/// accepts is exactly the encryption of what it returns.
#[verifier::external_body]
pub(crate) fn aes_cbc_decrypt(key: &[u8], iv: &[u8], ct: &[u8]) -> (r: Option<Vec<u8>>)
    requires
        key@.len() == 16,
        iv@.len() == 16,
    ensures
        match r {
            Some(v) => ct@ == aes_enc_of(key@, iv@, v@) && (forall|pt: Seq<u8>|
                ct@ == aes_enc_of(key@, iv@, pt) ==> v@ == pt),
            None => forall|pt: Seq<u8>| ct@ != aes_enc_of(key@, iv@, pt),
        },
{
    let cipher = match cbc::Decryptor::<aes::Aes128>::new_from_slices(key, iv) {
        Ok(c) => c,
        Err(_) => {
            return None;
        },
    };
    match cipher.decrypt_padded_vec_mut::<Pkcs7>(ct) {
        Ok(v) => Some(v),
        Err(_) => None,
    }
}

/// Relies on `rand::Fill::try_fill` with `OsRng`: 16 bytes from the system's
/// cryptographically secure random source; nothing is promised about them.
#[verifier::external_body]
pub(crate) fn fresh_iv() -> (r: Result<Vec<u8>, MessageError>)
    ensures
        r matches Ok(v) ==> v@.len() == 16,
        r matches Err(e) ==> e == MessageError::RandomSourceError,
{
    let mut buf = [0u8; 16];
    match buf.try_fill(&mut rand::rngs::OsRng) {
        Ok(()) => Ok(buf.to_vec()),
        Err(_) => Err(MessageError::RandomSourceError),
    }
}

// ---------------------------------------------------------------------------
// Hexadecimal text, stated exactly.
// ---------------------------------------------------------------------------

/// The lowercase hex digit for a nibble.
pub open spec fn hex_digit(n: u8) -> char
    recommends
        n < 16,
{
    if n < 10 {
        (48 + n) as char
    } else {
        (87 + n) as char
    }
}

/// Lowercase hex rendering: two digits per byte, high nibble first.
pub open spec fn hex_of(b: Seq<u8>) -> Seq<char> {
    Seq::new(
        b.len() * 2,
        |i: int|
            if i % 2 == 0 {
                hex_digit(b[i / 2] / 16)
            } else {
                hex_digit(b[i / 2] % 16)
            },
    )
}

/// An ASCII byte that is a hex digit, either case.
pub open spec fn is_hex_digit(c: u8) -> bool {
    (48 <= c && c <= 57) || (97 <= c && c <= 102) || (65 <= c && c <= 70)
}

/// The nibble value of a hex digit byte.
pub open spec fn hex_val(c: u8) -> u8
    recommends
        is_hex_digit(c),
{
    if 48 <= c && c <= 57 {
        (c - 48) as u8
    } else if 97 <= c {
        (c - 87) as u8
    } else {
        (c - 55) as u8
    }
}

/// Bytes that decode as hex: even length, digits throughout.
pub open spec fn hex_decodable(s: Seq<u8>) -> bool {
    s.len() % 2 == 0 && (forall|i: int| 0 <= i < s.len() ==> is_hex_digit(s[i]))
}

/// The bytes a hex string denotes.
pub open spec fn hex_bytes(s: Seq<u8>) -> Seq<u8> {
    Seq::new(s.len() / 2, |i: int| (hex_val(s[2 * i]) * 16 + hex_val(s[2 * i + 1])) as u8)
}

/// Relies on `hex::encode`: two lowercase digits per byte, high nibble first.
#[verifier::external_body]
pub(crate) fn hex_encode(b: &[u8]) -> (r: String)
    ensures
        r@ == hex_of(b@),
{
    hex::encode(b)
}

/// Relies on `hex::decode`: succeeds exactly on an even number of hex digits
/// of either case and returns the bytes they denote.
#[verifier::external_body]
pub(crate) fn hex_decode(s: &[u8]) -> (r: Option<Vec<u8>>)
    ensures
        r is Some <==> hex_decodable(s@),
        r matches Some(v) ==> v@ == hex_bytes(s@),
{
    match hex::decode(s) {
        Ok(v) => Some(v),
        Err(_) => None,
    }
}

// ---------------------------------------------------------------------------
// Verified address derivation and key parsing.
// ---------------------------------------------------------------------------

/// The network address of a public key: Keccak-256 over the uncompressed
/// point without its format byte, truncated to the low-order 20 bytes.
pub fn get_eth_address_bytes(key: &DevicePublicKey) -> (r: Vec<u8>)
    ensures
        r@ == eth_addr_of(key.model()),
        r@.len() == 20,
{
    let enc = key.uncompressed_bytes();
    let body = slice_subrange(enc.as_slice(), 1, 65);
    let digest = keccak256(body);
    let tail = slice_subrange(digest.as_slice(), 12, 32);
    let r = slice_to_vec(tail);
    assert(r@ == eth_addr_of(key.model()));
    r
}

/// The network address rendered as `"0x"` plus lowercase hex.
pub fn get_eth_address(key: &DevicePublicKey) -> (r: String)
    ensures
        r@ == seq!['0', 'x'] + hex_of(eth_addr_of(key.model())),
{
    let addr = get_eth_address_bytes(key);
    let mut s = String::from_str("0x");
    proof {
        reveal_strlit("0x");
    }
    let h = hex_encode(addr.as_slice());
    s.append(h.as_str());
    assert(s@ =~= seq!['0', 'x'] + hex_of(eth_addr_of(key.model())));
    s
}

/// Parse a signing key from lowercase or uppercase hex digits: 64 for the
/// full scalar, or as few as 48, which the curve crate left-pads with zeros.
///
/// Fails with `DecodeError` when the text is not hex, and with `CryptoError`
/// when the bytes do not encode a valid non-zero secret scalar.
pub fn parse_signing_key(key_str: &str) -> (r: Result<DeviceKey, MessageError>)
    ensures
        r matches Ok(k) ==> ({
            let b = hex_bytes(key_str.spec_bytes());
            &&& hex_decodable(key_str.spec_bytes())
            &&& 24 <= b.len() <= 32
            &&& valid_sk(pad32(b))
            &&& k.model() == pad32(b)
        }),
        r matches Err(e) ==> match e {
            MessageError::DecodeError => !hex_decodable(key_str.spec_bytes()),
            MessageError::CryptoError => hex_decodable(key_str.spec_bytes()) && !({
                let b = hex_bytes(key_str.spec_bytes());
                24 <= b.len() <= 32 && valid_sk(pad32(b))
            }),
            _ => false,
        },
{
    let bytes = match hex_decode(key_str.as_bytes()) {
        Some(v) => v,
        None => {
            return Err(MessageError::DecodeError);
        },
    };
    match signing_key_from_bytes(bytes.as_slice()) {
        Some(k) => Ok(k),
        None => Err(MessageError::CryptoError),
    }
}

/// Rendering a value as the DID string body used in relay event tags.
pub trait ToRingsDIDString {
    /// The value as `"0x"` plus lowercase hex.
    fn to_did_string(&self) -> String;
}

impl ToRingsDIDString for Vec<u8> {
    fn to_did_string(&self) -> (r: String)
        ensures
            r@ == seq!['0', 'x'] + hex_of(self@),
    {
        let mut s = String::from_str("0x");
        proof {
            reveal_strlit("0x");
        }
        let h = hex_encode(self.as_slice());
        s.append(h.as_str());
        assert(s@ =~= seq!['0', 'x'] + hex_of(self@));
        s
    }
}

/// The expected prefix of a DID string: the ASCII bytes of `"did:dephy:0x"`.
pub open spec fn did_prefix() -> Seq<u8> {
    seq![100u8, 105, 100, 58, 100, 101, 112, 104, 121, 58, 48, 120]
}

/// A well-formed DID string: the prefix followed by exactly 40 hex digits.
pub open spec fn did_str_ok(b: Seq<u8>) -> bool {
    b.len() == 52 && b.subrange(0, 12) == did_prefix() && hex_decodable(b.subrange(12, 52))
}

/// The 20 address bytes denoted by a DID string of the form
/// `"did:dephy:0x"` plus 40 hex digits.
pub fn did_str_to_addr_bytes(did_str: &str) -> (r: Result<Vec<u8>, MessageError>)
    ensures
        r matches Ok(v) ==> did_str_ok(did_str.spec_bytes()) && v@ == hex_bytes(
            did_str.spec_bytes().subrange(12, 52),
        ),
        r matches Err(e) ==> e == MessageError::DecodeError && !did_str_ok(did_str.spec_bytes()),
{
    let b = did_str.as_bytes();
    if b.len() != 52 {
        return Err(MessageError::DecodeError);
    }
    if !(b[0] == 100 && b[1] == 105 && b[2] == 100 && b[3] == 58 && b[4] == 100 && b[5] == 101
        && b[6] == 112 && b[7] == 104 && b[8] == 121 && b[9] == 58 && b[10] == 48 && b[11]
        == 120) {
        proof {
            assert(b@.subrange(0, 12) != did_prefix());
        }
        return Err(MessageError::DecodeError);
    }
    proof {
        assert(b@.subrange(0, 12) =~= did_prefix());
    }
    let digits = slice_subrange(b, 12, 52);
    match hex_decode(digits) {
        Some(v) => Ok(v),
        None => Err(MessageError::DecodeError),
    }
}

} // verus!
