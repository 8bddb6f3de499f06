//! Canonical serialization of the wire records.
//!
//! Integers are little-endian and fixed width; byte strings carry a 32-bit
//! length prefix; options and enum variants carry a one-byte tag. Identical
//! logical values always yield identical bytes, and decoding accepts exactly
//! the encodings (trailing bytes or non-canonical tags are rejected), which is
//! what hash and signature stability rest on.

use vstd::prelude::*;
use crate::message::{MessageChannel, MessageError, RawMessage, RawModel, SignedMessage, SignedModel};

verus! {

/// Largest length a 32-bit prefix can carry.
pub const LEN_LIMIT: u64 = 0xffff_ffff;

// ---------------------------------------------------------------------------
// Encoding, as spec-level byte sequences.
// ---------------------------------------------------------------------------

pub open spec fn e_u32(x: u32) -> Seq<u8> {
    seq![
        (x & 0xff) as u8,
        ((x >> 8) & 0xff) as u8,
        ((x >> 16) & 0xff) as u8,
        ((x >> 24) & 0xff) as u8,
    ]
}

pub open spec fn e_u64(x: u64) -> Seq<u8> {
    seq![
        (x & 0xff) as u8,
        ((x >> 8) & 0xff) as u8,
        ((x >> 16) & 0xff) as u8,
        ((x >> 24) & 0xff) as u8,
        ((x >> 32) & 0xff) as u8,
        ((x >> 40) & 0xff) as u8,
        ((x >> 48) & 0xff) as u8,
        ((x >> 56) & 0xff) as u8,
    ]
}

pub open spec fn e_bytes(s: Seq<u8>) -> Seq<u8> {
    e_u32(s.len() as u32) + s
}

pub open spec fn e_bool(b: bool) -> Seq<u8> {
    if b {
        seq![1u8]
    } else {
        seq![0u8]
    }
}

pub open spec fn e_opt_bytes(o: Option<Seq<u8>>) -> Seq<u8> {
    match o {
        None => seq![0u8],
        Some(s) => seq![1u8] + e_bytes(s),
    }
}

pub open spec fn e_channel(c: MessageChannel) -> Seq<u8> {
    match c {
        MessageChannel::Normal(n) => seq![0u8] + e_u32(n),
    }
}

pub open spec fn e_raw(m: RawModel) -> Seq<u8> {
    e_channel(m.channel) + e_u64(m.timestamp) + e_bytes(m.from_address) + e_bytes(m.to_address)
        + e_bool(m.encrypted) + e_bytes(m.payload) + e_opt_bytes(m.enc_iv)
}

pub open spec fn e_signed(m: SignedModel) -> Seq<u8> {
    e_bytes(m.raw) + e_bytes(m.hash) + e_u64(m.nonce) + e_bytes(m.signature)
        + e_opt_bytes(m.last_edge_addr)
}

/// A byte-string field fits its 32-bit length prefix.
pub open spec fn fits_len(s: Seq<u8>) -> bool {
    s.len() <= LEN_LIMIT
}

/// All variable-length fields of a raw record fit their length prefixes.
pub open spec fn encodable_raw(m: RawModel) -> bool {
    &&& fits_len(m.from_address)
    &&& fits_len(m.to_address)
    &&& fits_len(m.payload)
    &&& (m.enc_iv matches Some(iv) ==> fits_len(iv))
}

/// All variable-length fields of an envelope fit their length prefixes.
pub open spec fn encodable_signed(m: SignedModel) -> bool {
    &&& fits_len(m.raw)
    &&& fits_len(m.hash)
    &&& fits_len(m.signature)
    &&& (m.last_edge_addr matches Some(a) ==> fits_len(a))
}

/// Exact size of the encoding of a raw record.
pub open spec fn raw_size(m: RawModel) -> int {
    26 + m.from_address.len() + m.to_address.len() + m.payload.len() + (match m.enc_iv {
        None => 1int,
        Some(iv) => 5int + iv.len(),
    })
}

pub proof fn lemma_raw_size(m: RawModel)
    ensures
        e_raw(m).len() == raw_size(m),
{
    assert(e_channel(m.channel).len() == 5) by {
        match m.channel {
            MessageChannel::Normal(n) => {
                assert(e_channel(m.channel) == seq![0u8] + e_u32(n));
            },
        }
    }
    assert(e_u64(m.timestamp).len() == 8);
    assert(e_bytes(m.from_address).len() == 4 + m.from_address.len());
    assert(e_bytes(m.to_address).len() == 4 + m.to_address.len());
    assert(e_bool(m.encrypted).len() == 1);
    assert(e_bytes(m.payload).len() == 4 + m.payload.len());
    assert(e_opt_bytes(m.enc_iv).len() == (match m.enc_iv {
        None => 1int,
        Some(iv) => 5int + iv.len(),
    }));
}

// ---------------------------------------------------------------------------
// Decoding, as spec-level recursive descent with a cursor.
// ---------------------------------------------------------------------------

pub open spec fn d_u8(b: Seq<u8>, i: int) -> Option<(u8, int)> {
    if 0 <= i && i + 1 <= b.len() {
        Some((b[i], i + 1))
    } else {
        None
    }
}

pub open spec fn du32_val(b: Seq<u8>, i: int) -> u32 {
    (b[i] as u32) | ((b[i + 1] as u32) << 8) | ((b[i + 2] as u32) << 16) | ((b[i + 3] as u32)
        << 24)
}

pub open spec fn d_u32(b: Seq<u8>, i: int) -> Option<(u32, int)> {
    if 0 <= i && i + 4 <= b.len() {
        Some((du32_val(b, i), i + 4))
    } else {
        None
    }
}

pub open spec fn du64_val(b: Seq<u8>, i: int) -> u64 {
    (b[i] as u64) | ((b[i + 1] as u64) << 8) | ((b[i + 2] as u64) << 16) | ((b[i + 3] as u64)
        << 24) | ((b[i + 4] as u64) << 32) | ((b[i + 5] as u64) << 40) | ((b[i + 6] as u64) << 48)
        | ((b[i + 7] as u64) << 56)
}

pub open spec fn d_u64(b: Seq<u8>, i: int) -> Option<(u64, int)> {
    if 0 <= i && i + 8 <= b.len() {
        Some((du64_val(b, i), i + 8))
    } else {
        None
    }
}

pub open spec fn d_bytes(b: Seq<u8>, i: int) -> Option<(Seq<u8>, int)> {
    match d_u32(b, i) {
        None => None,
        Some((n, j)) => if j + n <= b.len() {
            Some((b.subrange(j, j + n), j + n))
        } else {
            None
        },
    }
}

pub open spec fn d_bool(b: Seq<u8>, i: int) -> Option<(bool, int)> {
    if 0 <= i && i + 1 <= b.len() && (b[i] == 0 || b[i] == 1) {
        Some((b[i] == 1, i + 1))
    } else {
        None
    }
}

pub open spec fn d_opt_bytes(b: Seq<u8>, i: int) -> Option<(Option<Seq<u8>>, int)> {
    match d_u8(b, i) {
        None => None,
        Some((tag, j)) => if tag == 0 {
            Some((None, j))
        } else if tag == 1 {
            match d_bytes(b, j) {
                None => None,
                Some((s, k)) => Some((Some(s), k)),
            }
        } else {
            None
        },
    }
}

pub open spec fn d_channel(b: Seq<u8>, i: int) -> Option<(MessageChannel, int)> {
    match d_u8(b, i) {
        None => None,
        Some((tag, j)) => if tag == 0 {
            match d_u32(b, j) {
                None => None,
                Some((n, k)) => Some((MessageChannel::Normal(n), k)),
            }
        } else {
            None
        },
    }
}

pub open spec fn d_raw(b: Seq<u8>) -> Option<RawModel> {
    match d_channel(b, 0) {
        None => None,
        Some((channel, i1)) => match d_u64(b, i1) {
            None => None,
            Some((timestamp, i2)) => match d_bytes(b, i2) {
                None => None,
                Some((from_address, i3)) => match d_bytes(b, i3) {
                    None => None,
                    Some((to_address, i4)) => match d_bool(b, i4) {
                        None => None,
                        Some((encrypted, i5)) => match d_bytes(b, i5) {
                            None => None,
                            Some((payload, i6)) => match d_opt_bytes(b, i6) {
                                None => None,
                                Some((enc_iv, i7)) => if i7 == b.len() {
                                    Some(
                                        RawModel {
                                            channel,
                                            timestamp,
                                            from_address,
                                            to_address,
                                            encrypted,
                                            payload,
                                            enc_iv,
                                        },
                                    )
                                } else {
                                    None
                                },
                            },
                        },
                    },
                },
            },
        },
    }
}

// ---------------------------------------------------------------------------
// Decimal rendering of the nonce, as hashed alongside the raw bytes.
// ---------------------------------------------------------------------------

pub open spec fn dec_digits(n: nat) -> Seq<u8>
    decreases n,
{
    if n < 10 {
        seq![(48 + n) as u8]
    } else {
        dec_digits(n / 10).push((48 + n % 10) as u8)
    }
}

/// The decimal ASCII rendering of `n`, with no sign and no leading zeros.
pub open spec fn dec_ascii(n: u64) -> Seq<u8> {
    dec_digits(n as nat)
}

pub fn u64_to_decimal(n: u64) -> (r: Vec<u8>)
    ensures
        r@ == dec_ascii(n),
    decreases n,
{
    if n < 10 {
        let mut v: Vec<u8> = Vec::new();
        v.push(48 + n as u8);
        assert(v@ =~= dec_ascii(n));
        v
    } else {
        let mut v = u64_to_decimal(n / 10);
        v.push(48 + (n % 10) as u8);
        assert(v@ =~= dec_ascii(n));
        v
    }
}

// ---------------------------------------------------------------------------
// Executable encoders.
// ---------------------------------------------------------------------------

fn push_u32(out: &mut Vec<u8>, x: u32)
    ensures
        final(out)@ == old(out)@ + e_u32(x),
{
    out.push((x & 0xff) as u8);
    out.push(((x >> 8) & 0xff) as u8);
    out.push(((x >> 16) & 0xff) as u8);
    out.push(((x >> 24) & 0xff) as u8);
    assert(out@ =~= old(out)@ + e_u32(x));
}

fn push_u64(out: &mut Vec<u8>, x: u64)
    ensures
        final(out)@ == old(out)@ + e_u64(x),
{
    out.push((x & 0xff) as u8);
    out.push(((x >> 8) & 0xff) as u8);
    out.push(((x >> 16) & 0xff) as u8);
    out.push(((x >> 24) & 0xff) as u8);
    out.push(((x >> 32) & 0xff) as u8);
    out.push(((x >> 40) & 0xff) as u8);
    out.push(((x >> 48) & 0xff) as u8);
    out.push(((x >> 56) & 0xff) as u8);
    assert(out@ =~= old(out)@ + e_u64(x));
}

fn push_bytes(out: &mut Vec<u8>, s: &Vec<u8>)
    requires
        fits_len(s@),
    ensures
        final(out)@ == old(out)@ + e_bytes(s@),
{
    push_u32(out, s.len() as u32);
    let ghost mid = out@;
    let mut k: usize = 0;
    while k < s.len()
        invariant
            k <= s@.len(),
            out@ == mid + s@.subrange(0, k as int),
        decreases s@.len() - k,
    {
        out.push(s[k]);
        assert(out@ =~= mid + s@.subrange(0, k + 1 as int));
        k = k + 1;
    }
    assert(s@.subrange(0, s@.len() as int) =~= s@);
    assert(out@ =~= old(out)@ + e_bytes(s@));
}

/// Encode a raw record; every variable-length field must fit its prefix.
pub fn encode_raw(m: &RawMessage) -> (r: Vec<u8>)
    requires
        encodable_raw(m@),
    ensures
        r@ == e_raw(m@),
{
    let mut out: Vec<u8> = Vec::new();
    match m.channel {
        MessageChannel::Normal(n) => {
            out.push(0u8);
            push_u32(&mut out, n);
            assert(out@ =~= e_channel(m@.channel));
        },
    }
    push_u64(&mut out, m.timestamp);
    push_bytes(&mut out, &m.from_address);
    push_bytes(&mut out, &m.to_address);
    out.push(if m.encrypted { 1u8 } else { 0u8 });
    push_bytes(&mut out, &m.payload);
    match &m.enc_iv {
        None => {
            out.push(0u8);
        },
        Some(iv) => {
            out.push(1u8);
            push_bytes(&mut out, iv);
        },
    }
    assert(out@ =~= e_raw(m@));
    out
}

/// Encode an envelope; every variable-length field must fit its prefix.
pub fn encode_signed(env: &SignedMessage) -> (r: Vec<u8>)
    requires
        encodable_signed(env@),
    ensures
        r@ == e_signed(env@),
{
    let mut out: Vec<u8> = Vec::new();
    push_bytes(&mut out, &env.raw);
    push_bytes(&mut out, &env.hash);
    push_u64(&mut out, env.nonce);
    push_bytes(&mut out, &env.signature);
    match &env.last_edge_addr {
        None => {
            out.push(0u8);
        },
        Some(a) => {
            out.push(1u8);
            push_bytes(&mut out, a);
        },
    }
    assert(out@ =~= e_signed(env@));
    out
}

/// Encode an envelope, rejecting one whose fields cannot fit the format.
pub fn encode_signed_message(env: &SignedMessage) -> (r: Result<Vec<u8>, MessageError>)
    ensures
        match r {
            Ok(v) => encodable_signed(env@) && v@ == e_signed(env@),
            Err(e) => e == MessageError::CryptoError && !encodable_signed(env@),
        },
{
    if env.raw.len() as u64 > LEN_LIMIT || env.hash.len() as u64 > LEN_LIMIT
        || env.signature.len() as u64 > LEN_LIMIT {
        return Err(MessageError::CryptoError);
    }
    if let Some(a) = &env.last_edge_addr {
        if a.len() as u64 > LEN_LIMIT {
            return Err(MessageError::CryptoError);
        }
    }
    Ok(encode_signed(env))
}

/// Encode a raw record, rejecting one whose fields cannot fit the format.
pub fn encode_raw_message(m: &RawMessage) -> (r: Result<Vec<u8>, MessageError>)
    ensures
        match r {
            Ok(v) => encodable_raw(m@) && v@ == e_raw(m@),
            Err(e) => e == MessageError::CryptoError && !encodable_raw(m@),
        },
{
    if m.from_address.len() as u64 > LEN_LIMIT || m.to_address.len() as u64 > LEN_LIMIT
        || m.payload.len() as u64 > LEN_LIMIT {
        return Err(MessageError::CryptoError);
    }
    if let Some(iv) = &m.enc_iv {
        if iv.len() as u64 > LEN_LIMIT {
            return Err(MessageError::CryptoError);
        }
    }
    Ok(encode_raw(m))
}

// ---------------------------------------------------------------------------
// Round trip: decoding inverts encoding.
// ---------------------------------------------------------------------------

proof fn lemma_d_u32_enc(b: Seq<u8>, i: int, x: u32)
    requires
        0 <= i,
        i + 4 <= b.len(),
        b.subrange(i, i + 4) == e_u32(x),
    ensures
        d_u32(b, i) == Some((x, i + 4)),
{
    let s = b.subrange(i, i + 4);
    assert(b[i] == s[0] && b[i + 1] == s[1] && b[i + 2] == s[2] && b[i + 3] == s[3]);
    let b0 = b[i];
    let b1 = b[i + 1];
    let b2 = b[i + 2];
    let b3 = b[i + 3];
    assert((b0 as u32) | ((b1 as u32) << 8) | ((b2 as u32) << 16) | ((b3 as u32) << 24) == x)
        by (bit_vector)
        requires
            b0 == (x & 0xff) as u8,
            b1 == ((x >> 8) & 0xff) as u8,
            b2 == ((x >> 16) & 0xff) as u8,
            b3 == ((x >> 24) & 0xff) as u8,
    ;
}

proof fn lemma_d_u64_enc(b: Seq<u8>, i: int, x: u64)
    requires
        0 <= i,
        i + 8 <= b.len(),
        b.subrange(i, i + 8) == e_u64(x),
    ensures
        d_u64(b, i) == Some((x, i + 8)),
{
    let s = b.subrange(i, i + 8);
    assert(b[i] == s[0] && b[i + 1] == s[1] && b[i + 2] == s[2] && b[i + 3] == s[3] && b[i + 4]
        == s[4] && b[i + 5] == s[5] && b[i + 6] == s[6] && b[i + 7] == s[7]);
    let b0 = b[i];
    let b1 = b[i + 1];
    let b2 = b[i + 2];
    let b3 = b[i + 3];
    let b4 = b[i + 4];
    let b5 = b[i + 5];
    let b6 = b[i + 6];
    let b7 = b[i + 7];
    assert((b0 as u64) | ((b1 as u64) << 8) | ((b2 as u64) << 16) | ((b3 as u64) << 24) | ((
    b4 as u64) << 32) | ((b5 as u64) << 40) | ((b6 as u64) << 48) | ((b7 as u64) << 56) == x)
        by (bit_vector)
        requires
            b0 == (x & 0xff) as u8,
            b1 == ((x >> 8) & 0xff) as u8,
            b2 == ((x >> 16) & 0xff) as u8,
            b3 == ((x >> 24) & 0xff) as u8,
            b4 == ((x >> 32) & 0xff) as u8,
            b5 == ((x >> 40) & 0xff) as u8,
            b6 == ((x >> 48) & 0xff) as u8,
            b7 == ((x >> 56) & 0xff) as u8,
    ;
}

proof fn lemma_d_bytes_enc(b: Seq<u8>, i: int, s: Seq<u8>)
    requires
        0 <= i,
        fits_len(s),
        i + 4 + s.len() <= b.len(),
        b.subrange(i, i + 4 + s.len()) == e_bytes(s),
    ensures
        d_bytes(b, i) == Some((s, i + 4 + s.len())),
{
    let n: u32 = s.len() as u32;
    assert(n as int == s.len());
    assert(b.subrange(i, i + 4) =~= b.subrange(i, i + 4 + s.len()).subrange(0, 4));
    assert(b.subrange(i, i + 4) =~= e_u32(n));
    lemma_d_u32_enc(b, i, n);
    assert(b.subrange(i + 4, i + 4 + s.len()) =~= b.subrange(i, i + 4 + s.len()).subrange(
        4,
        4 + s.len() as int,
    ));
    assert(b.subrange(i + 4, i + 4 + s.len()) =~= s);
}

/// Decoding a raw record's encoding yields the record back.
#[verifier::rlimit(100)]
pub proof fn lemma_raw_round_trip(m: RawModel)
    requires
        encodable_raw(m),
    ensures
        d_raw(e_raw(m)) == Some(m),
{
    let b = e_raw(m);
    lemma_raw_size(m);
    let p1 = e_channel(m.channel);
    let p2 = e_u64(m.timestamp);
    let p3 = e_bytes(m.from_address);
    let p4 = e_bytes(m.to_address);
    let p5 = e_bool(m.encrypted);
    let p6 = e_bytes(m.payload);
    let p7 = e_opt_bytes(m.enc_iv);
    let i1 = 5int;
    let i2 = i1 + 8;
    let i3 = i2 + 4 + m.from_address.len();
    let i4 = i3 + 4 + m.to_address.len();
    let i5 = i4 + 1;
    let i6 = i5 + 4 + m.payload.len();
    let i7 = b.len() as int;
    match m.channel {
        MessageChannel::Normal(n) => {
            assert(p1 =~= seq![0u8] + e_u32(n));
            assert(b[0] == 0);
            assert(b.subrange(1, 5) =~= e_u32(n));
            lemma_d_u32_enc(b, 1, n);
            assert(d_channel(b, 0) == Some((m.channel, i1)));
        },
    }
    assert(b.subrange(i1, i2) =~= p2);
    lemma_d_u64_enc(b, i1, m.timestamp);
    assert(b.subrange(i2, i3) =~= p3);
    lemma_d_bytes_enc(b, i2, m.from_address);
    assert(b.subrange(i3, i4) =~= p4);
    lemma_d_bytes_enc(b, i3, m.to_address);
    assert(b[i4] == (if m.encrypted { 1u8 } else { 0u8 }));
    assert(d_bool(b, i4) == Some((m.encrypted, i5)));
    assert(b.subrange(i5, i6) =~= p6);
    lemma_d_bytes_enc(b, i5, m.payload);
    match m.enc_iv {
        None => {
            assert(b[i6] == 0);
            assert(d_opt_bytes(b, i6) == Some((None::<Seq<u8>>, i7)));
        },
        Some(iv) => {
            assert(p7 =~= seq![1u8] + e_bytes(iv));
            assert(b[i6] == 1);
            assert(b.subrange(i6 + 1, i7) =~= e_bytes(iv));
            lemma_d_bytes_enc(b, i6 + 1, iv);
            assert(d_opt_bytes(b, i6) == Some((Some(iv), i7)));
        },
    }
    assert(d_raw(b) == Some(m));
}

/// Decoding an envelope's encoding yields the envelope back.
#[verifier::rlimit(100)]
pub proof fn lemma_signed_round_trip(m: SignedModel)
    requires
        encodable_signed(m),
    ensures
        d_signed(e_signed(m)) == Some(m),
{
    let b = e_signed(m);
    let p1 = e_bytes(m.raw);
    let p2 = e_bytes(m.hash);
    let p3 = e_u64(m.nonce);
    let p4 = e_bytes(m.signature);
    let p5 = e_opt_bytes(m.last_edge_addr);
    let i1 = 4 + m.raw.len() as int;
    let i2 = i1 + 4 + m.hash.len();
    let i3 = i2 + 8;
    let i4 = i3 + 4 + m.signature.len();
    let i5 = b.len() as int;
    assert(b.subrange(0, i1) =~= p1);
    lemma_d_bytes_enc(b, 0, m.raw);
    assert(b.subrange(i1, i2) =~= p2);
    lemma_d_bytes_enc(b, i1, m.hash);
    assert(b.subrange(i2, i3) =~= p3);
    lemma_d_u64_enc(b, i2, m.nonce);
    assert(b.subrange(i3, i4) =~= p4);
    lemma_d_bytes_enc(b, i3, m.signature);
    match m.last_edge_addr {
        None => {
            assert(b[i4] == 0);
            assert(d_opt_bytes(b, i4) == Some((None::<Seq<u8>>, i5)));
        },
        Some(a) => {
            assert(p5 =~= seq![1u8] + e_bytes(a));
            assert(b[i4] == 1);
            assert(b.subrange(i4 + 1, i5) =~= e_bytes(a));
            lemma_d_bytes_enc(b, i4 + 1, a);
            assert(d_opt_bytes(b, i4) == Some((Some(a), i5)));
        },
    }
    assert(d_signed(b) == Some(m));
}

pub open spec fn d_signed(b: Seq<u8>) -> Option<SignedModel> {
    match d_bytes(b, 0) {
        None => None,
        Some((raw, i1)) => match d_bytes(b, i1) {
            None => None,
            Some((hash, i2)) => match d_u64(b, i2) {
                None => None,
                Some((nonce, i3)) => match d_bytes(b, i3) {
                    None => None,
                    Some((signature, i4)) => match d_opt_bytes(b, i4) {
                        None => None,
                        Some((last_edge_addr, i5)) => if i5 == b.len() {
                            Some(SignedModel { raw, hash, nonce, signature, last_edge_addr })
                        } else {
                            None
                        },
                    },
                },
            },
        },
    }
}

// ---------------------------------------------------------------------------
// Executable decoders.
// ---------------------------------------------------------------------------

fn read_u32(data: &[u8], i: usize) -> (r: Option<(u32, usize)>)
    requires
        i <= data@.len(),
    ensures
        match r {
            Some((v, j)) => d_u32(data@, i as int) == Some((v, j as int)) && i <= j <= data@.len(),
            None => d_u32(data@, i as int) is None,
        },
{
    if data.len() - i < 4 {
        return None;
    }
    let b0 = data[i];
    let b1 = data[i + 1];
    let b2 = data[i + 2];
    let b3 = data[i + 3];
    Some(((b0 as u32) | ((b1 as u32) << 8) | ((b2 as u32) << 16) | ((b3 as u32) << 24), i + 4))
}

fn read_u64(data: &[u8], i: usize) -> (r: Option<(u64, usize)>)
    requires
        i <= data@.len(),
    ensures
        match r {
            Some((v, j)) => d_u64(data@, i as int) == Some((v, j as int)) && i <= j <= data@.len(),
            None => d_u64(data@, i as int) is None,
        },
{
    if data.len() - i < 8 {
        return None;
    }
    let b0 = data[i];
    let b1 = data[i + 1];
    let b2 = data[i + 2];
    let b3 = data[i + 3];
    let b4 = data[i + 4];
    let b5 = data[i + 5];
    let b6 = data[i + 6];
    let b7 = data[i + 7];
    Some(
        (
            (b0 as u64) | ((b1 as u64) << 8) | ((b2 as u64) << 16) | ((b3 as u64) << 24) | ((
            b4 as u64) << 32) | ((b5 as u64) << 40) | ((b6 as u64) << 48) | ((b7 as u64) << 56),
            i + 8,
        ),
    )
}

fn read_bytes(data: &[u8], i: usize) -> (r: Option<(Vec<u8>, usize)>)
    requires
        i <= data@.len(),
    ensures
        match r {
            Some((v, j)) => d_bytes(data@, i as int) == Some((v@, j as int)) && i <= j
                <= data@.len(),
            None => d_bytes(data@, i as int) is None,
        },
{
    let (n, j) = match read_u32(data, i) {
        Some(p) => p,
        None => {
            return None;
        },
    };
    if data.len() - j < n as usize {
        return None;
    }
    let mut out: Vec<u8> = Vec::new();
    let mut k: usize = 0;
    while k < n as usize
        invariant
            data@.len() <= usize::MAX,
            j + n as usize <= data@.len(),
            k <= n as usize,
            out@ == data@.subrange(j as int, j + k as int),
        decreases n as usize - k,
    {
        out.push(data[j + k]);
        assert(out@ =~= data@.subrange(j as int, j + (k + 1) as int));
        k = k + 1;
    }
    Some((out, j + n as usize))
}

fn read_bool(data: &[u8], i: usize) -> (r: Option<(bool, usize)>)
    requires
        i <= data@.len(),
    ensures
        match r {
            Some((v, j)) => d_bool(data@, i as int) == Some((v, j as int)) && i <= j
                <= data@.len(),
            None => d_bool(data@, i as int) is None,
        },
{
    if data.len() - i < 1 {
        return None;
    }
    let t = data[i];
    if t == 0 {
        Some((false, i + 1))
    } else if t == 1 {
        Some((true, i + 1))
    } else {
        None
    }
}

fn read_opt_bytes(data: &[u8], i: usize) -> (r: Option<(Option<Vec<u8>>, usize)>)
    requires
        i <= data@.len(),
    ensures
        match r {
            Some((v, j)) => ({
                &&& d_opt_bytes(data@, i as int) matches Some((w, sj)) && sj == j && (match v {
                    Some(inner) => w == Some(inner@),
                    None => w is None,
                })
                &&& i <= j <= data@.len()
            }),
            None => d_opt_bytes(data@, i as int) is None,
        },
{
    if data.len() - i < 1 {
        return None;
    }
    let t = data[i];
    if t == 0 {
        Some((None, i + 1))
    } else if t == 1 {
        match read_bytes(data, i + 1) {
            Some((v, j)) => Some((Some(v), j)),
            None => None,
        }
    } else {
        None
    }
}

fn read_channel(data: &[u8], i: usize) -> (r: Option<(MessageChannel, usize)>)
    requires
        i <= data@.len(),
    ensures
        match r {
            Some((v, j)) => d_channel(data@, i as int) == Some((v, j as int)) && i <= j
                <= data@.len(),
            None => d_channel(data@, i as int) is None,
        },
{
    if data.len() - i < 1 {
        return None;
    }
    let t = data[i];
    if t == 0 {
        match read_u32(data, i + 1) {
            Some((n, j)) => Some((MessageChannel::Normal(n), j)),
            None => None,
        }
    } else {
        None
    }
}

/// Decode a raw record; `None` exactly when the bytes are not an encoding.
pub fn decode_raw_message(data: &[u8]) -> (r: Option<RawMessage>)
    ensures
        match r {
            Some(m) => d_raw(data@) == Some(m@),
            None => d_raw(data@) is None,
        },
{
    let (channel, i1) = match read_channel(data, 0) {
        Some(p) => p,
        None => {
            return None;
        },
    };
    let (timestamp, i2) = match read_u64(data, i1) {
        Some(p) => p,
        None => {
            return None;
        },
    };
    let (from_address, i3) = match read_bytes(data, i2) {
        Some(p) => p,
        None => {
            return None;
        },
    };
    let (to_address, i4) = match read_bytes(data, i3) {
        Some(p) => p,
        None => {
            return None;
        },
    };
    let (encrypted, i5) = match read_bool(data, i4) {
        Some(p) => p,
        None => {
            return None;
        },
    };
    let (payload, i6) = match read_bytes(data, i5) {
        Some(p) => p,
        None => {
            return None;
        },
    };
    let (enc_iv, i7) = match read_opt_bytes(data, i6) {
        Some(p) => p,
        None => {
            return None;
        },
    };
    if i7 != data.len() {
        return None;
    }
    Some(RawMessage { channel, timestamp, from_address, to_address, encrypted, payload, enc_iv })
}

/// Decode an envelope; `None` exactly when the bytes are not an encoding.
pub fn decode_signed_message(data: &[u8]) -> (r: Option<SignedMessage>)
    ensures
        match r {
            Some(m) => d_signed(data@) == Some(m@),
            None => d_signed(data@) is None,
        },
{
    let (raw, i1) = match read_bytes(data, 0) {
        Some(p) => p,
        None => {
            return None;
        },
    };
    let (hash, i2) = match read_bytes(data, i1) {
        Some(p) => p,
        None => {
            return None;
        },
    };
    let (nonce, i3) = match read_u64(data, i2) {
        Some(p) => p,
        None => {
            return None;
        },
    };
    let (signature, i4) = match read_bytes(data, i3) {
        Some(p) => p,
        None => {
            return None;
        },
    };
    let (last_edge_addr, i5) = match read_opt_bytes(data, i4) {
        Some(p) => p,
        None => {
            return None;
        },
    };
    if i5 != data.len() {
        return None;
    }
    Some(SignedMessage { raw, hash, nonce, signature, last_edge_addr })
}

// ---------------------------------------------------------------------------
// Canonicity: decoding accepts exactly the encodings.
// ---------------------------------------------------------------------------

proof fn lemma_d_u32_sound(b: Seq<u8>, i: int)
    requires
        0 <= i,
        i + 4 <= b.len(),
    ensures
        b.subrange(i, i + 4) == e_u32(du32_val(b, i)),
{
    let x = du32_val(b, i);
    let b0 = b[i];
    let b1 = b[i + 1];
    let b2 = b[i + 2];
    let b3 = b[i + 3];
    assert((x & 0xff) as u8 == b0 && ((x >> 8) & 0xff) as u8 == b1 && ((x >> 16) & 0xff) as u8
        == b2 && ((x >> 24) & 0xff) as u8 == b3) by (bit_vector)
        requires
            x == (b0 as u32) | ((b1 as u32) << 8) | ((b2 as u32) << 16) | ((b3 as u32) << 24),
    ;
    assert(b.subrange(i, i + 4) =~= e_u32(x));
}

proof fn lemma_d_u64_sound(b: Seq<u8>, i: int)
    requires
        0 <= i,
        i + 8 <= b.len(),
    ensures
        b.subrange(i, i + 8) == e_u64(du64_val(b, i)),
{
    let x = du64_val(b, i);
    let b0 = b[i];
    let b1 = b[i + 1];
    let b2 = b[i + 2];
    let b3 = b[i + 3];
    let b4 = b[i + 4];
    let b5 = b[i + 5];
    let b6 = b[i + 6];
    let b7 = b[i + 7];
    assert((x & 0xff) as u8 == b0 && ((x >> 8) & 0xff) as u8 == b1 && ((x >> 16) & 0xff) as u8
        == b2 && ((x >> 24) & 0xff) as u8 == b3 && ((x >> 32) & 0xff) as u8 == b4 && ((x >> 40)
        & 0xff) as u8 == b5 && ((x >> 48) & 0xff) as u8 == b6 && ((x >> 56) & 0xff) as u8 == b7)
        by (bit_vector)
        requires
            x == (b0 as u64) | ((b1 as u64) << 8) | ((b2 as u64) << 16) | ((b3 as u64) << 24) | ((
            b4 as u64) << 32) | ((b5 as u64) << 40) | ((b6 as u64) << 48) | ((b7 as u64) << 56),
    ;
    assert(b.subrange(i, i + 8) =~= e_u64(x));
}

proof fn lemma_d_bytes_sound(b: Seq<u8>, i: int)
    requires
        d_bytes(b, i) is Some,
    ensures
        d_bytes(b, i) matches Some((s, j)) ==> {
            &&& i + 4 <= j <= b.len()
            &&& j == i + 4 + s.len()
            &&& fits_len(s)
            &&& b.subrange(i, j) == e_bytes(s)
        },
{
    match d_bytes(b, i) {
        Some((s, j)) => {
            let n = du32_val(b, i);
            lemma_d_u32_sound(b, i);
            assert(s.len() as u32 == n);
            assert(b.subrange(i, j) =~= b.subrange(i, i + 4) + s);
        },
        None => {},
    }
}

/// A decoded envelope's bytes are exactly its canonical encoding: together
/// with the round trip this pins decoding down to the encodings and nothing
/// else.
#[verifier::rlimit(100)]
pub proof fn lemma_signed_sound(b: Seq<u8>, m: SignedModel)
    requires
        d_signed(b) == Some(m),
    ensures
        e_signed(m) == b,
        encodable_signed(m),
{
    match d_bytes(b, 0) {
        None => {},
        Some((raw, i1)) => {
            lemma_d_bytes_sound(b, 0);
            match d_bytes(b, i1) {
                None => {},
                Some((hash, i2)) => {
                    lemma_d_bytes_sound(b, i1);
                    match d_u64(b, i2) {
                        None => {},
                        Some((nonce, i3)) => {
                            lemma_d_u64_sound(b, i2);
                            match d_bytes(b, i3) {
                                None => {},
                                Some((signature, i4)) => {
                                    lemma_d_bytes_sound(b, i3);
                                    match d_opt_bytes(b, i4) {
                                        None => {},
                                        Some((edge, i5)) => {
                                            lemma_opt_sound(b, i4);
                                            assert(b =~= b.subrange(0, i1) + b.subrange(i1, i2)
                                                + b.subrange(i2, i3) + b.subrange(i3, i4)
                                                + b.subrange(i4, i5));
                                            assert(e_signed(m) == b);
                                        },
                                    }
                                },
                            }
                        },
                    }
                },
            }
        },
    }
}

proof fn lemma_opt_sound(b: Seq<u8>, i: int)
    requires
        d_opt_bytes(b, i) is Some,
    ensures
        d_opt_bytes(b, i) matches Some((o, j)) ==> {
            &&& i < j <= b.len()
            &&& (o matches Some(s) ==> fits_len(s))
            &&& b.subrange(i, j) == e_opt_bytes(o)
        },
{
    match d_opt_bytes(b, i) {
        Some((o, j)) => {
            if b[i] == 0 {
                assert(b.subrange(i, j) =~= e_opt_bytes(o));
            } else {
                lemma_d_bytes_sound(b, i + 1);
                match d_bytes(b, i + 1) {
                    Some((s, k)) => {
                        assert(b.subrange(i, j) =~= seq![1u8] + b.subrange(i + 1, j));
                    },
                    None => {},
                }
            }
        },
        None => {},
    }
}

proof fn lemma_channel_sound(b: Seq<u8>, i: int)
    requires
        d_channel(b, i) is Some,
    ensures
        d_channel(b, i) matches Some((c, j)) ==> j == i + 5 && i + 5 <= b.len() && b.subrange(
            i,
            j,
        ) == e_channel(c),
{
    match d_channel(b, i) {
        Some((c, j)) => {
            lemma_d_u32_sound(b, i + 1);
            assert(b.subrange(i, j) =~= seq![0u8] + b.subrange(i + 1, j));
        },
        None => {},
    }
}

/// A decoded raw record's bytes are exactly its canonical encoding.
#[verifier::rlimit(100)]
pub proof fn lemma_raw_sound(b: Seq<u8>, m: RawModel)
    requires
        d_raw(b) == Some(m),
    ensures
        e_raw(m) == b,
        encodable_raw(m),
{
    match d_channel(b, 0) {
        None => {},
        Some((channel, i1)) => {
            lemma_channel_sound(b, 0);
            match d_u64(b, i1) {
                None => {},
                Some((timestamp, i2)) => {
                    lemma_d_u64_sound(b, i1);
                    match d_bytes(b, i2) {
                        None => {},
                        Some((from_address, i3)) => {
                            lemma_d_bytes_sound(b, i2);
                            match d_bytes(b, i3) {
                                None => {},
                                Some((to_address, i4)) => {
                                    lemma_d_bytes_sound(b, i3);
                                    match d_bool(b, i4) {
                                        None => {},
                                        Some((encrypted, i5)) => {
                                            assert(b.subrange(i4, i5) =~= e_bool(encrypted));
                                            match d_bytes(b, i5) {
                                                None => {},
                                                Some((payload, i6)) => {
                                                    lemma_d_bytes_sound(b, i5);
                                                    match d_opt_bytes(b, i6) {
                                                        None => {},
                                                        Some((enc_iv, i7)) => {
                                                            lemma_opt_sound(b, i6);
                                                            assert(b =~= b.subrange(0, i1)
                                                                + b.subrange(i1, i2) + b.subrange(
                                                                i2,
                                                                i3,
                                                            ) + b.subrange(i3, i4) + b.subrange(
                                                                i4,
                                                                i5,
                                                            ) + b.subrange(i5, i6) + b.subrange(
                                                                i6,
                                                                i7,
                                                            ));
                                                            assert(e_raw(m) == b);
                                                        },
                                                    }
                                                },
                                            }
                                        },
                                    }
                                },
                            }
                        },
                    }
                },
            }
        },
    }
}

} // verus!
