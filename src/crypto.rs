//! Key generation for the three signature algorithms, and the hashing and
//! encoding that keys and addresses are built from.
use vstd::prelude::*;

pub mod ed25519;
pub mod keypair;
pub mod secp256k1;
pub mod sr25519;

pub use keypair::{AlgorithmType, Keypair, PublicKey, SecretKey};



verus! {

/// The SHA-256 digest of `data`.
pub uninterp spec fn sha256_of(data: Seq<u8>) -> Seq<u8>;

/// The SHA-512 digest of `data`.
pub uninterp spec fn sha512_of(data: Seq<u8>) -> Seq<u8>;

/// The RIPEMD-160 digest of `data`.
pub uninterp spec fn ripemd160_of(data: Seq<u8>) -> Seq<u8>;

/// The standard, padded base64 text of `data`.
pub uninterp spec fn base64_of(data: Seq<u8>) -> Seq<char>;

/// Relies on `sha2::Sha256::digest`: the 32-byte SHA-256 digest of the input.
#[verifier::external_body]
pub(crate) fn sha256(data: &[u8]) -> (r: [u8; 32])
    ensures
        r@ == sha256_of(data@),
{
    <sha2::Sha256 as sha2::Digest>::digest(data).into()
}

/// Relies on `sha2::Sha512::digest`: the 64-byte SHA-512 digest of the input.
#[verifier::external_body]
pub(crate) fn sha512(data: &[u8]) -> (r: [u8; 64])
    ensures
        r@ == sha512_of(data@),
{
    <sha2::Sha512 as sha2::Digest>::digest(data).into()
}

/// Relies on `ripemd::Ripemd160::digest`: the 20-byte RIPEMD-160 digest of the input.
#[verifier::external_body]
pub(crate) fn ripemd160(data: &[u8]) -> (r: [u8; 20])
    ensures
        r@ == ripemd160_of(data@),
{
    <ripemd::Ripemd160 as ripemd::Digest>::digest(data).into()
}

/// Relies on `base64::encode`: the standard alphabet with `=` padding.
#[verifier::external_body]
pub(crate) fn base64_encode(data: &[u8]) -> (r: String)
    ensures
        r@ == base64_of(data@),
{
    base64::encode(data)
}

/// The bytes that standard base64 decoding gives for `text`, if it decodes.
pub uninterp spec fn base64_decoded_of(text: Seq<char>) -> Option<Seq<u8>>;

/// Relies on `base64::decode`, which takes the text that `base64::encode`
/// gives for some bytes back to those bytes.
#[verifier::external_body]
pub(crate) fn base64_decode(text: &str) -> (r: Option<Vec<u8>>)
    ensures
        r is Some <==> base64_decoded_of(text@) is Some,
        r matches Some(v) ==> base64_decoded_of(text@) == Some(v@),
        forall|b: Seq<u8>| #[trigger] base64_of(b) == text@ ==> (r is Some && r->0@ == b),
{
    base64::decode(text).ok()
}

/// Clamping of a 32-byte scalar: the low three bits and the top bit cleared,
/// the second-highest bit set.
pub open spec fn clamped(d: Seq<u8>) -> Seq<u8> {
    d.update(0, d[0] & 248u8).update(31, (d[31] & 127u8) | 64u8)
}

/// Clamps a scalar the way both Edwards-curve algorithms do before the
/// base point multiplication.
pub fn clamp_scalar(bits: [u8; 32]) -> (r: [u8; 32])
    ensures
        r@ == clamped(bits@),
        r[0] & 7 == 0,
        r[31] & 128 == 0,
        r[31] & 64 == 64,
{
    let mut r = bits;
    r[0] = r[0] & 248;
    r[31] = (r[31] & 127) | 64;
    proof {
        lemma_clamped_bits(bits@);
    }
    assert(r@ =~= clamped(bits@));
    r
}

/// Whatever the 32 bytes, the clamped scalar has bits 0 to 2 of its first
/// byte clear, bit 7 of its last byte clear and bit 6 of its last byte set;
/// the bytes between are kept.
pub proof fn lemma_clamped_bits(d: Seq<u8>)
    requires
        d.len() == 32,
    ensures
        clamped(d).len() == 32,
        clamped(d)[0] & 7 == 0,
        clamped(d)[31] & 128 == 0,
        clamped(d)[31] & 64 == 64,
        forall|i: int| 0 < i < 31 ==> #[trigger] clamped(d)[i] == d[i],
{
    let a = d[0];
    let b = d[31];
    assert((a & 248u8) & 7u8 == 0u8) by (bit_vector);
    assert(((b & 127u8) | 64u8) & 128u8 == 0u8) by (bit_vector);
    assert(((b & 127u8) | 64u8) & 64u8 == 64u8) by (bit_vector);
}

} // verus!
