//! Ed25519 keys: a random seed, and the public point of its clamped, hashed
//! scalar.
use vstd::prelude::*;
use crate::crypto::{clamp_scalar, clamped, sha512, sha512_of};

verus! {

/// The compressed Edwards point that the base point multiplied by `scalar` gives.
pub uninterp spec fn ed25519_base_mul_of(scalar: Seq<u8>) -> Seq<u8>;

/// Relies on `curve25519_dalek_ng`: `Scalar::from_bits`, multiplication by
/// `ED25519_BASEPOINT_TABLE` and `compress`.
#[verifier::external_body]
fn ed25519_base_mul(scalar: [u8; 32]) -> (r: [u8; 32])
    ensures
        r@ == ed25519_base_mul_of(scalar@),
{
    let s = curve25519_dalek_ng::scalar::Scalar::from_bits(scalar);
    (&s * &curve25519_dalek_ng::constants::ED25519_BASEPOINT_TABLE).compress().to_bytes()
}

/// Relies on `rand_core::RngCore::fill_bytes`: 32 bytes drawn from `rng`.
#[verifier::external_body]
pub(crate) fn random_bytes<R: rand_core::RngCore + rand_core::CryptoRng>(rng: &mut R) -> (r: [u8; 32])
{
    let mut b = [0u8; 32];
    rng.fill_bytes(&mut b);
    b
}

/// The public key of a seed: the low half of its SHA-512 digest, clamped,
/// times the base point.
pub open spec fn public_of_seed(seed: Seq<u8>) -> Seq<u8> {
    ed25519_base_mul_of(clamped(sha512_of(seed).subrange(0, 32)))
}

/// A seed followed by its public key.
#[derive(Debug, Clone)]
pub struct SecretKey(pub [u8; 64]);

/// A compressed Edwards point.
#[derive(Debug, Clone)]
pub struct PublicKey(pub [u8; 32]);

impl SecretKey {
    /// The seed and public key hold together.
    pub open spec fn wf(self) -> bool {
        self.0@.subrange(32, 64) == public_of_seed(self.0@.subrange(0, 32))
    }

    /// The secret key of a given seed.
    pub fn from_seed(seed: [u8; 32]) -> (r: Self)
        ensures
            r.0@ == seed@ + public_of_seed(seed@),
            r.wf(),
    {
        let hash = sha512(&seed);
        let mut digest = [0u8; 32];
        let mut i: usize = 0;
        while i < 32
            invariant
                i <= 32,
                forall|j: int| 0 <= j < i ==> digest[j] == hash[j],
            decreases 32 - i,
        {
            digest[i] = hash[i];
            i = i + 1;
        }
        assert(digest@ =~= hash@.subrange(0, 32));
        let bits = clamp_scalar(digest);
        let public = ed25519_base_mul(bits);
        let mut sk = [0u8; 64];
        let mut k: usize = 0;
        while k < 64
            invariant
                k <= 64,
                forall|j: int| 0 <= j < k && j < 32 ==> sk[j] == seed[j],
                forall|j: int| 32 <= j < k ==> sk[j] == public[j - 32],
            decreases 64 - k,
        {
            if k < 32 {
                sk[k] = seed[k];
            } else {
                sk[k] = public[k - 32];
            }
            k = k + 1;
        }
        let r = SecretKey(sk);
        assert(r.0@ =~= seed@ + public_of_seed(seed@));
        assert(r.0@.subrange(0, 32) =~= seed@);
        assert(r.0@.subrange(32, 64) =~= public@);
        r
    }

    /// A secret key from a seed drawn from `rng`.
    pub fn generate<R: rand_core::RngCore + rand_core::CryptoRng>(rng: R) -> (r: Self)
        ensures
            r.wf(),
    {
        let mut rng = rng;
        let seed = random_bytes(&mut rng);
        Self::from_seed(seed)
    }

    /// The public key held in the second half.
    pub fn public_key(&self) -> (r: PublicKey)
        ensures
            r.0@ == self.0@.subrange(32, 64),
    {
        let mut pk = [0u8; 32];
        let mut i: usize = 0;
        while i < 32
            invariant
                i <= 32,
                forall|j: int| 0 <= j < i ==> pk[j] == self.0[j + 32],
            decreases 32 - i,
        {
            pk[i] = self.0[i + 32];
            i = i + 1;
        }
        assert(pk@ =~= self.0@.subrange(32, 64));
        PublicKey(pk)
    }
}

} // verus!
