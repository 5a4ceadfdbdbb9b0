//! Secp256k1 keys: a random non-zero scalar below the group order, and its
//! compressed public point.
use vstd::prelude::*;

verus! {

/// The number that the big-endian bytes `b` write.
pub open spec fn be_value(b: Seq<u8>) -> nat
    decreases b.len(),
{
    if b.len() == 0 {
        0
    } else {
        (be_value(b.drop_last()) * 256 + b.last()) as nat
    }
}

/// The order of the secp256k1 group.
pub open spec fn group_order() -> nat {
    0xFFFFFFFFFFFFFFFFFFFFFFFFFFFFFFFEu128 as nat * 0x1_0000_0000_0000_0000u128 as nat * 0x1_0000_0000_0000_0000u128 as nat
        + 0xBAAEDCE6AF48A03BBFD25E8CD0364141u128 as nat
}

/// The bytes are a usable secret scalar: neither zero nor at or above the group order.
pub open spec fn valid_secret(b: Seq<u8>) -> bool {
    b.len() == 32 && 0 < be_value(b) < group_order()
}

/// The SEC1 compressed encoding of the public point of the secret scalar `secret`.
pub uninterp spec fn secp256k1_public_of(secret: Seq<u8>) -> Seq<u8>;

/// Relies on `k256::ecdsa::SigningKey::random`, which draws a non-zero scalar
/// below the group order from `rng`, and `SigningKey::to_bytes`, its
/// big-endian bytes.
#[verifier::external_body]
fn random_secret<R: rand_core::RngCore + rand_core::CryptoRng>(rng: &mut R) -> (r: [u8; 32])
    ensures
        valid_secret(r@),
{
    k256::ecdsa::SigningKey::random(rng).to_bytes().into()
}

/// Relies on `k256::ecdsa::SigningKey::from_bytes`, which accepts exactly the
/// valid scalars, and on the compressed SEC1 encoding of its verifying key.
#[verifier::external_body]
fn public_of_secret(secret: &[u8; 32]) -> (r: Option<[u8; 33]>)
    ensures
        r is Some <==> valid_secret(secret@),
        r matches Some(p) ==> p@ == secp256k1_public_of(secret@),
{
    let k = k256::ecdsa::SigningKey::from_bytes(&k256::FieldBytes::from(*secret)).ok()?;
    let p = k.verifying_key().to_encoded_point(true);
    <[u8; 33]>::try_from(p.as_bytes()).ok()
}

/// A secret scalar, as 32 big-endian bytes.
#[derive(Debug)]
pub struct SecretKey([u8; 32]);

impl Clone for SecretKey {
    fn clone(&self) -> (r: Self)
        ensures
            r.bytes() == self.bytes(),
    {
        proof {
            use_type_invariant(self);
        }
        SecretKey(self.0)
    }
}

/// A compressed public point.
#[derive(Debug, Clone)]
pub struct PublicKey(pub [u8; 33]);

impl SecretKey {
    #[verifier::type_invariant]
    spec fn inv(self) -> bool {
        valid_secret(self.0@)
    }

    pub closed spec fn bytes(self) -> Seq<u8> {
        self.0@
    }

    /// A secret scalar drawn from `rng`.
    pub fn generate<R: rand_core::RngCore + rand_core::CryptoRng>(rng: R) -> (r: Self)
        ensures
            valid_secret(r.bytes()),
    {
        let mut rng = rng;
        SecretKey(random_secret(&mut rng))
    }

    /// The secret key of the given bytes, where they are a valid scalar.
    pub fn from_bytes(bytes: [u8; 32]) -> (r: Option<Self>)
        ensures
            r is Some <==> valid_secret(bytes@),
            r matches Some(k) ==> k.bytes() == bytes@,
    {
        if public_of_secret(&bytes).is_some() {
            Some(SecretKey(bytes))
        } else {
            None
        }
    }

    pub fn as_bytes(&self) -> (r: &[u8; 32])
        ensures
            r@ == self.bytes(),
            valid_secret(r@),
    {
        proof {
            use_type_invariant(self);
        }
        &self.0
    }

    pub fn public_key(&self) -> (r: PublicKey)
        ensures
            r.0@ == secp256k1_public_of(self.bytes()),
    {
        proof {
            use_type_invariant(self);
        }
        match public_of_secret(&self.0) {
            Some(p) => PublicKey(p),
            None => {
                assert(false);
                PublicKey([0u8; 33])
            },
        }
    }
}

} // verus!
