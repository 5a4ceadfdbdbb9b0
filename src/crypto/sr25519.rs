//! Sr25519 keys: a random secret, and the Ristretto point of its clamped,
//! hashed scalar divided by the cofactor.
use vstd::prelude::*;
use crate::crypto::ed25519::random_bytes;
use crate::crypto::{clamp_scalar, clamped, sha512, sha512_of};

verus! {

/// The compressed Ristretto point that the base point multiplied by `scalar` gives.
pub uninterp spec fn ristretto_base_mul_of(scalar: Seq<u8>) -> Seq<u8>;

/// Relies on `curve25519_dalek_ng`: `Scalar::from_bits`, multiplication by
/// `RISTRETTO_BASEPOINT_TABLE` and `compress`.
#[verifier::external_body]
fn ristretto_base_mul(scalar: [u8; 32]) -> (r: [u8; 32])
    ensures
        r@ == ristretto_base_mul_of(scalar@),
{
    let s = curve25519_dalek_ng::scalar::Scalar::from_bits(scalar);
    (&s * &curve25519_dalek_ng::constants::RISTRETTO_BASEPOINT_TABLE).compress().to_bytes()
}

/// Byte `i` of the little-endian number `s` shifted right by three bits.
pub open spec fn divided_byte(s: Seq<u8>, i: int) -> u8 {
    if i + 1 < s.len() {
        ((s[i] >> 3u8) + ((s[i + 1] & 7u8) << 5u8)) as u8
    } else {
        s[i] >> 3u8
    }
}

/// The little-endian number `s` divided by eight.
pub open spec fn divided_by_cofactor(s: Seq<u8>) -> Seq<u8> {
    Seq::new(s.len(), |i: int| divided_byte(s, i))
}

/// The public key of a secret: the low half of its SHA-512 digest, clamped,
/// divided by the cofactor, times the Ristretto base point.
pub open spec fn public_of_secret(secret: Seq<u8>) -> Seq<u8> {
    ristretto_base_mul_of(divided_by_cofactor(clamped(sha512_of(secret).subrange(0, 32))))
}

#[derive(Debug, Clone)]
pub struct SecretKey(pub [u8; 32]);

/// A compressed Ristretto point.
#[derive(Debug, Clone)]
pub struct PublicKey(pub [u8; 32]);

impl SecretKey {
    /// A secret of 32 bytes drawn from `rng`.
    pub fn generate<R: rand_core::RngCore + rand_core::CryptoRng>(rng: R) -> (r: Self) {
        let mut rng = rng;
        SecretKey(random_bytes(&mut rng))
    }

    pub fn public_key(&self) -> (r: PublicKey)
        ensures
            r.0@ == public_of_secret(self.0@),
    {
        let hash = sha512(&self.0);
        let mut key = [0u8; 32];
        let mut i: usize = 0;
        while i < 32
            invariant
                i <= 32,
                forall|j: int| 0 <= j < i ==> key[j] == hash[j],
            decreases 32 - i,
        {
            key[i] = hash[i];
            i = i + 1;
        }
        assert(key@ =~= hash@.subrange(0, 32));
        let mut key = clamp_scalar(key);
        divide_scalar_bytes_by_cofactor(&mut key);
        PublicKey(ristretto_base_mul(key))
    }
}

/// Divides the little-endian number held in `scalar` by eight, carrying the
/// low bits of each byte into the byte below.
pub fn divide_scalar_bytes_by_cofactor(scalar: &mut [u8; 32])
    ensures
        final(scalar)@ == divided_by_cofactor(old(scalar)@),
        le_value(final(scalar)@) == le_value(old(scalar)@) / 8,
{
    let ghost s = old(scalar)@;
    let mut low: u8 = 0;
    let mut i: usize = 32;
    while i > 0
        invariant
            i <= 32,
            s.len() == 32,
            forall|j: int| 0 <= j < i ==> scalar[j] == s[j],
            forall|j: int| i <= j < 32 ==> scalar[j] == divided_byte(s, j),
            i < 32 ==> low == ((s[i as int] & 7u8) << 5u8),
            i == 32 ==> low == 0,
        decreases i,
    {
        i = i - 1;
        let b = scalar[i];
        let r = b & 7;
        assert((b >> 3u8) + low <= 255) by {
            if i < 31 {
                let c = s[i + 1];
                assert((b >> 3u8) + ((c & 7u8) << 5u8) <= 255) by (bit_vector);
            }
        }
        scalar[i] = (b >> 3) + low;
        proof {
            if i < 31 {
                let c = s[i + 1];
                assert(((b >> 3u8) + ((c & 7u8) << 5u8)) as u8 == (b >> 3u8) + ((c & 7u8) << 5u8)) by (bit_vector);
            }
        }
        assert(scalar[i as int] == divided_byte(s, i as int));
        low = r << 5;
    }
    assert(scalar@ =~= divided_by_cofactor(s));
    proof {
        lemma_divided_by_cofactor_value(s);
    }
}

/// The number that the little-endian bytes `b` write.
pub open spec fn le_value(b: Seq<u8>) -> nat
    decreases b.len(),
{
    if b.len() == 0 {
        0
    } else {
        (b[0] + 256 * le_value(b.drop_first())) as nat
    }
}

/// The byte pass divides by the cofactor: read as a little-endian number,
/// its result is the input divided by eight, rounded down.
pub proof fn lemma_divided_by_cofactor_value(s: Seq<u8>)
    ensures
        le_value(divided_by_cofactor(s)) == le_value(s) / 8,
    decreases s.len(),
{
    let d = divided_by_cofactor(s);
    if s.len() == 0 {
        assert(d.len() == 0);
    } else if s.len() == 1 {
        let a = s[0];
        assert(a >> 3u8 == a / 8u8) by (bit_vector);
        assert(d.drop_first().len() == 0);
        assert(le_value(s.drop_first()) == 0) by {
            assert(s.drop_first().len() == 0);
        }
        assert(le_value(d.drop_first()) == 0);
        assert(d[0] == a >> 3u8);
        assert(le_value(d) == le_value(s) / 8);
    } else {
        let t = s.drop_first();
        lemma_divided_by_cofactor_value(t);
        assert(d.drop_first() =~= divided_by_cofactor(t)) by {
            assert forall|i: int| 0 <= i < t.len() implies #[trigger] d.drop_first()[i] == divided_by_cofactor(t)[i] by {
                assert(s[i + 1] == t[i]);
                if i + 2 < s.len() {
                    assert(s[i + 2] == t[i + 1]);
                }
            }
        }
        let a = s[0];
        let b = s[1];
        assert(a >> 3u8 == a / 8u8) by (bit_vector);
        assert((b & 7u8) << 5u8 == (b % 8u8) * 32u8) by (bit_vector);
        assert((a >> 3u8) + ((b & 7u8) << 5u8) < 256) by (bit_vector);
        assert(d[0] as nat == (a as nat) / 8 + ((b as nat) % 8) * 32);
        let l = le_value(t);
        let rest = le_value(t.drop_first());
        assert(l == b + 256 * rest);
        assert(l % 8 == (b as nat) % 8) by (nonlinear_arith)
            requires
                l == b + 256 * rest,
                rest >= 0,
                0 <= b < 256,
        ;
        assert((a + 256 * l) / 8 == (a as nat) / 8 + 32 * l) by (nonlinear_arith)
            requires
                0 <= a < 256,
                l >= 0,
        ;
        assert(32 * l == 256 * (l / 8) + 32 * (l % 8)) by (nonlinear_arith)
            requires
                l >= 0,
        ;
        assert(le_value(d) == d[0] + 256 * le_value(d.drop_first()));
        assert(le_value(d.drop_first()) == l / 8);
        assert(le_value(s) == a + 256 * l);
        assert(le_value(d) == le_value(s) / 8);
    }
}

} // verus!
