//! Keys of any of the three algorithms, their addresses and their records.
use vstd::prelude::*;
use crate::crypto::{base64_decode, base64_decoded_of, base64_encode, base64_of, ripemd160, ripemd160_of, sha256, sha256_of};
use crate::crypto::{ed25519, secp256k1, sr25519};
use crate::model;
use crate::text::{hex_encode, hex_text};

verus! {

#[derive(Debug, Clone, Copy, PartialEq, Eq, Structural)]
pub enum AlgorithmType {
    Secp256k1,
    Ed25519,
    Sr25519,
}

/// The type tag of a secret key of algorithm `a` in a key file.
pub open spec fn secret_type_text(a: AlgorithmType) -> Seq<char> {
    match a {
        AlgorithmType::Ed25519 => "tendermint/PrivKeyEd25519"@,
        AlgorithmType::Secp256k1 => "tendermint/PrivKeySecp256k1"@,
        AlgorithmType::Sr25519 => "tendermint/PrivKeySr25519"@,
    }
}

/// The type tag of a public key of algorithm `a` in a key file.
pub open spec fn public_type_text(a: AlgorithmType) -> Seq<char> {
    match a {
        AlgorithmType::Ed25519 => "tendermint/PubKeyEd25519"@,
        AlgorithmType::Secp256k1 => "tendermint/PubKeySecp256k1"@,
        AlgorithmType::Sr25519 => "tendermint/PubKeySr25519"@,
    }
}

/// The size of a public key of algorithm `a`.
pub open spec fn public_key_len(a: AlgorithmType) -> nat {
    match a {
        AlgorithmType::Secp256k1 => 33,
        _ => 32,
    }
}

/// The address of a public key: RIPEMD-160 of SHA-256 for Secp256k1, the
/// first 20 bytes of SHA-256 for the other two.
pub open spec fn address_of(a: AlgorithmType, public: Seq<u8>) -> Seq<u8> {
    match a {
        AlgorithmType::Secp256k1 => ripemd160_of(sha256_of(public)),
        _ => sha256_of(public).subrange(0, 20),
    }
}

/// Secret key of one of the algorithms.
#[derive(Debug, Clone)]
pub enum SecretKey {
    Ed25519(ed25519::SecretKey),
    Secp256k1(secp256k1::SecretKey),
    Sr25519(sr25519::SecretKey),
}

/// Public key of one of the algorithms.
#[derive(Debug, Clone)]
pub enum PublicKey {
    Ed25519(ed25519::PublicKey),
    Secp256k1(secp256k1::PublicKey),
    Sr25519(sr25519::PublicKey),
}

/// `record` is the key file entry of `key`.
pub open spec fn secret_record(key: SecretKey, record: model::Key) -> bool {
    &&& record.ty@ == secret_type_text(key.algorithm())
    &&& record.value@ == base64_of(key.bytes())
}

/// `record` is the key file entry of `key`.
pub open spec fn public_record(key: PublicKey, record: model::Key) -> bool {
    &&& record.ty@ == public_type_text(key.algorithm())
    &&& record.value@ == base64_of(key.bytes())
}

/// The algorithm whose public key type tag is `tag`, if any.
pub open spec fn public_tag_algorithm(tag: Seq<char>) -> Option<AlgorithmType> {
    if tag == public_type_text(AlgorithmType::Ed25519) {
        Some(AlgorithmType::Ed25519)
    } else if tag == public_type_text(AlgorithmType::Secp256k1) {
        Some(AlgorithmType::Secp256k1)
    } else if tag == public_type_text(AlgorithmType::Sr25519) {
        Some(AlgorithmType::Sr25519)
    } else {
        None
    }
}

/// `r` is what reading the public key entry `record` gives: a key exactly
/// when the tag names an algorithm and the value decodes to a key of its
/// size; and the value decodes back to any bytes it is the base64 text of.
pub open spec fn public_key_read(record: model::Key, r: Option<PublicKey>) -> bool {
    &&& r is Some <==> (public_tag_algorithm(record.ty@) is Some
        && base64_decoded_of(record.value@) is Some
        && base64_decoded_of(record.value@)->0.len() == public_key_len(public_tag_algorithm(record.ty@)->0))
    &&& r matches Some(p) ==> (public_tag_algorithm(record.ty@) == Some(p.algorithm())
        && base64_decoded_of(record.value@) == Some(p.bytes()))
    &&& forall|b: Seq<u8>| #[trigger] base64_of(b) == record.value@
        ==> base64_decoded_of(record.value@) == Some(b)
}

impl SecretKey {
    pub open spec fn algorithm(self) -> AlgorithmType {
        match self {
            SecretKey::Ed25519(_) => AlgorithmType::Ed25519,
            SecretKey::Secp256k1(_) => AlgorithmType::Secp256k1,
            SecretKey::Sr25519(_) => AlgorithmType::Sr25519,
        }
    }

    pub open spec fn bytes(self) -> Seq<u8> {
        match self {
            SecretKey::Ed25519(k) => k.0@,
            SecretKey::Secp256k1(k) => k.bytes(),
            SecretKey::Sr25519(k) => k.0@,
        }
    }

    /// An Ed25519 secret holds the public key of its seed.
    pub open spec fn wf(self) -> bool {
        match self {
            SecretKey::Ed25519(k) => k.wf(),
            _ => true,
        }
    }

    /// The bytes of the public key that belongs to this secret.
    pub open spec fn public_bytes(self) -> Seq<u8> {
        match self {
            SecretKey::Ed25519(k) => k.0@.subrange(32, 64),
            SecretKey::Secp256k1(k) => secp256k1::secp256k1_public_of(k.bytes()),
            SecretKey::Sr25519(k) => sr25519::public_of_secret(k.0@),
        }
    }

    /// The key file entry of this secret.
    pub fn into_model(self) -> (r: model::Key)
        ensures
            secret_record(self, r),
    {
        let (ty, value) = match &self {
            SecretKey::Ed25519(k) => ("tendermint/PrivKeyEd25519", base64_encode(&k.0)),
            SecretKey::Secp256k1(k) => ("tendermint/PrivKeySecp256k1", base64_encode(k.as_bytes())),
            SecretKey::Sr25519(k) => ("tendermint/PrivKeySr25519", base64_encode(&k.0)),
        };
        model::Key { ty: String::from_str(ty), value }
    }

    /// A secret key of algorithm `ty`, drawn from `rng`.
    pub fn generate<R: rand_core::RngCore + rand_core::CryptoRng>(ty: AlgorithmType, rng: R) -> (r: Self)
        ensures
            r.algorithm() == ty,
            r.wf(),
    {
        match ty {
            AlgorithmType::Ed25519 => SecretKey::Ed25519(ed25519::SecretKey::generate(rng)),
            AlgorithmType::Secp256k1 => SecretKey::Secp256k1(secp256k1::SecretKey::generate(rng)),
            AlgorithmType::Sr25519 => SecretKey::Sr25519(sr25519::SecretKey::generate(rng)),
        }
    }

    /// The public key that belongs to this secret.
    pub fn public_key(&self) -> (r: PublicKey)
        ensures
            r.algorithm() == self.algorithm(),
            r.bytes() == self.public_bytes(),
    {
        match self {
            SecretKey::Ed25519(k) => PublicKey::Ed25519(k.public_key()),
            SecretKey::Secp256k1(k) => PublicKey::Secp256k1(k.public_key()),
            SecretKey::Sr25519(k) => PublicKey::Sr25519(k.public_key()),
        }
    }
}

fn to_array<const N: usize>(v: &Vec<u8>) -> (r: [u8; N])
    requires
        v@.len() == N,
    ensures
        r@ == v@,
{
    let mut a = [0u8; N];
    let mut i: usize = 0;
    while i < N
        invariant
            i <= N,
            v@.len() == N,
            a@.len() == N,
            forall|j: int| 0 <= j < i ==> a[j] == v@[j],
        decreases N - i,
    {
        a[i] = v[i];
        i = i + 1;
    }
    assert(a@ =~= v@);
    a
}

impl PublicKey {
    pub open spec fn algorithm(self) -> AlgorithmType {
        match self {
            PublicKey::Ed25519(_) => AlgorithmType::Ed25519,
            PublicKey::Secp256k1(_) => AlgorithmType::Secp256k1,
            PublicKey::Sr25519(_) => AlgorithmType::Sr25519,
        }
    }

    pub open spec fn bytes(self) -> Seq<u8> {
        match self {
            PublicKey::Ed25519(k) => k.0@,
            PublicKey::Secp256k1(k) => k.0@,
            PublicKey::Sr25519(k) => k.0@,
        }
    }

    /// The key file entry of this public key.
    pub fn into_model(self) -> (r: model::Key)
        ensures
            public_record(self, r),
    {
        self.to_model()
    }

    /// The key file entry of this public key, leaving the key in place.
    pub fn to_model(&self) -> (r: model::Key)
        ensures
            public_record(*self, r),
    {
        let (ty, value) = match self {
            PublicKey::Ed25519(k) => ("tendermint/PubKeyEd25519", base64_encode(&k.0)),
            PublicKey::Secp256k1(k) => ("tendermint/PubKeySecp256k1", base64_encode(&k.0)),
            PublicKey::Sr25519(k) => ("tendermint/PubKeySr25519", base64_encode(&k.0)),
        };
        model::Key { ty: String::from_str(ty), value }
    }

    /// Reads a public key back from its key file entry.
    pub fn from_model(record: &model::Key) -> (r: Option<PublicKey>)
        ensures
            public_key_read(*record, r),
    {
        proof {
            reveal_strlit("tendermint/PubKeyEd25519");
            reveal_strlit("tendermint/PubKeySecp256k1");
            reveal_strlit("tendermint/PubKeySr25519");
        }
        let decoded = base64_decode(record.value.as_str());
        let v = match decoded {
            Some(v) => v,
            None => {
                return None;
            },
        };
        let r = if record.ty == String::from_str("tendermint/PubKeyEd25519") {
            if v.len() == 32 {
                Some(PublicKey::Ed25519(ed25519::PublicKey(to_array(&v))))
            } else {
                None
            }
        } else if record.ty == String::from_str("tendermint/PubKeySecp256k1") {
            if v.len() == 33 {
                Some(PublicKey::Secp256k1(secp256k1::PublicKey(to_array(&v))))
            } else {
                None
            }
        } else if record.ty == String::from_str("tendermint/PubKeySr25519") {
            if v.len() == 32 {
                Some(PublicKey::Sr25519(sr25519::PublicKey(to_array(&v))))
            } else {
                None
            }
        } else {
            None
        };
        r
    }

    /// The 20-byte address of this public key.
    pub fn address(&self) -> (r: [u8; 20])
        ensures
            r@ == address_of(self.algorithm(), self.bytes()),
    {
        match self {
            PublicKey::Secp256k1(k) => {
                let step = sha256(&k.0);
                ripemd160(&step)
            },
            PublicKey::Ed25519(k) => first_twenty(&sha256(&k.0)),
            PublicKey::Sr25519(k) => first_twenty(&sha256(&k.0)),
        }
    }
}

fn first_twenty(d: &[u8; 32]) -> (r: [u8; 20])
    ensures
        r@ == d@.subrange(0, 20),
{
    let mut a = [0u8; 20];
    let mut i: usize = 0;
    while i < 20
        invariant
            i <= 20,
            forall|j: int| 0 <= j < i ==> a[j] == d[j],
        decreases 20 - i,
    {
        a[i] = d[i];
        i = i + 1;
    }
    assert(a@ =~= d@.subrange(0, 20));
    a
}

/// A secret key and the public key derived from it.
#[derive(Debug, Clone)]
pub struct Keypair {
    pub secret_key: SecretKey,
    pub public_key: PublicKey,
}

/// `record` is the key file of `kp`: the hex address of its public key, and
/// both keys' entries.
pub open spec fn keypair_record(kp: Keypair, record: model::Keypair) -> bool {
    &&& record.address@ == hex_text(address_of(kp.public_key.algorithm(), kp.public_key.bytes()))
    &&& secret_record(kp.secret_key, record.priv_key)
    &&& public_record(kp.public_key, record.pub_key)
}

impl Keypair {
    /// The public key is the one derived from the secret key.
    pub open spec fn wf(self) -> bool {
        &&& self.secret_key.wf()
        &&& self.public_key.algorithm() == self.secret_key.algorithm()
        &&& self.public_key.bytes() == self.secret_key.public_bytes()
    }

    /// The key file of this keypair.
    pub fn into_model(self) -> (r: model::Keypair)
        ensures
            keypair_record(self, r),
    {
        let address = self.public_key.address();
        let pub_key = self.public_key.into_model();
        let priv_key = self.secret_key.into_model();
        model::Keypair { address: hex_encode(&address), priv_key, pub_key }
    }

    /// A keypair of algorithm `ty` whose secret is drawn from `rng`.
    pub fn generate<R: rand_core::RngCore + rand_core::CryptoRng>(ty: AlgorithmType, rng: R) -> (r: Self)
        ensures
            r.secret_key.algorithm() == ty,
            r.wf(),
    {
        let secret_key = SecretKey::generate(ty, rng);
        let public_key = secret_key.public_key();
        Keypair { secret_key, public_key }
    }
}

/// Deriving a public key is deterministic: two secrets of one algorithm with
/// equal bytes give public keys of that algorithm with equal bytes, 32 bytes
/// long for Ed25519 and Sr25519 and 33 for Secp256k1.
pub proof fn lemma_public_key_deterministic(s1: SecretKey, s2: SecretKey, p1: PublicKey, p2: PublicKey)
    requires
        s1.algorithm() == s2.algorithm(),
        s1.bytes() == s2.bytes(),
        p1.algorithm() == s1.algorithm(),
        p1.bytes() == s1.public_bytes(),
        p2.algorithm() == s2.algorithm(),
        p2.bytes() == s2.public_bytes(),
    ensures
        p1.algorithm() == p2.algorithm(),
        p1.bytes() == p2.bytes(),
        p1.bytes().len() == public_key_len(s1.algorithm()),
{
    match p1 {
        PublicKey::Ed25519(k) => assert(k.0@.len() == 32),
        PublicKey::Secp256k1(k) => assert(k.0@.len() == 33),
        PublicKey::Sr25519(k) => assert(k.0@.len() == 32),
    }
}

/// An address depends on the algorithm and the public key bytes alone, and
/// has 20 bytes.
pub proof fn lemma_address_deterministic(p1: PublicKey, p2: PublicKey, a1: [u8; 20], a2: [u8; 20])
    requires
        p1.algorithm() == p2.algorithm(),
        p1.bytes() == p2.bytes(),
        a1@ == address_of(p1.algorithm(), p1.bytes()),
        a2@ == address_of(p2.algorithm(), p2.bytes()),
    ensures
        a1@ == a2@,
        a1@.len() == 20,
{
}

/// Reading back the public key entry of a keypair's key file gives a public
/// key of the same algorithm and bytes, whose address is the one in the file.
pub proof fn lemma_public_key_round_trip(kp: Keypair, record: model::Keypair, back: Option<PublicKey>)
    requires
        keypair_record(kp, record),
        public_key_read(record.pub_key, back),
    ensures
        back matches Some(p) && p.algorithm() == kp.public_key.algorithm() && p.bytes() == kp.public_key.bytes(),
        back matches Some(p) && address_of(p.algorithm(), p.bytes())
            == address_of(kp.public_key.algorithm(), kp.public_key.bytes()),
        back matches Some(p) && record.address@ == hex_text(address_of(p.algorithm(), p.bytes())),
{
    reveal_strlit("tendermint/PubKeyEd25519");
    reveal_strlit("tendermint/PubKeySecp256k1");
    reveal_strlit("tendermint/PubKeySr25519");
    let pk = kp.public_key;
    assert(base64_of(pk.bytes()) == record.pub_key.value@);
    match pk {
        PublicKey::Ed25519(k) => assert(k.0@.len() == 32),
        PublicKey::Secp256k1(k) => assert(k.0@.len() == 33),
        PublicKey::Sr25519(k) => assert(k.0@.len() == 32),
    }
    let ed = public_type_text(AlgorithmType::Ed25519);
    let secp = public_type_text(AlgorithmType::Secp256k1);
    let sr = public_type_text(AlgorithmType::Sr25519);
    assert(secp.len() == 26);
    assert(secp[17] == 'S');
    assert(ed[17] != secp[17] && ed != secp);
    assert(ed[17] != sr[17] && ed != sr);
    assert(secp[18] != sr[18] && secp != sr);
    assert(public_tag_algorithm(record.pub_key.ty@) == Some(pk.algorithm()));
}

} // verus!
