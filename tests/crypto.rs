use embedded_td::crypto::{ed25519, secp256k1, sr25519};
use embedded_td::crypto::sr25519::divide_scalar_bytes_by_cofactor;
use embedded_td::crypto::clamp_scalar;
use embedded_td::model::Key;
use embedded_td::{AlgorithmType, Keypair, PublicKey, SecretKey};
use rand::rngs::StdRng;
use rand::SeedableRng;

fn hex(b: &[u8]) -> String {
    b.iter().map(|x| format!("{:02x}", x)).collect()
}

fn unhex(s: &str) -> Vec<u8> {
    (0..s.len()).step_by(2).map(|i| u8::from_str_radix(&s[i..i + 2], 16).unwrap()).collect()
}

fn arr32(s: &str) -> [u8; 32] {
    let v = unhex(s);
    let mut a = [0u8; 32];
    a.copy_from_slice(&v);
    a
}

#[test]
fn generate_secp256k1() {
    let rng = rand::thread_rng();

    let keypair = Keypair::generate(AlgorithmType::Secp256k1, rng);

    let kp_serde = keypair.into_model();

    assert_eq!(kp_serde.priv_key.ty, "tendermint/PrivKeySecp256k1");
    assert_eq!(kp_serde.pub_key.ty, "tendermint/PubKeySecp256k1");
    assert_eq!(kp_serde.address.len(), 40);
    println!("{:?}", kp_serde);
}

#[test]
fn ed25519_seed_gives_rfc8032_public_key() {
    let seed = arr32("9d61b19deffd5a60ba844af492ec2cc44449c5697b326919703bac031cae7f60");
    let sk = ed25519::SecretKey::from_seed(seed);
    assert_eq!(&sk.0[..32], &seed[..]);
    assert_eq!(hex(&sk.public_key().0), "d75a980182b10ab7d54bfed3c964073a0ee172f3daa62325af021a68f707511a");
}

#[test]
fn ed25519_keys_go_to_base64_records() {
    let seed = arr32("9d61b19deffd5a60ba844af492ec2cc44449c5697b326919703bac031cae7f60");
    let secret_key = SecretKey::Ed25519(ed25519::SecretKey::from_seed(seed));
    let public_key = secret_key.public_key();
    let kp = Keypair { secret_key, public_key }.into_model();
    assert_eq!(kp.priv_key.ty, "tendermint/PrivKeyEd25519");
    assert_eq!(
        kp.priv_key.value,
        "nWGxne/9WmC6hEr0kuwsxERJxWl7MmkZcDusAxyuf2DXWpgBgrEKt9VL/tPJZAc6DuFy89qmIyWvAhpo9wdRGg=="
    );
    assert_eq!(kp.pub_key.ty, "tendermint/PubKeyEd25519");
    assert_eq!(kp.pub_key.value, "11qYAYKxCrfVS/7TyWQHOg7hcvPapiMlrwIaaPcHURo=");
    assert_eq!(kp.address, "21fe31dfa154a261626bf854046fd2271b7bed4b");
}

#[test]
fn secp256k1_secret_one_gives_the_generator() {
    let mut one = [0u8; 32];
    one[31] = 1;
    let sk = secp256k1::SecretKey::from_bytes(one).unwrap();
    let pk = sk.public_key();
    assert_eq!(hex(&pk.0), "0279be667ef9dcbbac55a06295ce870b07029bfcdb2dce28d959f2815b16f81798");
    let address = PublicKey::Secp256k1(pk).address();
    assert_eq!(hex(&address), "751e76e8199196d454941c45d1b3a323f1433bd6");
}

#[test]
fn secp256k1_rejects_zero_and_the_group_order() {
    assert!(secp256k1::SecretKey::from_bytes([0u8; 32]).is_none());
    let order = arr32("fffffffffffffffffffffffffffffffebaaedce6af48a03bbfd25e8cd0364141");
    assert!(secp256k1::SecretKey::from_bytes(order).is_none());
    let below = arr32("fffffffffffffffffffffffffffffffebaaedce6af48a03bbfd25e8cd0364140");
    assert!(secp256k1::SecretKey::from_bytes(below).is_some());
}

#[test]
fn addresses_differ_by_algorithm_on_the_same_bytes() {
    let ed = PublicKey::Ed25519(ed25519::PublicKey([0u8; 32])).address();
    let sr = PublicKey::Sr25519(sr25519::PublicKey([0u8; 32])).address();
    let mut b = [0u8; 33];
    b[0] = 2;
    let secp = PublicKey::Secp256k1(secp256k1::PublicKey(b)).address();
    assert_eq!(hex(&ed), "66687aadf862bd776c8fc18b8e9f8e2008971485");
    assert_eq!(ed, sr);
    assert_eq!(hex(&secp), "3625c4a2ea974760a816368fd15de771594476e7");
    assert_ne!(&ed[..], &secp[..]);
}

#[test]
fn address_is_deterministic() {
    let pk = PublicKey::Sr25519(sr25519::PublicKey([7u8; 32]));
    assert_eq!(pk.address(), pk.address());
    assert_eq!(pk.address().len(), 20);
}

#[test]
fn generation_is_deterministic_for_a_seeded_source() {
    for ty in [AlgorithmType::Ed25519, AlgorithmType::Secp256k1, AlgorithmType::Sr25519] {
        let a = Keypair::generate(ty, StdRng::seed_from_u64(42));
        let b = Keypair::generate(ty, StdRng::seed_from_u64(42));
        let (pa, pb) = (a.public_key.into_model(), b.public_key.into_model());
        assert_eq!(pa.value, pb.value);
        let again = a.secret_key.public_key().into_model();
        assert_eq!(pa.value, again.value);
    }
}

#[test]
fn public_key_sizes_follow_the_algorithm() {
    let mut rng = StdRng::seed_from_u64(7);
    let ed = SecretKey::generate(AlgorithmType::Ed25519, &mut rng).public_key();
    let secp = SecretKey::generate(AlgorithmType::Secp256k1, &mut rng).public_key();
    let sr = SecretKey::generate(AlgorithmType::Sr25519, &mut rng).public_key();
    assert!(matches!(ed, PublicKey::Ed25519(ref k) if k.0.len() == 32));
    assert!(matches!(secp, PublicKey::Secp256k1(ref k) if k.0.len() == 33 && (k.0[0] == 2 || k.0[0] == 3)));
    assert!(matches!(sr, PublicKey::Sr25519(ref k) if k.0.len() == 32));
}

#[test]
fn sr25519_public_key_is_a_point_not_the_secret() {
    let sk = sr25519::SecretKey([9u8; 32]);
    let a = sk.public_key();
    let b = sk.public_key();
    assert_eq!(a.0, b.0);
    assert_ne!(a.0, sk.0);
    assert_ne!(a.0, [0u8; 32]);
}

#[test]
fn clamping_sets_and_clears_the_named_bits() {
    let r = clamp_scalar([0xffu8; 32]);
    assert_eq!(r[0], 0xf8);
    assert_eq!(r[31], 0x7f);
    assert_eq!(&r[1..31], &[0xffu8; 30][..]);
    let r = clamp_scalar([0u8; 32]);
    assert_eq!(r[0], 0);
    assert_eq!(r[31], 0x40);
}

#[test]
fn cofactor_division_shifts_the_little_endian_number() {
    let mut s = [0u8; 32];
    s[0] = 0x40;
    s[1] = 0x03;
    divide_scalar_bytes_by_cofactor(&mut s);
    // 0x0340 / 8 == 0x0068
    assert_eq!(s[0], 0x68);
    assert_eq!(s[1], 0x00);
    let mut t = [0xffu8; 32];
    divide_scalar_bytes_by_cofactor(&mut t);
    assert_eq!(t[31], 0x1f);
    assert_eq!(&t[..31], &[0xffu8; 31][..]);
}

#[test]
fn public_key_record_round_trips_to_the_same_address() {
    for ty in [AlgorithmType::Ed25519, AlgorithmType::Secp256k1, AlgorithmType::Sr25519] {
        let kp = Keypair::generate(ty, StdRng::seed_from_u64(3));
        let address = kp.public_key.address();
        let record = kp.clone().into_model();
        let back = PublicKey::from_model(&record.pub_key).unwrap();
        assert_eq!(back.address(), address);
        assert_eq!(record.address, hex(&address));
    }
}

#[test]
fn public_key_record_with_unknown_tag_or_size_is_refused() {
    let unknown = Key { ty: String::from("tendermint/PubKeyBls"), value: String::from("11qYAYKxCrfVS/7TyWQHOg7hcvPapiMlrwIaaPcHURo=") };
    assert!(PublicKey::from_model(&unknown).is_none());
    let short = Key { ty: String::from("tendermint/PubKeySecp256k1"), value: String::from("11qYAYKxCrfVS/7TyWQHOg7hcvPapiMlrwIaaPcHURo=") };
    assert!(PublicKey::from_model(&short).is_none());
    let garbled = Key { ty: String::from("tendermint/PubKeyEd25519"), value: String::from("not base64!") };
    assert!(PublicKey::from_model(&garbled).is_none());
}
