use embedded_td::crypto::ed25519;
use embedded_td::genesis::{generate_at, key_types_check, ValidatorInfo};
use embedded_td::model::PublicKeyAlgorithm;
use embedded_td::{AlgorithmType, DateTime, ExampleAppState, Genesis, PublicKey};

fn key() -> PublicKey {
    PublicKey::Ed25519(ed25519::PublicKey([0u8; 32]))
}

#[test]
fn example_genesis_projects_to_decimal_strings() {
    let t = DateTime { year: 2024, month: 2, day: 29, hour: 12, minute: 0, second: 0, nanosecond: 250_000_000 };
    let g = generate_at(key(), t);
    let m = g.into_model();
    assert_eq!(m.genesis_time, "2024-02-29T12:00:00.25Z");
    assert_eq!(m.chain_id, "test-chain");
    assert_eq!(m.initial_height, "0");
    assert_eq!(m.app_hash, "");
    assert_eq!(m.consensus_params.block.max_bytes, "22020096");
    assert_eq!(m.consensus_params.block.max_gas, "-1");
    assert_eq!(m.consensus_params.block.time_iota_ms, "1000");
    assert_eq!(m.consensus_params.evidence.max_age_num_blocks, "100000");
    assert_eq!(m.consensus_params.evidence.max_age_duration, "172800000000000000");
    assert_eq!(m.consensus_params.evidence.max_bytes, "1048576");
    assert_eq!(m.consensus_params.validator.pub_key_types, vec![PublicKeyAlgorithm::Ed25519]);
    assert!(m.consensus_params.version.app_version.is_none());
    assert_eq!(m.validators.len(), 1);
    let v = &m.validators[0];
    assert_eq!(v.address, "66687aadf862bd776c8fc18b8e9f8e2008971485");
    assert_eq!(v.pub_key.ty, "tendermint/PubKeyEd25519");
    assert_eq!(v.pub_key.value, "AAAAAAAAAAAAAAAAAAAAAAAAAAAAAAAAAAAAAAAAAAA=");
    assert_eq!(v.power, "10");
    assert!(v.name.is_none());
    assert_eq!(v.proposer_priority, "0");
    assert_eq!(m.app_state, ExampleAppState {});
}

#[test]
fn app_hash_version_and_names_are_written() {
    let t = DateTime { year: 2024, month: 1, day: 1, hour: 0, minute: 0, second: 0, nanosecond: 0 };
    let mut g = generate_at(key(), t);
    g.app_hash = vec![0xde, 0xad, 0xBE, 0xef];
    g.initial_height = -5;
    g.consensus_params.version = Some(embedded_td::genesis::Version { app_version: 3 });
    g.consensus_params.validator.pub_key_types = vec![AlgorithmType::Secp256k1, AlgorithmType::Ed25519];
    g.validators[0].name = Some(String::from("v0"));
    let m = g.into_model();
    assert_eq!(m.app_hash, "deadbeef");
    assert_eq!(m.initial_height, "-5");
    assert_eq!(m.consensus_params.version.app_version.as_deref(), Some("3"));
    assert_eq!(
        m.consensus_params.validator.pub_key_types,
        vec![PublicKeyAlgorithm::Secp256k1, PublicKeyAlgorithm::Ed25519]
    );
    assert_eq!(m.validators[0].name.as_deref(), Some("v0"));
    assert_eq!(m.genesis_time, "2024-01-01T00:00:00Z");
}

#[test]
fn generated_genesis_starts_now() {
    let g = Genesis::<()>::generate(key());
    assert!(g.genesis_time.year >= 2024);
    assert!(g.genesis_time.month >= 1 && g.genesis_time.month <= 12);
    assert_eq!(g.validators.len(), 1);
}

#[test]
fn validator_info_takes_the_key_address() {
    let v = ValidatorInfo::generate(key());
    assert_eq!(v.address, key().address());
    assert_eq!(v.power, 10);
    assert_eq!(v.proposer_priority, 0);
}

#[test]
fn sr25519_is_not_a_validator_key_type() {
    assert!(key_types_check(&vec![AlgorithmType::Ed25519, AlgorithmType::Secp256k1]));
    assert!(!key_types_check(&vec![AlgorithmType::Ed25519, AlgorithmType::Sr25519]));
}
