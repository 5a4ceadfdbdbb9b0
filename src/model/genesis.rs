//! The genesis document: numbers as decimal text, keys as key entries.
use vstd::prelude::*;
use crate::crypto::AlgorithmType;
use crate::model::Key;

verus! {

#[derive(Debug, Clone)]
pub struct Genesis<AppState> {
    /// RFC 3339 text.
    pub genesis_time: String,
    pub chain_id: String,
    pub initial_height: String,
    pub consensus_params: ConsensusParams,
    pub validators: Vec<ValidatorInfo>,
    /// Lower-case hex.
    pub app_hash: String,
    pub app_state: AppState,
}

#[derive(Debug, Clone)]
pub struct ConsensusParams {
    pub block: BlockSize,
    pub evidence: EvidenceParams,
    pub validator: ValidatorParams,
    pub version: VersionParams,
}

#[derive(Debug, Clone)]
pub struct BlockSize {
    pub max_bytes: String,
    pub max_gas: String,
    pub time_iota_ms: String,
}

#[derive(Debug, Clone)]
pub struct EvidenceParams {
    pub max_age_num_blocks: String,
    /// Nanoseconds.
    pub max_age_duration: String,
    pub max_bytes: String,
}

#[derive(Debug, Clone)]
pub struct ValidatorParams {
    pub pub_key_types: Vec<PublicKeyAlgorithm>,
}

/// The key algorithms that validators of the node may use: written
/// `ed25519` and `secp256k1`.
#[derive(Debug, Clone, Copy, PartialEq, Eq, Structural)]
pub enum PublicKeyAlgorithm {
    Ed25519,
    Secp256k1,
}

/// The algorithm of the validator parameters that stands for `a`.
pub open spec fn key_algorithm_of(a: AlgorithmType) -> PublicKeyAlgorithm {
    match a {
        AlgorithmType::Secp256k1 => PublicKeyAlgorithm::Secp256k1,
        _ => PublicKeyAlgorithm::Ed25519,
    }
}

impl PublicKeyAlgorithm {
    /// The validator parameter of `a`; Sr25519 has none.
    pub fn from(a: AlgorithmType) -> (r: Self)
        requires
            a != AlgorithmType::Sr25519,
        ensures
            r == key_algorithm_of(a),
    {
        match a {
            AlgorithmType::Ed25519 => PublicKeyAlgorithm::Ed25519,
            AlgorithmType::Secp256k1 => PublicKeyAlgorithm::Secp256k1,
            AlgorithmType::Sr25519 => PublicKeyAlgorithm::Ed25519,
        }
    }
}

#[derive(Debug, Clone)]
pub struct VersionParams {
    /// Left out of the document when absent.
    pub app_version: Option<String>,
}

#[derive(Debug, Clone)]
pub struct ValidatorInfo {
    /// Lower-case hex.
    pub address: String,
    pub pub_key: Key,
    pub power: String,
    pub name: Option<String>,
    pub proposer_priority: String,
}

} // verus!
