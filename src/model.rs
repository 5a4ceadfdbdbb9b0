//! The wire records: the exact shapes that the node binary reads from disk.
pub mod config;
pub mod genesis;
pub mod keypair;
pub mod validator_state;

pub use config::{Config, Consensus, FastSync, Instrumentation, Mempool, Rpc, StateSync, TxIndex, P2P};
pub use genesis::{
    BlockSize, ConsensusParams, EvidenceParams, Genesis, PublicKeyAlgorithm, ValidatorInfo, ValidatorParams,
    VersionParams,
};
pub use keypair::{Key, Keypair};
pub use validator_state::ValidatorState;
