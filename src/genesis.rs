//! Genesis data of a chain, and its projection onto the genesis document.
use vstd::prelude::*;
use crate::crypto::keypair::{address_of, public_record};
use crate::crypto::{AlgorithmType, PublicKey};
use crate::datetime::{now_utc, rfc3339_text, to_rfc3339_nanos, DateTime};
use crate::duration::Duration;
use crate::model;
use crate::model::genesis::key_algorithm_of;
use crate::text::{decimal_string, decimal_text, hex_encode, hex_text, signed_string, signed_text};

verus! {

/// The application state of the example chain: empty.
#[derive(Debug, Clone, Copy, PartialEq, Eq, Structural)]
pub struct ExampleAppState {}

/// Genesis data of a chain.
pub struct Genesis<AppState> {
    pub genesis_time: DateTime,
    pub chain_id: String,
    /// Starting height of the chain.
    pub initial_height: i64,
    pub consensus_params: ConsensusParams,
    pub validators: Vec<ValidatorInfo>,
    pub app_hash: Vec<u8>,
    pub app_state: AppState,
}

pub struct ConsensusParams {
    pub block: Block,
    pub evidence: Evidence,
    pub validator: Validator,
    pub version: Option<Version>,
}

/// Block size parameters.
pub struct Block {
    /// Maximum number of bytes in a block.
    pub max_bytes: u64,
    /// Maximum gas a block may spend; -1 for no limit.
    pub max_gas: i64,
    /// Kept for the document's shape; the node no longer reads it.
    pub time_iota_ms: i64,
}

pub struct Evidence {
    /// Maximum age, in blocks, of evidence still collected.
    pub max_age_num_blocks: u64,
    /// Maximum age, in time, of evidence still collected.
    pub max_age_duration: Duration,
    pub max_bytes: i64,
}

pub struct Validator {
    /// The key algorithms that validators may use.
    pub pub_key_types: Vec<AlgorithmType>,
}

pub struct Version {
    pub app_version: u64,
}

pub struct ValidatorInfo {
    pub address: [u8; 20],
    pub public_key: PublicKey,
    /// Voting power.
    pub power: u64,
    pub name: Option<String>,
    pub proposer_priority: i64,
}

impl ValidatorInfo {
    /// A validator of power 10 and no name, at the address of `public_key`.
    pub fn generate(public_key: PublicKey) -> (r: Self)
        ensures
            r.address@ == address_of(public_key.algorithm(), public_key.bytes()),
            r.public_key == public_key,
            r.power == 10,
            r.name is None,
            r.proposer_priority == 0,
    {
        ValidatorInfo {
            address: public_key.address(),
            public_key,
            power: 10,
            name: None,
            proposer_priority: 0,
        }
    }
}

/// `r` is the document entry of validator `v`.
pub open spec fn validator_projected(v: ValidatorInfo, r: model::ValidatorInfo) -> bool {
    &&& r.address@ == hex_text(v.address@)
    &&& public_record(v.public_key, r.pub_key)
    &&& r.power@ == decimal_text(v.power as nat)
    &&& match v.name {
        Some(n) => r.name matches Some(m) && m@ == n@,
        None => r.name is None,
    }
    &&& r.proposer_priority@ == signed_text(v.proposer_priority as int)
}

/// `r` is the consensus parameters section of `c`.
pub open spec fn params_projected(c: ConsensusParams, r: model::ConsensusParams) -> bool {
    &&& r.block.max_bytes@ == decimal_text(c.block.max_bytes as nat)
    &&& r.block.max_gas@ == signed_text(c.block.max_gas as int)
    &&& r.block.time_iota_ms@ == signed_text(c.block.time_iota_ms as int)
    &&& r.evidence.max_age_num_blocks@ == decimal_text(c.evidence.max_age_num_blocks as nat)
    &&& r.evidence.max_age_duration@ == decimal_text(c.evidence.max_age_duration.nanoseconds as nat)
    &&& r.evidence.max_bytes@ == signed_text(c.evidence.max_bytes as int)
    &&& r.validator.pub_key_types@ == c.validator.pub_key_types@.map_values(|a: AlgorithmType| key_algorithm_of(a))
    &&& match c.version {
        Some(v) => r.version.app_version matches Some(t) && t@ == decimal_text(v.app_version as nat),
        None => r.version.app_version is None,
    }
}

/// `r` is the genesis document of `g`.
pub open spec fn genesis_projected<AppState>(g: Genesis<AppState>, r: model::Genesis<AppState>) -> bool {
    &&& r.genesis_time@ == rfc3339_text(g.genesis_time)
    &&& r.chain_id@ == g.chain_id@
    &&& r.initial_height@ == signed_text(g.initial_height as int)
    &&& params_projected(g.consensus_params, r.consensus_params)
    &&& r.validators@.len() == g.validators@.len()
    &&& forall|i: int| 0 <= i < g.validators@.len()
        ==> validator_projected(#[trigger] g.validators@[i], r.validators@[i])
    &&& r.app_hash@ == hex_text(g.app_hash@)
    &&& r.app_state == g.app_state
}

/// Every validator key algorithm allowed is one the node accepts.
pub open spec fn key_types_supported(types: Seq<AlgorithmType>) -> bool {
    forall|i: int| 0 <= i < types.len() ==> #[trigger] types[i] != AlgorithmType::Sr25519
}

/// Whether every validator key algorithm in `types` is one the node accepts.
pub fn key_types_check(types: &Vec<AlgorithmType>) -> (r: bool)
    ensures
        r == key_types_supported(types@),
{
    let mut i: usize = 0;
    while i < types.len()
        invariant
            i <= types@.len(),
            forall|j: int| 0 <= j < i ==> #[trigger] types@[j] != AlgorithmType::Sr25519,
        decreases types@.len() - i,
    {
        if types[i] == AlgorithmType::Sr25519 {
            return false;
        }
        i = i + 1;
    }
    true
}

fn validator_model(v: &ValidatorInfo) -> (r: model::ValidatorInfo)
    ensures
        validator_projected(*v, r),
{
    let name = match &v.name {
        Some(n) => Some(n.clone()),
        None => None,
    };
    model::ValidatorInfo {
        address: hex_encode(&v.address),
        pub_key: v.public_key.to_model(),
        power: decimal_string(v.power as u128),
        name,
        proposer_priority: signed_string(v.proposer_priority as i128),
    }
}

fn params_model(c: &ConsensusParams) -> (r: model::ConsensusParams)
    requires
        key_types_supported(c.validator.pub_key_types@),
    ensures
        params_projected(*c, r),
{
    let block = model::BlockSize {
        max_bytes: decimal_string(c.block.max_bytes as u128),
        max_gas: signed_string(c.block.max_gas as i128),
        time_iota_ms: signed_string(c.block.time_iota_ms as i128),
    };
    let evidence = model::EvidenceParams {
        max_age_num_blocks: decimal_string(c.evidence.max_age_num_blocks as u128),
        max_age_duration: decimal_string(c.evidence.max_age_duration.nanoseconds),
        max_bytes: signed_string(c.evidence.max_bytes as i128),
    };
    let types = &c.validator.pub_key_types;
    let mut pub_key_types: Vec<model::PublicKeyAlgorithm> = Vec::new();
    let mut i: usize = 0;
    while i < types.len()
        invariant
            i <= types@.len(),
            key_types_supported(types@),
            pub_key_types@ == types@.subrange(0, i as int).map_values(|a: AlgorithmType| key_algorithm_of(a)),
        decreases types@.len() - i,
    {
        pub_key_types.push(model::PublicKeyAlgorithm::from(types[i]));
        i = i + 1;
        assert(pub_key_types@ =~= types@.subrange(0, i as int).map_values(|a: AlgorithmType| key_algorithm_of(a)));
    }
    assert(types@.subrange(0, types@.len() as int) =~= types@);
    let version = model::VersionParams {
        app_version: match &c.version {
            Some(v) => Some(decimal_string(v.app_version as u128)),
            None => None,
        },
    };
    model::ConsensusParams {
        block,
        evidence,
        validator: model::ValidatorParams { pub_key_types },
        version,
    }
}

impl<AppState> Genesis<AppState> {
    /// The genesis document of this chain. Sr25519 cannot stand among the
    /// validator key algorithms.
    pub fn into_model(self) -> (r: model::Genesis<AppState>)
        requires
            key_types_supported(self.consensus_params.validator.pub_key_types@),
        ensures
            genesis_projected(self, r),
    {
        let mut validators: Vec<model::ValidatorInfo> = Vec::new();
        let mut i: usize = 0;
        while i < self.validators.len()
            invariant
                i <= self.validators@.len(),
                validators@.len() == i,
                forall|j: int| 0 <= j < i ==> validator_projected(#[trigger] self.validators@[j], validators@[j]),
            decreases self.validators@.len() - i,
        {
            validators.push(validator_model(&self.validators[i]));
            i = i + 1;
        }
        let consensus_params = params_model(&self.consensus_params);
        model::Genesis {
            genesis_time: to_rfc3339_nanos(self.genesis_time),
            chain_id: self.chain_id,
            initial_height: signed_string(self.initial_height as i128),
            consensus_params,
            validators,
            app_hash: hex_encode(self.app_hash.as_slice()),
            app_state: self.app_state,
        }
    }

    /// The example chain's genesis, starting now, with `public_key` as its
    /// only validator.
    pub fn generate(public_key: PublicKey) -> (r: Genesis<ExampleAppState>)
        ensures
            r.genesis_time.wf(),
            r.is_example(public_key),
    {
        generate_at(public_key, now_utc())
    }
}

impl Genesis<ExampleAppState> {
    /// The example chain, with `public_key` as its only validator: chain
    /// `test-chain` from height 0, blocks of up to 22020096 bytes with no gas
    /// limit, evidence kept for 100000 blocks or 2000 days and up to 1048576
    /// bytes, Ed25519 validators, and an empty app hash.
    pub open spec fn is_example(self, public_key: PublicKey) -> bool {
        &&& self.chain_id@ == "test-chain"@
        &&& self.initial_height == 0
        &&& self.consensus_params.block.max_bytes == 22020096
        &&& self.consensus_params.block.max_gas == -1
        &&& self.consensus_params.block.time_iota_ms == 1000
        &&& self.consensus_params.evidence.max_age_num_blocks == 100000
        &&& self.consensus_params.evidence.max_age_duration.nanoseconds == 2000 * 86400 * 1_000_000_000
        &&& self.consensus_params.evidence.max_bytes == 1048576
        &&& self.consensus_params.validator.pub_key_types@ == seq![AlgorithmType::Ed25519]
        &&& self.consensus_params.version is None
        &&& self.validators@.len() == 1
        &&& self.validators@[0].public_key == public_key
        &&& self.validators@[0].address@ == address_of(public_key.algorithm(), public_key.bytes())
        &&& self.validators@[0].power == 10
        &&& self.validators@[0].name is None
        &&& self.validators@[0].proposer_priority == 0
        &&& self.app_hash@.len() == 0
    }
}

/// The example chain's genesis at `genesis_time`, with `public_key` as its
/// only validator.
pub fn generate_at(public_key: PublicKey, genesis_time: DateTime) -> (r: Genesis<ExampleAppState>)
    ensures
        r.genesis_time == genesis_time,
        r.is_example(public_key),
{
    let block = Block { max_bytes: 22020096, max_gas: -1, time_iota_ms: 1000 };
    let evidence = Evidence {
        max_age_num_blocks: 100000,
        max_age_duration: Duration::days(2000),
        max_bytes: 1048576,
    };
    let mut pub_key_types: Vec<AlgorithmType> = Vec::new();
    pub_key_types.push(AlgorithmType::Ed25519);
    let consensus_params = ConsensusParams {
        block,
        evidence,
        validator: Validator { pub_key_types },
        version: None,
    };
    let mut validators: Vec<ValidatorInfo> = Vec::new();
    validators.push(ValidatorInfo::generate(public_key));
    assert(pub_key_types@ =~= seq![AlgorithmType::Ed25519]);
    Genesis {
        genesis_time,
        chain_id: String::from_str("test-chain"),
        initial_height: 0,
        consensus_params,
        validators,
        app_hash: Vec::new(),
        app_state: ExampleAppState {},
    }
}

} // verus!
