//! Timeouts and block production settings of the consensus engine.
use vstd::prelude::*;
use crate::duration::Duration;

verus! {

#[derive(Debug, Clone)]
pub struct ConsensusConfig {
    pub timeout_propose: Duration,
    pub timeout_propose_delta: Duration,
    pub timeout_prevote: Duration,
    pub timeout_prevote_delta: Duration,
    pub timeout_precommit: Duration,
    pub timeout_precommit_delta: Duration,
    pub timeout_commit: Duration,
    pub double_sign_check_height: u64,
    pub skip_timeout_commit: bool,
    pub create_empty_blocks: bool,
    pub create_empty_blocks_interval: Duration,
    pub peer_gossip_sleep_duration: Duration,
    pub peer_query_maj23_sleep_duration: Duration,
    pub discard_abci_responses: bool,
}

impl ConsensusConfig {
    pub open spec fn is_default(self) -> bool {
        &&& self.timeout_propose.nanoseconds == 3_000_000_000
        &&& self.timeout_propose_delta.nanoseconds == 500_000_000
        &&& self.timeout_prevote.nanoseconds == 1_000_000_000
        &&& self.timeout_prevote_delta.nanoseconds == 500_000_000
        &&& self.timeout_precommit.nanoseconds == 1_000_000_000
        &&& self.timeout_precommit_delta.nanoseconds == 500_000_000
        &&& self.timeout_commit.nanoseconds == 1_000_000_000
        &&& self.double_sign_check_height == 0
        &&& !self.skip_timeout_commit
        &&& self.create_empty_blocks
        &&& self.create_empty_blocks_interval.nanoseconds == 0
        &&& self.peer_gossip_sleep_duration.nanoseconds == 100_000_000
        &&& self.peer_query_maj23_sleep_duration.nanoseconds == 2_000_000_000
        &&& !self.discard_abci_responses
    }
}

impl Default for ConsensusConfig {
    fn default() -> (r: Self)
        ensures
            r.is_default(),
    {
        ConsensusConfig {
            timeout_propose: Duration::seconds(3),
            timeout_propose_delta: Duration::milliseconds(500),
            timeout_prevote: Duration::seconds(1),
            timeout_prevote_delta: Duration::milliseconds(500),
            timeout_precommit: Duration::seconds(1),
            timeout_precommit_delta: Duration::milliseconds(500),
            timeout_commit: Duration::seconds(1),
            double_sign_check_height: 0,
            skip_timeout_commit: false,
            create_empty_blocks: true,
            create_empty_blocks_interval: Duration::seconds(0),
            peer_gossip_sleep_duration: Duration::milliseconds(100),
            peer_query_maj23_sleep_duration: Duration::seconds(2),
            discard_abci_responses: false,
        }
    }
}

} // verus!
