//! State sync: bootstrapping a node from a snapshot served by peers.
use vstd::prelude::*;
use crate::duration::Duration;

verus! {

#[derive(Debug, Clone)]
pub struct StateSyncConfig {
    pub rpc_servers: Vec<String>,
    pub trust_height: u64,
    pub trust_hash: String,
    pub trust_period: Duration,
    pub discovery_time: Duration,
    pub chunk_request_timeout: Duration,
    pub chunk_fetchers: u64,
}

impl StateSyncConfig {
    pub open spec fn is_default(self) -> bool {
        &&& self.rpc_servers@.len() == 0
        &&& self.trust_height == 0
        &&& self.trust_hash@ == Seq::<char>::empty()
        &&& self.trust_period.nanoseconds == 168 * 3600 * 1_000_000_000
        &&& self.discovery_time.nanoseconds == 15_000_000_000
        &&& self.chunk_request_timeout.nanoseconds == 10_000_000_000
        &&& self.chunk_fetchers == 4
    }
}

impl Default for StateSyncConfig {
    fn default() -> (r: Self)
        ensures
            r.is_default(),
    {
        StateSyncConfig {
            rpc_servers: Vec::new(),
            trust_height: 0,
            trust_hash: String::new(),
            trust_period: Duration::hours(168),
            discovery_time: Duration::new(15, 0),
            chunk_request_timeout: Duration::new(10, 0),
            chunk_fetchers: 4,
        }
    }
}

impl StateSyncConfig {
    /// These settings with `rpc_servers` replaced.
    pub fn rpc_servers(self, rpc_servers: Vec<String>) -> (r: Self)
        ensures
            r == (StateSyncConfig { rpc_servers: rpc_servers, ..self }),
    {
        let mut this = self;
        this.rpc_servers = rpc_servers;
        this
    }

    /// These settings with `trust_height` replaced.
    pub fn trust_height(self, trust_height: u64) -> (r: Self)
        ensures
            r == (StateSyncConfig { trust_height: trust_height, ..self }),
    {
        let mut this = self;
        this.trust_height = trust_height;
        this
    }

    /// These settings with `trust_hash` replaced.
    pub fn trust_hash(self, trust_hash: &str) -> (r: Self)
        ensures
            r.trust_hash@ == trust_hash@,
            r == (StateSyncConfig { trust_hash: r.trust_hash, ..self }),
    {
        let mut this = self;
        this.trust_hash = String::from_str(trust_hash);
        this
    }

    /// These settings with `trust_period` replaced.
    pub fn trust_period(self, trust_period: Duration) -> (r: Self)
        ensures
            r == (StateSyncConfig { trust_period: trust_period, ..self }),
    {
        let mut this = self;
        this.trust_period = trust_period;
        this
    }

    /// These settings with `discovery_time` replaced.
    pub fn discovery_time(self, discovery_time: Duration) -> (r: Self)
        ensures
            r == (StateSyncConfig { discovery_time: discovery_time, ..self }),
    {
        let mut this = self;
        this.discovery_time = discovery_time;
        this
    }

    /// These settings with `chunk_request_timeout` replaced.
    pub fn chunk_request_timeout(self, chunk_request_timeout: Duration) -> (r: Self)
        ensures
            r == (StateSyncConfig { chunk_request_timeout: chunk_request_timeout, ..self }),
    {
        let mut this = self;
        this.chunk_request_timeout = chunk_request_timeout;
        this
    }

    /// These settings with `chunk_fetchers` replaced.
    pub fn chunk_fetchers(self, chunk_fetchers: u64) -> (r: Self)
        ensures
            r == (StateSyncConfig { chunk_fetchers: chunk_fetchers, ..self }),
    {
        let mut this = self;
        this.chunk_fetchers = chunk_fetchers;
        this
    }
}

} // verus!
