//! Transaction pool settings.
use vstd::prelude::*;
use crate::duration::Duration;

verus! {

#[derive(Debug, Clone, Copy, PartialEq, Eq, Structural)]
pub enum MempoolVersion {
    FIFO,
    Priority,
}

impl MempoolVersion {
    pub open spec fn text(self) -> Seq<char> {
        match self {
            MempoolVersion::FIFO => "v0"@,
            MempoolVersion::Priority => "v1"@,
        }
    }

    pub fn to_str(&self) -> (r: &'static str)
        ensures
            r@ == self.text(),
    {
        match self {
            MempoolVersion::FIFO => "v0",
            MempoolVersion::Priority => "v1",
        }
    }
}

impl Default for MempoolVersion {
    fn default() -> (r: Self)
        ensures
            r == MempoolVersion::FIFO,
    {
        MempoolVersion::FIFO
    }
}

#[derive(Debug, Clone)]
pub struct MempoolConfig {
    pub version: MempoolVersion,
    pub recheck: bool,
    pub broadcast: bool,
    pub size: u64,
    pub max_txs_bytes: u64,
    pub cache_size: u64,
    pub keep_invalid_txs_in_cache: bool,
    pub max_tx_bytes: u64,
    pub ttl_duration: Duration,
    pub ttl_num_blocks: u64,
}

impl MempoolConfig {
    pub open spec fn is_default(self) -> bool {
        &&& self.version == MempoolVersion::FIFO
        &&& self.recheck
        &&& self.broadcast
        &&& self.size == 5000
        &&& self.max_txs_bytes == 1073741824
        &&& self.cache_size == 10000
        &&& !self.keep_invalid_txs_in_cache
        &&& self.max_tx_bytes == 1048576
        &&& self.ttl_duration.nanoseconds == 0
        &&& self.ttl_num_blocks == 0
    }
}

impl Default for MempoolConfig {
    fn default() -> (r: Self)
        ensures
            r.is_default(),
    {
        MempoolConfig {
            version: MempoolVersion::FIFO,
            recheck: true,
            broadcast: true,
            size: 5000,
            max_txs_bytes: 1073741824,
            cache_size: 10000,
            keep_invalid_txs_in_cache: false,
            max_tx_bytes: 1048576,
            ttl_duration: Duration::new(0, 0),
            ttl_num_blocks: 0,
        }
    }
}

impl MempoolConfig {
    /// These settings with `version` replaced.
    pub fn version(self, version: MempoolVersion) -> (r: Self)
        ensures
            r == (MempoolConfig { version: version, ..self }),
    {
        let mut this = self;
        this.version = version;
        this
    }

    /// These settings with `recheck` replaced.
    pub fn recheck(self, recheck: bool) -> (r: Self)
        ensures
            r == (MempoolConfig { recheck: recheck, ..self }),
    {
        let mut this = self;
        this.recheck = recheck;
        this
    }

    /// These settings with `broadcast` replaced.
    pub fn broadcast(self, broadcast: bool) -> (r: Self)
        ensures
            r == (MempoolConfig { broadcast: broadcast, ..self }),
    {
        let mut this = self;
        this.broadcast = broadcast;
        this
    }

    /// These settings with `size` replaced.
    pub fn size(self, size: u64) -> (r: Self)
        ensures
            r == (MempoolConfig { size: size, ..self }),
    {
        let mut this = self;
        this.size = size;
        this
    }

    /// These settings with `max_tx_bytes` replaced.
    pub fn max_tx_bytes(self, max_tx_bytes: u64) -> (r: Self)
        ensures
            r == (MempoolConfig { max_tx_bytes: max_tx_bytes, ..self }),
    {
        let mut this = self;
        this.max_tx_bytes = max_tx_bytes;
        this
    }

    /// These settings with `cache_size` replaced.
    pub fn cache_size(self, cache_size: u64) -> (r: Self)
        ensures
            r == (MempoolConfig { cache_size: cache_size, ..self }),
    {
        let mut this = self;
        this.cache_size = cache_size;
        this
    }

    /// These settings with `keep_invalid_txs_in_cache` replaced.
    pub fn keep_invalid_txs_in_cache(self, keep_invalid_txs_in_cache: bool) -> (r: Self)
        ensures
            r == (MempoolConfig { keep_invalid_txs_in_cache: keep_invalid_txs_in_cache, ..self }),
    {
        let mut this = self;
        this.keep_invalid_txs_in_cache = keep_invalid_txs_in_cache;
        this
    }

    /// These settings with `ttl_duration` replaced.
    pub fn ttl_duration(self, ttl_duration: Duration) -> (r: Self)
        ensures
            r == (MempoolConfig { ttl_duration: ttl_duration, ..self }),
    {
        let mut this = self;
        this.ttl_duration = ttl_duration;
        this
    }

    /// These settings with `ttl_num_blocks` replaced.
    pub fn ttl_num_blocks(self, ttl_num_blocks: u64) -> (r: Self)
        ensures
            r == (MempoolConfig { ttl_num_blocks: ttl_num_blocks, ..self }),
    {
        let mut this = self;
        this.ttl_num_blocks = ttl_num_blocks;
        this
    }
}

} // verus!
