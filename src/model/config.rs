//! The flat configuration record that the node binary reads from `config.toml`.
use vstd::prelude::*;

verus! {

#[derive(Debug, Clone)]
pub struct Config {
    pub proxy_app: String,
    pub moniker: String,
    pub fast_sync: bool,
    pub db_backend: String,
    pub db_dir: String,
    pub log_level: String,
    pub log_format: String,
    pub genesis_file: String,
    pub priv_validator_key_file: String,
    pub priv_validator_state_file: String,
    pub priv_validator_laddr: String,
    pub node_key_file: String,
    pub abci: String,
    pub filter_peers: bool,
    pub rpc: Rpc,
    pub p2p: P2P,
    pub mempool: Mempool,
    pub statesync: StateSync,
    pub fastsync: FastSync,
    pub consensus: Consensus,
    pub tx_index: TxIndex,
    pub instrumentation: Instrumentation,
}

#[derive(Debug, Clone)]
pub struct Rpc {
    pub laddr: String,
    pub cors_allowed_origins: Vec<String>,
    pub cors_allowed_methods: Vec<String>,
    pub cors_allowed_headers: Vec<String>,
    pub grpc_laddr: String,
    pub grpc_max_open_connections: u64,
    /// Written as `unsafe` in the file.
    pub unsafe_opt: bool,
    pub max_open_connections: u64,
    pub max_subscription_clients: u64,
    pub max_subscriptions_per_client: u64,
    pub experimental_subscription_buffer_size: u64,
    pub experimental_websocket_write_buffer_size: u64,
    pub experimental_close_on_slow_client: bool,
    pub timeout_broadcast_tx_commit: String,
    pub max_body_bytes: u64,
    pub max_header_bytes: u64,
    pub tls_cert_file: String,
    pub tls_key_file: String,
    pub pprof_laddr: String,
}

#[derive(Debug, Clone)]
pub struct P2P {
    pub laddr: String,
    pub external_address: String,
    pub seeds: String,
    pub persistent_peers: String,
    pub upnp: bool,
    pub addr_book_file: String,
    pub addr_book_strict: bool,
    pub max_num_inbound_peers: u64,
    pub max_num_outbound_peers: u64,
    pub unconditional_peer_ids: String,
    pub persistent_peers_max_dial_period: String,
    pub flush_throttle_timeout: String,
    pub max_packet_msg_payload_size: u64,
    pub send_rate: u64,
    pub recv_rate: u64,
    pub pex: bool,
    pub seed_mode: bool,
    pub private_peer_ids: String,
    pub allow_duplicate_ip: bool,
    pub handshake_timeout: String,
    pub dial_timeout: String,
}

#[derive(Debug, Clone)]
pub struct Mempool {
    pub version: String,
    pub recheck: bool,
    pub broadcast: bool,
    pub wal_dir: String,
    pub size: u64,
    pub max_txs_bytes: u64,
    pub cache_size: u64,
    /// Written as `keep-invalid-txs-in-cache` in the file.
    pub keep_invalid_txs_in_cache: bool,
    pub max_tx_bytes: u64,
    pub max_batch_bytes: u64,
    /// Written as `ttl-duration` in the file.
    pub ttl_duration: String,
    /// Written as `ttl-num-blocks` in the file.
    pub ttl_num_blocks: u64,
}

#[derive(Debug, Clone)]
pub struct StateSync {
    pub enable: bool,
    pub rpc_servers: String,
    pub trust_height: u64,
    pub trust_hash: String,
    pub trust_period: String,
    pub discovery_time: String,
    pub temp_dir: String,
    pub chunk_request_timeout: String,
    pub chunk_fetchers: String,
}

#[derive(Debug, Clone)]
pub struct FastSync {
    pub version: String,
}

#[derive(Debug, Clone)]
pub struct Consensus {
    pub wal_file: String,
    pub timeout_propose: String,
    pub timeout_propose_delta: String,
    pub timeout_prevote: String,
    pub timeout_prevote_delta: String,
    pub timeout_precommit: String,
    pub timeout_precommit_delta: String,
    pub timeout_commit: String,
    pub double_sign_check_height: u64,
    pub skip_timeout_commit: bool,
    pub create_empty_blocks: bool,
    pub create_empty_blocks_interval: String,
    pub peer_gossip_sleep_duration: String,
    pub peer_query_maj23_sleep_duration: String,
    pub discard_abci_responses: bool,
}

#[derive(Debug, Clone)]
pub struct TxIndex {
    pub indexer: String,
    /// Written as `psql-conn` in the file.
    pub pgsql_conn: String,
}

#[derive(Debug, Clone)]
pub struct Instrumentation {
    pub prometheus: bool,
    pub prometheus_listen_addr: String,
    pub max_open_connections: u64,
    pub namespace: String,
}

} // verus!
