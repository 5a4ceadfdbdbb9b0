//! The caller-facing node configuration, and its projection onto the flat
//! record written to `config.toml`.
use vstd::prelude::*;

pub mod consensus;
pub mod db_backend;
pub mod fast_sync;
pub mod log_level;
pub mod mempool;
pub mod p2p;
pub mod prometheus;
pub mod state_sync;
pub mod tx_index;

pub use consensus::ConsensusConfig;
pub use db_backend::DbBackend;
pub use fast_sync::FastSyncVersion;
pub use log_level::{LogFormat, LogLevel};
pub use mempool::{MempoolConfig, MempoolVersion};
pub use p2p::P2PConfig;
pub use prometheus::PrometheusConfig;
pub use state_sync::StateSyncConfig;
pub use tx_index::TxIndexConfig;

use crate::defined;
use crate::duration::Duration;
use crate::model;
use crate::text::{decimal_string, decimal_text, join_path, join_with, joined, path_under, push_char, views_of};

verus! {

/// Settings of the supervised node.
#[derive(Debug, Clone)]
pub struct Config {
    pub log_level: LogLevel,
    /// Readable name of this node.
    pub moniker: String,
    pub db_backend: DbBackend,
    pub log_format: LogFormat,
    /// Address on which the node listens for an external validator signer.
    pub priv_validator_laddr: String,
    /// Whether the application is asked about each new peer.
    pub filter_peers: bool,
    pub pprof_laddr: String,
    /// Database directory; empty for `data` under the working directory.
    pub data_dir: String,
    pub p2p: P2PConfig,
    pub mempool: MempoolConfig,
    /// State sync settings, when state sync is enabled.
    pub state_sync: Option<StateSyncConfig>,
    /// Fast sync protocol version, when fast sync is enabled.
    pub fast_sync: Option<FastSyncVersion>,
    pub consensus: ConsensusConfig,
    pub tx_index: TxIndexConfig,
    /// Metrics settings, when metrics are served.
    pub prometheus: Option<PrometheusConfig>,
}

/// Whole seconds of `d`, followed by `s`.
pub open spec fn seconds_text(d: Duration) -> Seq<char> {
    decimal_text(d.whole_seconds_spec()).push('s')
}

/// Whole milliseconds of `d`, followed by `ms`.
pub open spec fn milliseconds_text(d: Duration) -> Seq<char> {
    decimal_text(d.whole_milliseconds_spec()).push('m').push('s')
}

/// Whole milliseconds of `d`, followed by `s`: the form the consensus
/// timeouts are written in.
pub open spec fn milliseconds_s_text(d: Duration) -> Seq<char> {
    decimal_text(d.whole_milliseconds_spec()).push('s')
}

impl Config {
    /// The settings that `default` gives.
    pub open spec fn is_default(self) -> bool {
        &&& self.data_dir@ == Seq::<char>::empty()
        &&& self.defaults_besides_data_dir()
    }

    /// The default settings, whatever the database directory.
    pub open spec fn defaults_besides_data_dir(self) -> bool {
        &&& self.log_level == LogLevel::Info
        &&& self.moniker@ == "aa"@
        &&& self.db_backend == DbBackend::GoLevelDB
        &&& self.log_format == LogFormat::Plain
        &&& self.priv_validator_laddr@ == Seq::<char>::empty()
        &&& !self.filter_peers
        &&& self.pprof_laddr@ == Seq::<char>::empty()
        &&& self.p2p.is_default()
        &&& self.mempool.is_default()
        &&& self.state_sync is None
        &&& self.fast_sync == Some(FastSyncVersion::V0)
        &&& self.consensus.is_default()
        &&& self.tx_index is Kv
        &&& self.prometheus is None
    }
}

impl Default for Config {
    fn default() -> (r: Self)
        ensures
            r.is_default(),
    {
        Config {
            log_level: LogLevel::Info,
            moniker: String::from_str("aa"),
            db_backend: DbBackend::GoLevelDB,
            log_format: LogFormat::Plain,
            priv_validator_laddr: String::new(),
            filter_peers: false,
            pprof_laddr: String::new(),
            data_dir: String::new(),
            p2p: P2PConfig::default(),
            mempool: MempoolConfig::default(),
            state_sync: None,
            fast_sync: Some(FastSyncVersion::V0),
            consensus: ConsensusConfig::default(),
            tx_index: TxIndexConfig::Kv,
            prometheus: None,
        }
    }
}

/// The RPC section: a socket under `base`, fixed limits, and the caller's
/// profiling address.
pub open spec fn rpc_projected(c: Config, base: Seq<char>, r: model::Rpc) -> bool {
    &&& r.laddr@ == path_under(base, defined::RPC_UNIX_SOCKET_FILE@)
    &&& r.cors_allowed_origins@.len() == 0
    &&& r.cors_allowed_methods@.len() == 0
    &&& r.cors_allowed_headers@.len() == 0
    &&& r.grpc_laddr@ == Seq::<char>::empty()
    &&& r.grpc_max_open_connections == 900
    &&& r.unsafe_opt
    &&& r.max_open_connections == 900
    &&& r.max_subscription_clients == 100
    &&& r.max_subscriptions_per_client == 5
    &&& r.experimental_subscription_buffer_size == 200
    &&& r.experimental_websocket_write_buffer_size == 200
    &&& !r.experimental_close_on_slow_client
    &&& r.timeout_broadcast_tx_commit@ == "10s"@
    &&& r.max_body_bytes == 1000000
    &&& r.max_header_bytes == 1048576
    &&& r.tls_cert_file@ == Seq::<char>::empty()
    &&& r.tls_key_file@ == Seq::<char>::empty()
    &&& r.pprof_laddr@ == c.pprof_laddr@
}

/// The peer-to-peer section: lists joined by commas, durations in seconds
/// except the flush throttle in milliseconds.
pub open spec fn p2p_projected(c: P2PConfig, base: Seq<char>, r: model::P2P) -> bool {
    &&& r.laddr@ == c.laddr@
    &&& r.external_address@ == c.external_address@
    &&& r.seeds@ == joined(views_of(c.seeds@), ',')
    &&& r.persistent_peers@ == joined(views_of(c.persistent_peers@), ',')
    &&& r.upnp == c.upnp
    &&& r.addr_book_file@ == path_under(base, defined::ADDR_BOOK_FILE@)
    &&& r.addr_book_strict == !c.local_net
    &&& r.max_num_inbound_peers == c.max_num_inbound_peers
    &&& r.max_num_outbound_peers == c.max_num_outbound_peers
    &&& r.unconditional_peer_ids@ == joined(views_of(c.unconditional_peer_ids@), ',')
    &&& r.persistent_peers_max_dial_period@ == seconds_text(c.persistent_peers_max_dial_period)
    &&& r.flush_throttle_timeout@ == milliseconds_text(c.flush_throttle_timeout)
    &&& r.max_packet_msg_payload_size == c.max_packet_msg_payload_size
    &&& r.send_rate == c.send_rate
    &&& r.recv_rate == c.recv_rate
    &&& r.pex == c.pex
    &&& r.seed_mode == c.seed_mode
    &&& r.private_peer_ids@ == joined(views_of(c.private_peer_ids@), ',')
    &&& r.allow_duplicate_ip == c.allow_duplicate_ip
    &&& r.handshake_timeout@ == seconds_text(c.handshake_timeout)
    &&& r.dial_timeout@ == seconds_text(c.dial_timeout)
}

pub open spec fn mempool_projected(c: MempoolConfig, r: model::Mempool) -> bool {
    &&& r.version@ == c.version.text()
    &&& r.recheck == c.recheck
    &&& r.broadcast == c.broadcast
    &&& r.wal_dir@ == Seq::<char>::empty()
    &&& r.size == c.size
    &&& r.max_txs_bytes == c.max_txs_bytes
    &&& r.cache_size == c.cache_size
    &&& r.keep_invalid_txs_in_cache == c.keep_invalid_txs_in_cache
    &&& r.max_tx_bytes == c.max_tx_bytes
    &&& r.max_batch_bytes == 0
    &&& r.ttl_duration@ == seconds_text(c.ttl_duration)
    &&& r.ttl_num_blocks == c.ttl_num_blocks
}

/// The state sync section drawn from `s`, with `enable` as its flag.
pub open spec fn statesync_projected(enable: bool, s: StateSyncConfig, r: model::StateSync) -> bool {
    &&& r.enable == enable
    &&& r.rpc_servers@ == joined(views_of(s.rpc_servers@), ',')
    &&& r.trust_height == s.trust_height
    &&& r.trust_hash@ == s.trust_hash@
    &&& r.trust_period@ == seconds_text(s.trust_period)
    &&& r.discovery_time@ == seconds_text(s.discovery_time)
    &&& r.temp_dir@ == Seq::<char>::empty()
    &&& r.chunk_request_timeout@ == seconds_text(s.chunk_request_timeout)
    &&& r.chunk_fetchers@ == decimal_text(s.chunk_fetchers as nat)
}

/// The state sync section when state sync is off: the default settings.
pub open spec fn statesync_disabled(r: model::StateSync) -> bool {
    &&& !r.enable
    &&& r.rpc_servers@ == Seq::<char>::empty()
    &&& r.trust_height == 0
    &&& r.trust_hash@ == Seq::<char>::empty()
    &&& r.trust_period@ == decimal_text(604800).push('s')
    &&& r.discovery_time@ == decimal_text(15).push('s')
    &&& r.temp_dir@ == Seq::<char>::empty()
    &&& r.chunk_request_timeout@ == decimal_text(10).push('s')
    &&& r.chunk_fetchers@ == decimal_text(4)
}

/// The consensus section: the write-ahead log under `base`, timeouts as
/// milliseconds followed by `s`.
pub open spec fn consensus_projected(c: ConsensusConfig, base: Seq<char>, r: model::Consensus) -> bool {
    &&& r.wal_file@ == path_under(base, defined::WAL_FILE@)
    &&& r.timeout_propose@ == milliseconds_s_text(c.timeout_propose)
    &&& r.timeout_propose_delta@ == milliseconds_s_text(c.timeout_propose_delta)
    &&& r.timeout_prevote@ == milliseconds_s_text(c.timeout_prevote)
    &&& r.timeout_prevote_delta@ == milliseconds_s_text(c.timeout_prevote_delta)
    &&& r.timeout_precommit@ == milliseconds_s_text(c.timeout_precommit)
    &&& r.timeout_precommit_delta@ == milliseconds_s_text(c.timeout_precommit_delta)
    &&& r.timeout_commit@ == milliseconds_s_text(c.timeout_commit)
    &&& r.double_sign_check_height == c.double_sign_check_height
    &&& r.skip_timeout_commit == c.skip_timeout_commit
    &&& r.create_empty_blocks == c.create_empty_blocks
    &&& r.create_empty_blocks_interval@ == milliseconds_s_text(c.create_empty_blocks_interval)
    &&& r.peer_gossip_sleep_duration@ == milliseconds_s_text(c.peer_gossip_sleep_duration)
    &&& r.peer_query_maj23_sleep_duration@ == milliseconds_s_text(c.peer_query_maj23_sleep_duration)
    &&& r.discard_abci_responses == c.discard_abci_responses
}

/// The indexer's name, and the connection string for PostgreSQL only.
pub open spec fn tx_index_projected(c: TxIndexConfig, r: model::TxIndex) -> bool {
    &&& r.indexer@ == c.text()
    &&& r.pgsql_conn@ == match c {
        TxIndexConfig::Psql(conn) => conn@,
        _ => Seq::<char>::empty(),
    }
}

/// The metrics section: the flag tells whether metrics are on, the rest
/// comes from the settings given or from the defaults.
pub open spec fn instrumentation_projected(c: Option<PrometheusConfig>, r: model::Instrumentation) -> bool {
    match c {
        Some(p) => {
            &&& r.prometheus
            &&& r.prometheus_listen_addr@ == p.prometheus_listen_addr@
            &&& r.max_open_connections == p.max_open_connections
            &&& r.namespace@ == p.namespace@
        },
        None => {
            &&& !r.prometheus
            &&& r.prometheus_listen_addr@ == ":26660"@
            &&& r.max_open_connections == 3
            &&& r.namespace@ == "tendermint"@
        },
    }
}

/// `m` is the record that `c` projects to under the working directory `base`.
pub open spec fn projects_to(c: Config, base: Seq<char>, m: model::Config) -> bool {
    &&& m.proxy_app@ == path_under(base, defined::APP_UNIX_SOCKET_FILE@)
    &&& m.moniker@ == c.moniker@
    &&& m.fast_sync == c.fast_sync is Some
    &&& m.db_backend@ == c.db_backend.text()
    &&& m.db_dir@ == (if c.data_dir@.len() == 0 {
        path_under(base, defined::DATA_DIR@)
    } else {
        c.data_dir@
    })
    &&& m.log_level@ == c.log_level.text()
    &&& m.log_format@ == c.log_format.text()
    &&& m.genesis_file@ == path_under(base, defined::GENESIS_FILE@)
    &&& m.priv_validator_key_file@ == path_under(base, defined::VALIDATOR_KEY_FILE@)
    &&& m.priv_validator_state_file@ == path_under(base, defined::VALIDATOR_STATE_FILE@)
    &&& m.priv_validator_laddr@ == c.priv_validator_laddr@
    &&& m.node_key_file@ == path_under(base, defined::NODE_KEY_FILE@)
    &&& m.abci@ == "socket"@
    &&& m.filter_peers == c.filter_peers
    &&& rpc_projected(c, base, m.rpc)
    &&& p2p_projected(c.p2p, base, m.p2p)
    &&& mempool_projected(c.mempool, m.mempool)
    &&& match c.state_sync {
        Some(s) => statesync_projected(true, s, m.statesync),
        None => statesync_disabled(m.statesync),
    }
    &&& m.fastsync.version@ == match c.fast_sync {
        Some(v) => v.text(),
        None => "v0"@,
    }
    &&& consensus_projected(c.consensus, base, m.consensus)
    &&& tx_index_projected(c.tx_index, m.tx_index)
    &&& instrumentation_projected(c.prometheus, m.instrumentation)
}

fn seconds_string(d: &Duration) -> (r: String)
    ensures
        r@ == seconds_text(*d),
{
    let mut s = decimal_string(d.whole_seconds());
    push_char(&mut s, 's');
    s
}

fn milliseconds_string(d: &Duration) -> (r: String)
    ensures
        r@ == milliseconds_text(*d),
{
    let mut s = decimal_string(d.whole_milliseconds());
    push_char(&mut s, 'm');
    push_char(&mut s, 's');
    s
}

/// Whole milliseconds of `d` followed by `s`, the form in which the
/// consensus timeouts are written.
pub fn build_duration_ms(d: Duration) -> (r: String)
    ensures
        r@ == milliseconds_s_text(d),
{
    let mut s = decimal_string(d.whole_milliseconds());
    push_char(&mut s, 's');
    s
}

fn rpc_model(pprof_laddr: String, base_dir: &str) -> (r: model::Rpc)
    ensures
        r.laddr@ == path_under(base_dir@, defined::RPC_UNIX_SOCKET_FILE@),
        r.pprof_laddr@ == pprof_laddr@,
        forall|c: Config| c.pprof_laddr@ == pprof_laddr@ ==> #[trigger] rpc_projected(c, base_dir@, r),
{
    model::Rpc {
        laddr: join_path(base_dir, defined::RPC_UNIX_SOCKET_FILE),
        cors_allowed_origins: Vec::new(),
        cors_allowed_methods: Vec::new(),
        cors_allowed_headers: Vec::new(),
        grpc_laddr: String::new(),
        grpc_max_open_connections: 900,
        unsafe_opt: true,
        max_open_connections: 900,
        max_subscription_clients: 100,
        max_subscriptions_per_client: 5,
        experimental_subscription_buffer_size: 200,
        experimental_websocket_write_buffer_size: 200,
        experimental_close_on_slow_client: false,
        timeout_broadcast_tx_commit: String::from_str("10s"),
        max_body_bytes: 1000000,
        max_header_bytes: 1048576,
        tls_cert_file: String::new(),
        tls_key_file: String::new(),
        pprof_laddr,
    }
}

fn p2p_model(c: P2PConfig, base_dir: &str) -> (r: model::P2P)
    ensures
        p2p_projected(c, base_dir@, r),
{
    let seeds = join_with(&c.seeds, ',');
    let persistent_peers = join_with(&c.persistent_peers, ',');
    let unconditional_peer_ids = join_with(&c.unconditional_peer_ids, ',');
    let private_peer_ids = join_with(&c.private_peer_ids, ',');
    model::P2P {
        laddr: c.laddr,
        external_address: c.external_address,
        seeds,
        persistent_peers,
        upnp: c.upnp,
        addr_book_file: join_path(base_dir, defined::ADDR_BOOK_FILE),
        addr_book_strict: !c.local_net,
        max_num_inbound_peers: c.max_num_inbound_peers,
        max_num_outbound_peers: c.max_num_outbound_peers,
        unconditional_peer_ids,
        persistent_peers_max_dial_period: seconds_string(&c.persistent_peers_max_dial_period),
        flush_throttle_timeout: milliseconds_string(&c.flush_throttle_timeout),
        max_packet_msg_payload_size: c.max_packet_msg_payload_size,
        send_rate: c.send_rate,
        recv_rate: c.recv_rate,
        pex: c.pex,
        seed_mode: c.seed_mode,
        private_peer_ids,
        allow_duplicate_ip: c.allow_duplicate_ip,
        handshake_timeout: seconds_string(&c.handshake_timeout),
        dial_timeout: seconds_string(&c.dial_timeout),
    }
}

fn mempool_model(c: MempoolConfig) -> (r: model::Mempool)
    ensures
        mempool_projected(c, r),
{
    model::Mempool {
        version: String::from_str(c.version.to_str()),
        recheck: c.recheck,
        broadcast: c.broadcast,
        wal_dir: String::new(),
        size: c.size,
        max_txs_bytes: c.max_txs_bytes,
        cache_size: c.cache_size,
        keep_invalid_txs_in_cache: c.keep_invalid_txs_in_cache,
        max_tx_bytes: c.max_tx_bytes,
        max_batch_bytes: 0,
        ttl_duration: seconds_string(&c.ttl_duration),
        ttl_num_blocks: c.ttl_num_blocks,
    }
}

fn statesync_model(enable: bool, s: StateSyncConfig) -> (r: model::StateSync)
    ensures
        statesync_projected(enable, s, r),
{
    let rpc_servers = join_with(&s.rpc_servers, ',');
    model::StateSync {
        enable,
        rpc_servers,
        trust_height: s.trust_height,
        trust_hash: s.trust_hash,
        trust_period: seconds_string(&s.trust_period),
        discovery_time: seconds_string(&s.discovery_time),
        temp_dir: String::new(),
        chunk_request_timeout: seconds_string(&s.chunk_request_timeout),
        chunk_fetchers: decimal_string(s.chunk_fetchers as u128),
    }
}

fn consensus_model(c: &ConsensusConfig, base_dir: &str) -> (r: model::Consensus)
    ensures
        consensus_projected(*c, base_dir@, r),
{
    model::Consensus {
        wal_file: join_path(base_dir, defined::WAL_FILE),
        timeout_propose: build_duration_ms(c.timeout_propose),
        timeout_propose_delta: build_duration_ms(c.timeout_propose_delta),
        timeout_prevote: build_duration_ms(c.timeout_prevote),
        timeout_prevote_delta: build_duration_ms(c.timeout_prevote_delta),
        timeout_precommit: build_duration_ms(c.timeout_precommit),
        timeout_precommit_delta: build_duration_ms(c.timeout_precommit_delta),
        timeout_commit: build_duration_ms(c.timeout_commit),
        double_sign_check_height: c.double_sign_check_height,
        skip_timeout_commit: c.skip_timeout_commit,
        create_empty_blocks: c.create_empty_blocks,
        create_empty_blocks_interval: build_duration_ms(c.create_empty_blocks_interval),
        peer_gossip_sleep_duration: build_duration_ms(c.peer_gossip_sleep_duration),
        peer_query_maj23_sleep_duration: build_duration_ms(c.peer_query_maj23_sleep_duration),
        discard_abci_responses: c.discard_abci_responses,
    }
}

fn tx_index_model(c: TxIndexConfig) -> (r: model::TxIndex)
    ensures
        tx_index_projected(c, r),
{
    let indexer = String::from_str(c.to_str());
    let pgsql_conn = match c {
        TxIndexConfig::Psql(conn) => conn,
        _ => String::new(),
    };
    model::TxIndex { indexer, pgsql_conn }
}

fn instrumentation_model(c: Option<PrometheusConfig>) -> (r: model::Instrumentation)
    ensures
        instrumentation_projected(c, r),
{
    let (enable, p) = match c {
        Some(p) => (true, p),
        None => (false, PrometheusConfig::default()),
    };
    model::Instrumentation {
        prometheus: enable,
        prometheus_listen_addr: p.prometheus_listen_addr,
        max_open_connections: p.max_open_connections,
        namespace: p.namespace,
    }
}

impl Config {
    /// The default settings with `data_dir` as the database directory.
    pub fn new(data_dir: &str) -> (r: Self)
        ensures
            r.data_dir@ == data_dir@,
            r.defaults_besides_data_dir(),
    {
        let mut c = Config::default();
        c.data_dir = String::from_str(data_dir);
        c
    }

    /// The record written to `config.toml` for a node whose working
    /// directory is `base_dir`.
    pub fn into_model(self, base_dir: &str) -> (r: model::Config)
        ensures
            projects_to(self, base_dir@, r),
    {
        let ghost c = self;
        let rpc = rpc_model(self.pprof_laddr, base_dir);
        let p2p = p2p_model(self.p2p, base_dir);
        let mempool = mempool_model(self.mempool);
        let statesync = match self.state_sync {
            Some(s) => statesync_model(true, s),
            None => statesync_model(false, StateSyncConfig::default()),
        };
        let fast_sync = self.fast_sync.is_some();
        let fastsync = model::FastSync {
            version: match self.fast_sync {
                Some(v) => String::from_str(v.to_str()),
                None => String::from_str("v0"),
            },
        };
        let consensus = consensus_model(&self.consensus, base_dir);
        let tx_index = tx_index_model(self.tx_index);
        let instrumentation = instrumentation_model(self.prometheus);
        let db_dir = if self.data_dir.as_str().is_empty() {
            join_path(base_dir, defined::DATA_DIR)
        } else {
            self.data_dir
        };
        let r = model::Config {
            proxy_app: join_path(base_dir, defined::APP_UNIX_SOCKET_FILE),
            moniker: self.moniker,
            fast_sync,
            db_backend: String::from_str(self.db_backend.to_str()),
            db_dir,
            log_level: String::from_str(self.log_level.to_str()),
            log_format: String::from_str(self.log_format.to_str()),
            genesis_file: join_path(base_dir, defined::GENESIS_FILE),
            priv_validator_key_file: join_path(base_dir, defined::VALIDATOR_KEY_FILE),
            priv_validator_state_file: join_path(base_dir, defined::VALIDATOR_STATE_FILE),
            priv_validator_laddr: self.priv_validator_laddr,
            node_key_file: join_path(base_dir, defined::NODE_KEY_FILE),
            abci: String::from_str("socket"),
            filter_peers: self.filter_peers,
            rpc,
            p2p,
            mempool,
            statesync,
            fastsync,
            consensus,
            tx_index,
            instrumentation,
        };
        assert(rpc_projected(c, base_dir@, r.rpc));
        r
    }
}

impl Config {
    /// These settings with `log_level` replaced.
    pub fn log_level(self, log_level: LogLevel) -> (r: Self)
        ensures
            r == (Config { log_level: log_level, ..self }),
    {
        let mut this = self;
        this.log_level = log_level;
        this
    }

    /// These settings with `moniker` replaced.
    pub fn moniker(self, moniker: &str) -> (r: Self)
        ensures
            r.moniker@ == moniker@,
            r == (Config { moniker: r.moniker, ..self }),
    {
        let mut this = self;
        this.moniker = String::from_str(moniker);
        this
    }

    /// These settings with `db_backend` replaced.
    pub fn db_backend(self, db_backend: DbBackend) -> (r: Self)
        ensures
            r == (Config { db_backend: db_backend, ..self }),
    {
        let mut this = self;
        this.db_backend = db_backend;
        this
    }

    /// These settings with `log_format` replaced.
    pub fn log_format(self, log_format: LogFormat) -> (r: Self)
        ensures
            r == (Config { log_format: log_format, ..self }),
    {
        let mut this = self;
        this.log_format = log_format;
        this
    }

    /// These settings with `priv_validator_laddr` replaced.
    pub fn priv_validator_laddr(self, priv_validator_laddr: &str) -> (r: Self)
        ensures
            r.priv_validator_laddr@ == priv_validator_laddr@,
            r == (Config { priv_validator_laddr: r.priv_validator_laddr, ..self }),
    {
        let mut this = self;
        this.priv_validator_laddr = String::from_str(priv_validator_laddr);
        this
    }

    /// These settings with `filter_peers` replaced.
    pub fn filter_peers(self, filter_peers: bool) -> (r: Self)
        ensures
            r == (Config { filter_peers: filter_peers, ..self }),
    {
        let mut this = self;
        this.filter_peers = filter_peers;
        this
    }

    /// These settings with `p2p` replaced.
    pub fn p2p(self, p2p: P2PConfig) -> (r: Self)
        ensures
            r == (Config { p2p: p2p, ..self }),
    {
        let mut this = self;
        this.p2p = p2p;
        this
    }

    /// These settings with `mempool` replaced.
    pub fn mempool(self, mempool: MempoolConfig) -> (r: Self)
        ensures
            r == (Config { mempool: mempool, ..self }),
    {
        let mut this = self;
        this.mempool = mempool;
        this
    }

    /// These settings with `state_sync` turned on and set to `state_sync`.
    pub fn enable_state_sync(self, state_sync: StateSyncConfig) -> (r: Self)
        ensures
            r == (Config { state_sync: Some(state_sync), ..self }),
    {
        let mut this = self;
        this.state_sync = Some(state_sync);
        this
    }

    /// These settings with `fast_sync` turned on and set to `fast_sync`.
    pub fn enable_fast_sync(self, fast_sync: FastSyncVersion) -> (r: Self)
        ensures
            r == (Config { fast_sync: Some(fast_sync), ..self }),
    {
        let mut this = self;
        this.fast_sync = Some(fast_sync);
        this
    }

    /// These settings with `consensus` replaced.
    pub fn consensus(self, consensus: ConsensusConfig) -> (r: Self)
        ensures
            r == (Config { consensus: consensus, ..self }),
    {
        let mut this = self;
        this.consensus = consensus;
        this
    }

    /// These settings with `tx_index` replaced.
    pub fn tx_index(self, tx_index: TxIndexConfig) -> (r: Self)
        ensures
            r == (Config { tx_index: tx_index, ..self }),
    {
        let mut this = self;
        this.tx_index = tx_index;
        this
    }

    /// These settings with `prometheus` turned on and set to `prometheus`.
    pub fn enabel_prometheus(self, prometheus: PrometheusConfig) -> (r: Self)
        ensures
            r == (Config { prometheus: Some(prometheus), ..self }),
    {
        let mut this = self;
        this.prometheus = Some(prometheus);
        this
    }
}

/// Every field of `a` and `b` holds the same value, or the same text.
pub open spec fn same_record(a: model::Config, b: model::Config) -> bool {
    &&& a.proxy_app@ == b.proxy_app@
    &&& a.moniker@ == b.moniker@
    &&& a.fast_sync == b.fast_sync
    &&& a.db_backend@ == b.db_backend@
    &&& a.db_dir@ == b.db_dir@
    &&& a.log_level@ == b.log_level@
    &&& a.log_format@ == b.log_format@
    &&& a.genesis_file@ == b.genesis_file@
    &&& a.priv_validator_key_file@ == b.priv_validator_key_file@
    &&& a.priv_validator_state_file@ == b.priv_validator_state_file@
    &&& a.priv_validator_laddr@ == b.priv_validator_laddr@
    &&& a.node_key_file@ == b.node_key_file@
    &&& a.abci@ == b.abci@
    &&& a.filter_peers == b.filter_peers
    &&& a.rpc.laddr@ == b.rpc.laddr@
    &&& views_of(a.rpc.cors_allowed_origins@) == views_of(b.rpc.cors_allowed_origins@)
    &&& views_of(a.rpc.cors_allowed_methods@) == views_of(b.rpc.cors_allowed_methods@)
    &&& views_of(a.rpc.cors_allowed_headers@) == views_of(b.rpc.cors_allowed_headers@)
    &&& a.rpc.grpc_laddr@ == b.rpc.grpc_laddr@
    &&& a.rpc.grpc_max_open_connections == b.rpc.grpc_max_open_connections
    &&& a.rpc.unsafe_opt == b.rpc.unsafe_opt
    &&& a.rpc.max_open_connections == b.rpc.max_open_connections
    &&& a.rpc.max_subscription_clients == b.rpc.max_subscription_clients
    &&& a.rpc.max_subscriptions_per_client == b.rpc.max_subscriptions_per_client
    &&& a.rpc.experimental_subscription_buffer_size == b.rpc.experimental_subscription_buffer_size
    &&& a.rpc.experimental_websocket_write_buffer_size == b.rpc.experimental_websocket_write_buffer_size
    &&& a.rpc.experimental_close_on_slow_client == b.rpc.experimental_close_on_slow_client
    &&& a.rpc.timeout_broadcast_tx_commit@ == b.rpc.timeout_broadcast_tx_commit@
    &&& a.rpc.max_body_bytes == b.rpc.max_body_bytes
    &&& a.rpc.max_header_bytes == b.rpc.max_header_bytes
    &&& a.rpc.tls_cert_file@ == b.rpc.tls_cert_file@
    &&& a.rpc.tls_key_file@ == b.rpc.tls_key_file@
    &&& a.rpc.pprof_laddr@ == b.rpc.pprof_laddr@
    &&& a.p2p.laddr@ == b.p2p.laddr@
    &&& a.p2p.external_address@ == b.p2p.external_address@
    &&& a.p2p.seeds@ == b.p2p.seeds@
    &&& a.p2p.persistent_peers@ == b.p2p.persistent_peers@
    &&& a.p2p.upnp == b.p2p.upnp
    &&& a.p2p.addr_book_file@ == b.p2p.addr_book_file@
    &&& a.p2p.addr_book_strict == b.p2p.addr_book_strict
    &&& a.p2p.max_num_inbound_peers == b.p2p.max_num_inbound_peers
    &&& a.p2p.max_num_outbound_peers == b.p2p.max_num_outbound_peers
    &&& a.p2p.unconditional_peer_ids@ == b.p2p.unconditional_peer_ids@
    &&& a.p2p.persistent_peers_max_dial_period@ == b.p2p.persistent_peers_max_dial_period@
    &&& a.p2p.flush_throttle_timeout@ == b.p2p.flush_throttle_timeout@
    &&& a.p2p.max_packet_msg_payload_size == b.p2p.max_packet_msg_payload_size
    &&& a.p2p.send_rate == b.p2p.send_rate
    &&& a.p2p.recv_rate == b.p2p.recv_rate
    &&& a.p2p.pex == b.p2p.pex
    &&& a.p2p.seed_mode == b.p2p.seed_mode
    &&& a.p2p.private_peer_ids@ == b.p2p.private_peer_ids@
    &&& a.p2p.allow_duplicate_ip == b.p2p.allow_duplicate_ip
    &&& a.p2p.handshake_timeout@ == b.p2p.handshake_timeout@
    &&& a.p2p.dial_timeout@ == b.p2p.dial_timeout@
    &&& a.mempool.version@ == b.mempool.version@
    &&& a.mempool.recheck == b.mempool.recheck
    &&& a.mempool.broadcast == b.mempool.broadcast
    &&& a.mempool.wal_dir@ == b.mempool.wal_dir@
    &&& a.mempool.size == b.mempool.size
    &&& a.mempool.max_txs_bytes == b.mempool.max_txs_bytes
    &&& a.mempool.cache_size == b.mempool.cache_size
    &&& a.mempool.keep_invalid_txs_in_cache == b.mempool.keep_invalid_txs_in_cache
    &&& a.mempool.max_tx_bytes == b.mempool.max_tx_bytes
    &&& a.mempool.max_batch_bytes == b.mempool.max_batch_bytes
    &&& a.mempool.ttl_duration@ == b.mempool.ttl_duration@
    &&& a.mempool.ttl_num_blocks == b.mempool.ttl_num_blocks
    &&& a.statesync.enable == b.statesync.enable
    &&& a.statesync.rpc_servers@ == b.statesync.rpc_servers@
    &&& a.statesync.trust_height == b.statesync.trust_height
    &&& a.statesync.trust_hash@ == b.statesync.trust_hash@
    &&& a.statesync.trust_period@ == b.statesync.trust_period@
    &&& a.statesync.discovery_time@ == b.statesync.discovery_time@
    &&& a.statesync.temp_dir@ == b.statesync.temp_dir@
    &&& a.statesync.chunk_request_timeout@ == b.statesync.chunk_request_timeout@
    &&& a.statesync.chunk_fetchers@ == b.statesync.chunk_fetchers@
    &&& a.fastsync.version@ == b.fastsync.version@
    &&& a.consensus.wal_file@ == b.consensus.wal_file@
    &&& a.consensus.timeout_propose@ == b.consensus.timeout_propose@
    &&& a.consensus.timeout_propose_delta@ == b.consensus.timeout_propose_delta@
    &&& a.consensus.timeout_prevote@ == b.consensus.timeout_prevote@
    &&& a.consensus.timeout_prevote_delta@ == b.consensus.timeout_prevote_delta@
    &&& a.consensus.timeout_precommit@ == b.consensus.timeout_precommit@
    &&& a.consensus.timeout_precommit_delta@ == b.consensus.timeout_precommit_delta@
    &&& a.consensus.timeout_commit@ == b.consensus.timeout_commit@
    &&& a.consensus.double_sign_check_height == b.consensus.double_sign_check_height
    &&& a.consensus.skip_timeout_commit == b.consensus.skip_timeout_commit
    &&& a.consensus.create_empty_blocks == b.consensus.create_empty_blocks
    &&& a.consensus.create_empty_blocks_interval@ == b.consensus.create_empty_blocks_interval@
    &&& a.consensus.peer_gossip_sleep_duration@ == b.consensus.peer_gossip_sleep_duration@
    &&& a.consensus.peer_query_maj23_sleep_duration@ == b.consensus.peer_query_maj23_sleep_duration@
    &&& a.consensus.discard_abci_responses == b.consensus.discard_abci_responses
    &&& a.tx_index.indexer@ == b.tx_index.indexer@
    &&& a.tx_index.pgsql_conn@ == b.tx_index.pgsql_conn@
    &&& a.instrumentation.prometheus == b.instrumentation.prometheus
    &&& a.instrumentation.prometheus_listen_addr@ == b.instrumentation.prometheus_listen_addr@
    &&& a.instrumentation.max_open_connections == b.instrumentation.max_open_connections
    &&& a.instrumentation.namespace@ == b.instrumentation.namespace@
}

/// Projecting one configuration twice under one working directory gives the
/// same record field for field.
pub proof fn lemma_projection_deterministic(c: Config, base: Seq<char>, a: model::Config, b: model::Config)
    requires
        projects_to(c, base, a),
        projects_to(c, base, b),
    ensures
        same_record(a, b),
{
    assert(views_of(a.rpc.cors_allowed_origins@) =~= views_of(b.rpc.cors_allowed_origins@));
    assert(views_of(a.rpc.cors_allowed_methods@) =~= views_of(b.rpc.cors_allowed_methods@));
    assert(views_of(a.rpc.cors_allowed_headers@) =~= views_of(b.rpc.cors_allowed_headers@));
}

} // verus!
