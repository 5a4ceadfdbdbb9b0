use embedded_td::config::{
    build_duration_ms, FastSyncVersion, PrometheusConfig, StateSyncConfig, TxIndexConfig,
};
use embedded_td::text::{decimal_string, join_path, join_with, signed_string};
use embedded_td::{Config, Duration};

#[test]
fn default_config_projects_to_the_node_defaults() {
    let m = Config::default().into_model("/w");
    assert_eq!(m.proxy_app, "/w/sockets/app");
    assert_eq!(m.moniker, "aa");
    assert!(m.fast_sync);
    assert_eq!(m.db_backend, "goleveldb");
    assert_eq!(m.db_dir, "/w/data");
    assert_eq!(m.log_level, "info");
    assert_eq!(m.log_format, "plain");
    assert_eq!(m.genesis_file, "/w/genesis.json");
    assert_eq!(m.priv_validator_key_file, "/w/config/priv_validator_key.json");
    assert_eq!(m.priv_validator_state_file, "/w/priv_validator_state.json");
    assert_eq!(m.node_key_file, "/w/config/node_key.json");
    assert_eq!(m.abci, "socket");
    assert_eq!(m.rpc.laddr, "/w/sockets/rpc");
    assert_eq!(m.rpc.timeout_broadcast_tx_commit, "10s");
    assert_eq!(m.rpc.max_open_connections, 900);
    assert_eq!(m.p2p.laddr, "tcp://0.0.0.0:26656");
    assert_eq!(m.p2p.addr_book_file, "/w/p2p/addrbook.json");
    assert!(m.p2p.addr_book_strict);
    assert_eq!(m.p2p.seeds, "");
    assert_eq!(m.p2p.flush_throttle_timeout, "100ms");
    assert_eq!(m.p2p.handshake_timeout, "20s");
    assert_eq!(m.p2p.dial_timeout, "3s");
    assert_eq!(m.p2p.persistent_peers_max_dial_period, "0s");
    assert_eq!(m.mempool.version, "v0");
    assert_eq!(m.mempool.ttl_duration, "0s");
    assert_eq!(m.mempool.max_txs_bytes, 1073741824);
    assert!(!m.statesync.enable);
    assert_eq!(m.statesync.trust_period, "604800s");
    assert_eq!(m.statesync.discovery_time, "15s");
    assert_eq!(m.statesync.chunk_request_timeout, "10s");
    assert_eq!(m.statesync.chunk_fetchers, "4");
    assert_eq!(m.fastsync.version, "v0");
    assert_eq!(m.consensus.wal_file, "/w/cs.wal");
    assert_eq!(m.consensus.timeout_propose, "3000s");
    assert_eq!(m.consensus.timeout_propose_delta, "500s");
    assert_eq!(m.consensus.create_empty_blocks_interval, "0s");
    assert_eq!(m.consensus.peer_gossip_sleep_duration, "100s");
    assert_eq!(m.tx_index.indexer, "kv");
    assert_eq!(m.tx_index.pgsql_conn, "");
    assert!(!m.instrumentation.prometheus);
    assert_eq!(m.instrumentation.prometheus_listen_addr, ":26660");
    assert_eq!(m.instrumentation.max_open_connections, 3);
    assert_eq!(m.instrumentation.namespace, "tendermint");
}

#[test]
fn optional_sections_turn_on_their_flags() {
    let mut c = Config::new("/data/node");
    let mut s = StateSyncConfig::default();
    s.rpc_servers = vec![String::from("a:1"), String::from("b:2")];
    s.trust_hash = String::from("ABCD");
    c.state_sync = Some(s);
    c.fast_sync = None;
    let mut p = PrometheusConfig::default();
    p.namespace = String::from("ns");
    c.prometheus = Some(p);
    c.tx_index = TxIndexConfig::Psql(String::from("postgres://x"));
    c.p2p.seeds = vec![String::from("s1"), String::from("s2"), String::from("s3")];
    c.p2p.local_net = true;
    let m = c.into_model("/w");
    assert_eq!(m.db_dir, "/data/node");
    assert!(m.statesync.enable);
    assert_eq!(m.statesync.rpc_servers, "a:1,b:2");
    assert_eq!(m.statesync.trust_hash, "ABCD");
    assert!(!m.fast_sync);
    assert_eq!(m.fastsync.version, "v0");
    assert!(m.instrumentation.prometheus);
    assert_eq!(m.instrumentation.namespace, "ns");
    assert_eq!(m.tx_index.indexer, "psql");
    assert_eq!(m.tx_index.pgsql_conn, "postgres://x");
    assert_eq!(m.p2p.seeds, "s1,s2,s3");
    assert!(!m.p2p.addr_book_strict);
}

#[test]
fn fast_sync_version_is_written() {
    let mut c = Config::default();
    c.fast_sync = Some(FastSyncVersion::V2);
    assert_eq!(c.into_model("/w").fastsync.version, "v2");
}

#[test]
fn projecting_twice_gives_the_same_record() {
    let a = Config::default().into_model("/base");
    let b = Config::default().into_model("/base");
    assert_eq!(format!("{:?}", a), format!("{:?}", b));
}

#[test]
fn null_indexer_has_no_connection() {
    let mut c = Config::default();
    c.tx_index = TxIndexConfig::Null;
    let m = c.into_model("/w");
    assert_eq!(m.tx_index.indexer, "null");
    assert_eq!(m.tx_index.pgsql_conn, "");
}

#[test]
fn durations_in_milliseconds_keep_the_s_suffix() {
    assert_eq!(build_duration_ms(Duration::seconds(3)), "3000s");
    assert_eq!(build_duration_ms(Duration::milliseconds(250)), "250s");
    assert_eq!(build_duration_ms(Duration::new(1, 999_999)), "1000s");
    assert_eq!(Duration::hours(168).whole_seconds(), 604800);
    assert_eq!(Duration::days(2).whole_milliseconds(), 172_800_000);
}

#[test]
fn numbers_and_lists_render_as_text() {
    assert_eq!(decimal_string(0), "0");
    assert_eq!(decimal_string(u128::MAX), "340282366920938463463374607431768211455");
    assert_eq!(signed_string(-1), "-1");
    assert_eq!(signed_string(i128::MIN), "-170141183460469231731687303715884105728");
    assert_eq!(join_with(&vec![], ','), "");
    assert_eq!(join_with(&vec![String::from("x")], ','), "x");
    assert_eq!(join_path("/a", "b/c"), "/a/b/c");
}

#[test]
fn config_new_sets_only_the_data_dir() {
    let c = Config::new("/d");
    assert_eq!(c.data_dir, "/d");
    assert_eq!(c.moniker, "aa");
    assert!(c.state_sync.is_none());
}
