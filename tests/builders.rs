use embedded_td::config::{
    DbBackend, FastSyncVersion, LogFormat, LogLevel, MempoolConfig, MempoolVersion, P2PConfig,
    PrometheusConfig, StateSyncConfig,
};
use embedded_td::{Config, Duration};

#[test]
fn config_setters_change_one_field() {
    let c = Config::default()
        .moniker("node-1")
        .log_level(LogLevel::Debug)
        .log_format(LogFormat::Json)
        .db_backend(DbBackend::RocksDB)
        .filter_peers(true)
        .enable_fast_sync(FastSyncVersion::V1)
        .enable_state_sync(StateSyncConfig::default().trust_height(9))
        .enabel_prometheus(PrometheusConfig::default().namespace("x"));
    let m = c.into_model("/w");
    assert_eq!(m.moniker, "node-1");
    assert_eq!(m.log_level, "debug");
    assert_eq!(m.log_format, "json");
    assert_eq!(m.db_backend, "rocksdb");
    assert!(m.filter_peers);
    assert_eq!(m.fastsync.version, "v1");
    assert!(m.statesync.enable);
    assert_eq!(m.statesync.trust_height, 9);
    assert!(m.instrumentation.prometheus);
    assert_eq!(m.instrumentation.namespace, "x");
}

#[test]
fn section_setters_reach_the_record() {
    let p2p = P2PConfig::default()
        .laddr("tcp://127.0.0.1:1")
        .persistent_peers(vec![String::from("p1"), String::from("p2")])
        .dial_timeout(Duration::seconds(7))
        .flush_throttle_timeout(Duration::milliseconds(40));
    let mempool = MempoolConfig::default()
        .version(MempoolVersion::Priority)
        .size(1)
        .ttl_duration(Duration::seconds(60));
    let m = Config::default().p2p(p2p).mempool(mempool).into_model("/w");
    assert_eq!(m.p2p.laddr, "tcp://127.0.0.1:1");
    assert_eq!(m.p2p.persistent_peers, "p1,p2");
    assert_eq!(m.p2p.dial_timeout, "7s");
    assert_eq!(m.p2p.flush_throttle_timeout, "40ms");
    assert_eq!(m.mempool.version, "v1");
    assert_eq!(m.mempool.size, 1);
    assert_eq!(m.mempool.ttl_duration, "60s");
}
