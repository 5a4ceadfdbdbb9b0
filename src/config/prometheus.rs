//! Metrics served to Prometheus.
use vstd::prelude::*;

verus! {

#[derive(Debug, Clone)]
pub struct PrometheusConfig {
    pub prometheus_listen_addr: String,
    pub max_open_connections: u64,
    pub namespace: String,
}

impl PrometheusConfig {
    pub open spec fn is_default(self) -> bool {
        &&& self.prometheus_listen_addr@ == ":26660"@
        &&& self.max_open_connections == 3
        &&& self.namespace@ == "tendermint"@
    }
}

impl Default for PrometheusConfig {
    fn default() -> (r: Self)
        ensures
            r.is_default(),
    {
        PrometheusConfig {
            prometheus_listen_addr: String::from_str(":26660"),
            max_open_connections: 3,
            namespace: String::from_str("tendermint"),
        }
    }
}

impl PrometheusConfig {
    /// These settings with `prometheus_listen_addr` replaced.
    pub fn prometheus_listen_addr(self, prometheus_listen_addr: &str) -> (r: Self)
        ensures
            r.prometheus_listen_addr@ == prometheus_listen_addr@,
            r == (PrometheusConfig { prometheus_listen_addr: r.prometheus_listen_addr, ..self }),
    {
        let mut this = self;
        this.prometheus_listen_addr = String::from_str(prometheus_listen_addr);
        this
    }

    /// These settings with `max_open_connections` replaced.
    pub fn max_open_connections(self, max_open_connections: u64) -> (r: Self)
        ensures
            r == (PrometheusConfig { max_open_connections: max_open_connections, ..self }),
    {
        let mut this = self;
        this.max_open_connections = max_open_connections;
        this
    }

    /// These settings with `namespace` replaced.
    pub fn namespace(self, namespace: &str) -> (r: Self)
        ensures
            r.namespace@ == namespace@,
            r == (PrometheusConfig { namespace: r.namespace, ..self }),
    {
        let mut this = self;
        this.namespace = String::from_str(namespace);
        this
    }
}

} // verus!
