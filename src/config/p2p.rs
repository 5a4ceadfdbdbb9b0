//! Peer-to-peer networking settings.
use vstd::prelude::*;
use crate::duration::Duration;

verus! {

#[derive(Debug, Clone)]
pub struct P2PConfig {
    pub laddr: String,
    pub external_address: String,
    pub seeds: Vec<String>,
    pub persistent_peers: Vec<String>,
    pub upnp: bool,
    pub local_net: bool,
    pub max_num_inbound_peers: u64,
    pub max_num_outbound_peers: u64,
    pub unconditional_peer_ids: Vec<String>,
    pub persistent_peers_max_dial_period: Duration,
    pub flush_throttle_timeout: Duration,
    pub max_packet_msg_payload_size: u64,
    pub send_rate: u64,
    pub recv_rate: u64,
    pub pex: bool,
    pub seed_mode: bool,
    pub private_peer_ids: Vec<String>,
    pub allow_duplicate_ip: bool,
    pub handshake_timeout: Duration,
    pub dial_timeout: Duration,
}

impl P2PConfig {
    pub open spec fn is_default(self) -> bool {
        &&& self.laddr@ == "tcp://0.0.0.0:26656"@
        &&& self.external_address@ == Seq::<char>::empty()
        &&& self.seeds@.len() == 0
        &&& self.persistent_peers@.len() == 0
        &&& !self.upnp
        &&& !self.local_net
        &&& self.max_num_inbound_peers == 40
        &&& self.max_num_outbound_peers == 10
        &&& self.unconditional_peer_ids@.len() == 0
        &&& self.persistent_peers_max_dial_period.nanoseconds == 0
        &&& self.flush_throttle_timeout.nanoseconds == 100_000_000
        &&& self.max_packet_msg_payload_size == 1024
        &&& self.send_rate == 5120000
        &&& self.recv_rate == 5120000
        &&& self.pex
        &&& !self.seed_mode
        &&& self.private_peer_ids@.len() == 0
        &&& !self.allow_duplicate_ip
        &&& self.handshake_timeout.nanoseconds == 20_000_000_000
        &&& self.dial_timeout.nanoseconds == 3_000_000_000
    }
}

impl Default for P2PConfig {
    fn default() -> (r: Self)
        ensures
            r.is_default(),
    {
        P2PConfig {
            laddr: String::from_str("tcp://0.0.0.0:26656"),
            external_address: String::new(),
            seeds: Vec::new(),
            persistent_peers: Vec::new(),
            upnp: false,
            local_net: false,
            max_num_inbound_peers: 40,
            max_num_outbound_peers: 10,
            unconditional_peer_ids: Vec::new(),
            persistent_peers_max_dial_period: Duration::new(0, 0),
            flush_throttle_timeout: Duration::milliseconds(100),
            max_packet_msg_payload_size: 1024,
            send_rate: 5120000,
            recv_rate: 5120000,
            pex: true,
            seed_mode: false,
            private_peer_ids: Vec::new(),
            allow_duplicate_ip: false,
            handshake_timeout: Duration::new(20, 0),
            dial_timeout: Duration::new(3, 0),
        }
    }
}

impl P2PConfig {
    /// These settings with `laddr` replaced.
    pub fn laddr(self, laddr: &str) -> (r: Self)
        ensures
            r.laddr@ == laddr@,
            r == (P2PConfig { laddr: r.laddr, ..self }),
    {
        let mut this = self;
        this.laddr = String::from_str(laddr);
        this
    }

    /// These settings with `external_address` replaced.
    pub fn external_address(self, external_address: &str) -> (r: Self)
        ensures
            r.external_address@ == external_address@,
            r == (P2PConfig { external_address: r.external_address, ..self }),
    {
        let mut this = self;
        this.external_address = String::from_str(external_address);
        this
    }

    /// These settings with `seeds` replaced.
    pub fn seeds(self, seeds: Vec<String>) -> (r: Self)
        ensures
            r == (P2PConfig { seeds: seeds, ..self }),
    {
        let mut this = self;
        this.seeds = seeds;
        this
    }

    /// These settings with `persistent_peers` replaced.
    pub fn persistent_peers(self, persistent_peers: Vec<String>) -> (r: Self)
        ensures
            r == (P2PConfig { persistent_peers: persistent_peers, ..self }),
    {
        let mut this = self;
        this.persistent_peers = persistent_peers;
        this
    }

    /// These settings with `upnp` replaced.
    pub fn upnp(self, upnp: bool) -> (r: Self)
        ensures
            r == (P2PConfig { upnp: upnp, ..self }),
    {
        let mut this = self;
        this.upnp = upnp;
        this
    }

    /// These settings with `local_net` replaced.
    pub fn local_net(self, local_net: bool) -> (r: Self)
        ensures
            r == (P2PConfig { local_net: local_net, ..self }),
    {
        let mut this = self;
        this.local_net = local_net;
        this
    }

    /// These settings with `max_num_inbound_peers` replaced.
    pub fn max_num_inbound_peers(self, max_num_inbound_peers: u64) -> (r: Self)
        ensures
            r == (P2PConfig { max_num_inbound_peers: max_num_inbound_peers, ..self }),
    {
        let mut this = self;
        this.max_num_inbound_peers = max_num_inbound_peers;
        this
    }

    /// These settings with `max_num_outbound_peers` replaced.
    pub fn max_num_outbound_peers(self, max_num_outbound_peers: u64) -> (r: Self)
        ensures
            r == (P2PConfig { max_num_outbound_peers: max_num_outbound_peers, ..self }),
    {
        let mut this = self;
        this.max_num_outbound_peers = max_num_outbound_peers;
        this
    }

    /// These settings with `unconditional_peer_ids` replaced.
    pub fn unconditional_peer_ids(self, unconditional_peer_ids: Vec<String>) -> (r: Self)
        ensures
            r == (P2PConfig { unconditional_peer_ids: unconditional_peer_ids, ..self }),
    {
        let mut this = self;
        this.unconditional_peer_ids = unconditional_peer_ids;
        this
    }

    /// These settings with `persistent_peers_max_dial_period` replaced.
    pub fn persistent_peers_max_dial_period(self, persistent_peers_max_dial_period: Duration) -> (r: Self)
        ensures
            r == (P2PConfig { persistent_peers_max_dial_period: persistent_peers_max_dial_period, ..self }),
    {
        let mut this = self;
        this.persistent_peers_max_dial_period = persistent_peers_max_dial_period;
        this
    }

    /// These settings with `flush_throttle_timeout` replaced.
    pub fn flush_throttle_timeout(self, flush_throttle_timeout: Duration) -> (r: Self)
        ensures
            r == (P2PConfig { flush_throttle_timeout: flush_throttle_timeout, ..self }),
    {
        let mut this = self;
        this.flush_throttle_timeout = flush_throttle_timeout;
        this
    }

    /// These settings with `send_rate` replaced.
    pub fn send_rate(self, send_rate: u64) -> (r: Self)
        ensures
            r == (P2PConfig { send_rate: send_rate, ..self }),
    {
        let mut this = self;
        this.send_rate = send_rate;
        this
    }

    /// These settings with `recv_rate` replaced.
    pub fn recv_rate(self, recv_rate: u64) -> (r: Self)
        ensures
            r == (P2PConfig { recv_rate: recv_rate, ..self }),
    {
        let mut this = self;
        this.recv_rate = recv_rate;
        this
    }

    /// These settings with `pex` replaced.
    pub fn pex(self, pex: bool) -> (r: Self)
        ensures
            r == (P2PConfig { pex: pex, ..self }),
    {
        let mut this = self;
        this.pex = pex;
        this
    }

    /// These settings with `seed_mode` replaced.
    pub fn seed_mode(self, seed_mode: bool) -> (r: Self)
        ensures
            r == (P2PConfig { seed_mode: seed_mode, ..self }),
    {
        let mut this = self;
        this.seed_mode = seed_mode;
        this
    }

    /// These settings with `private_peer_ids` replaced.
    pub fn private_peer_ids(self, private_peer_ids: Vec<String>) -> (r: Self)
        ensures
            r == (P2PConfig { private_peer_ids: private_peer_ids, ..self }),
    {
        let mut this = self;
        this.private_peer_ids = private_peer_ids;
        this
    }

    /// These settings with `allow_duplicate_ip` replaced.
    pub fn allow_duplicate_ip(self, allow_duplicate_ip: bool) -> (r: Self)
        ensures
            r == (P2PConfig { allow_duplicate_ip: allow_duplicate_ip, ..self }),
    {
        let mut this = self;
        this.allow_duplicate_ip = allow_duplicate_ip;
        this
    }

    /// These settings with `handshake_timeout` replaced.
    pub fn handshake_timeout(self, handshake_timeout: Duration) -> (r: Self)
        ensures
            r == (P2PConfig { handshake_timeout: handshake_timeout, ..self }),
    {
        let mut this = self;
        this.handshake_timeout = handshake_timeout;
        this
    }

    /// These settings with `dial_timeout` replaced.
    pub fn dial_timeout(self, dial_timeout: Duration) -> (r: Self)
        ensures
            r == (P2PConfig { dial_timeout: dial_timeout, ..self }),
    {
        let mut this = self;
        this.dial_timeout = dial_timeout;
        this
    }
}

} // verus!
