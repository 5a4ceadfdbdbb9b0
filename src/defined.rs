//! The layout of the node's working directory, relative to its root.
use vstd::prelude::*;

verus! {

pub const TENDERMINT_BIN_FILE: &'static str = "tendermint";
pub const CONFIG_DIR: &'static str = "config";
pub const CONFIG_FILE: &'static str = "config/config.toml";
pub const NODE_KEY_FILE: &'static str = "config/node_key.json";
pub const VALIDATOR_KEY_FILE: &'static str = "config/priv_validator_key.json";
pub const DATA_DIR: &'static str = "data";
pub const GENESIS_FILE: &'static str = "genesis.json";
pub const VALIDATOR_STATE_FILE: &'static str = "priv_validator_state.json";
pub const WAL_FILE: &'static str = "cs.wal";
pub const SOCKET_DIR: &'static str = "sockets";
pub const RPC_UNIX_SOCKET_FILE: &'static str = "sockets/rpc";
pub const APP_UNIX_SOCKET_FILE: &'static str = "sockets/app";
pub const P2P_DIR: &'static str = "p2p";
pub const ADDR_BOOK_FILE: &'static str = "p2p/addrbook.json";

} // verus!
