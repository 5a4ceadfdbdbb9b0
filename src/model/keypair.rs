//! The key files: each key as a type tag and its base64 bytes.
use vstd::prelude::*;

verus! {

/// A key as written to disk: `{"type": ..., "value": ...}`.
#[derive(Debug, Clone)]
pub struct Key {
    /// Written as `type` in the file.
    pub ty: String,
    pub value: String,
}

/// A node or validator key file.
#[derive(Debug, Clone)]
pub struct Keypair {
    pub address: String,
    pub priv_key: Key,
    pub pub_key: Key,
}

} // verus!
