//! Which indexer the node uses for transactions.
use vstd::prelude::*;

verus! {

#[derive(Debug, Clone)]
pub enum TxIndexConfig {
    Null,
    Kv,
    /// Indexing backed by PostgreSQL, with its connection string.
    Psql(String),
}

impl TxIndexConfig {
    pub open spec fn text(self) -> Seq<char> {
        match self {
            TxIndexConfig::Null => "null"@,
            TxIndexConfig::Kv => "kv"@,
            TxIndexConfig::Psql(_) => "psql"@,
        }
    }

    pub fn to_str(&self) -> (r: &'static str)
        ensures
            r@ == self.text(),
    {
        match self {
            TxIndexConfig::Null => "null",
            TxIndexConfig::Kv => "kv",
            TxIndexConfig::Psql(_) => "psql",
        }
    }
}

impl Default for TxIndexConfig {
    fn default() -> (r: Self)
        ensures
            r is Kv,
    {
        TxIndexConfig::Kv
    }
}

} // verus!
