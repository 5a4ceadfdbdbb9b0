//! Storage engine of the node's databases.
use vstd::prelude::*;

verus! {

#[derive(Debug, Clone, Copy, PartialEq, Eq, Structural)]
pub enum DbBackend {
    GoLevelDB,
    CLevelDB,
    BoltDB,
    RocksDB,
    BadgerDB,
}

impl DbBackend {
    pub open spec fn text(self) -> Seq<char> {
        match self {
            DbBackend::GoLevelDB => "goleveldb"@,
            DbBackend::CLevelDB => "cleveldb"@,
            DbBackend::BoltDB => "boltdb"@,
            DbBackend::RocksDB => "rocksdb"@,
            DbBackend::BadgerDB => "badgerdb"@,
        }
    }

    pub fn to_str(&self) -> (r: &'static str)
        ensures
            r@ == self.text(),
    {
        match self {
            DbBackend::GoLevelDB => "goleveldb",
            DbBackend::CLevelDB => "cleveldb",
            DbBackend::BoltDB => "boltdb",
            DbBackend::RocksDB => "rocksdb",
            DbBackend::BadgerDB => "badgerdb",
        }
    }
}

impl Default for DbBackend {
    fn default() -> (r: Self)
        ensures
            r == DbBackend::GoLevelDB,
    {
        DbBackend::GoLevelDB
    }
}

} // verus!
