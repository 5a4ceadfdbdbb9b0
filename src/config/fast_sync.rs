//! Version of the block fast-sync protocol.
use vstd::prelude::*;

verus! {

#[derive(Debug, Clone, Copy, PartialEq, Eq, Structural)]
pub enum FastSyncVersion {
    V0,
    V1,
    V2,
}

impl FastSyncVersion {
    pub open spec fn text(self) -> Seq<char> {
        match self {
            FastSyncVersion::V0 => "v0"@,
            FastSyncVersion::V1 => "v1"@,
            FastSyncVersion::V2 => "v2"@,
        }
    }

    pub fn to_str(&self) -> (r: &'static str)
        ensures
            r@ == self.text(),
    {
        match self {
            FastSyncVersion::V0 => "v0",
            FastSyncVersion::V1 => "v1",
            FastSyncVersion::V2 => "v2",
        }
    }
}

impl Default for FastSyncVersion {
    fn default() -> (r: Self)
        ensures
            r == FastSyncVersion::V0,
    {
        FastSyncVersion::V0
    }
}

} // verus!
