//! The validator signing state: the last height, round and step signed.
use vstd::prelude::*;

verus! {

#[derive(Debug)]
pub struct ValidatorState {
    pub height: String,
    pub round: i64,
    pub step: i64,
    /// Base64; left out of the file when absent.
    pub signature: Option<String>,
    /// Hex; left out of the file when absent.
    pub signbytes: Option<String>,
}

impl ValidatorState {
    /// Nothing signed yet: height `0`, round and step zero, no signature.
    pub open spec fn is_initial(self) -> bool {
        &&& self.height@ == "0"@
        &&& self.round == 0
        &&& self.step == 0
        &&& self.signature is None
        &&& self.signbytes is None
    }

    /// The record as written to disk.
    pub fn into_model(self) -> (r: Self)
        ensures
            r == self,
    {
        self
    }
}

impl Default for ValidatorState {
    fn default() -> (r: Self)
        ensures
            r.is_initial(),
    {
        ValidatorState {
            height: String::from_str("0"),
            round: 0,
            step: 0,
            signature: None,
            signbytes: None,
        }
    }
}

} // verus!
