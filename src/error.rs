//! Errors that the library's own decisions give.
use vstd::prelude::*;

verus! {

#[derive(Debug, Clone, Copy, PartialEq, Eq, Structural)]
pub enum Error {
    /// The node was asked to stop, be killed or be waited for before it was started.
    NoTendermintStart,
}

} // verus!
