use vstd::prelude::*;

verus! {

/// Errors of the interlock.
#[derive(Debug, Clone, Copy, PartialEq, Eq, Structural)]
pub enum Error {
    /// The interlock could not be cleared: the monitored value is not clear.
    ClearError,
}

/// The latch: either asserted (`Active`) or not (`Inactive`).
#[derive(Debug, Clone, Copy, PartialEq, Eq, Structural)]
pub enum InterlockState {
    Inactive,
    Active,
}

} // verus!
