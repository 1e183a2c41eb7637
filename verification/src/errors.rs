//! The recoverable errors of the escrow operations.

use vstd::prelude::*;

verus! {

/// A domain error. Each one is returned to the caller; none is swallowed and
/// no operation retries.
#[derive(Clone, Copy, Debug, PartialEq, Eq, Structural)]
pub enum ContractError {
    /// No escrow is stored under the given identifier.
    EscrowNotFound,
    /// The state machine has no edge from the current status to the requested one.
    InvalidTransition,
    /// The escrow is not `Pending`, so there is nothing to release.
    EscrowNotFunded,
}

} // verus!
