//! The escrow record.

use vstd::prelude::*;
use soroban_sdk::Address;
use crate::status::EscrowStatus;

verus! {

/// Funds held between a buyer and a seller until the escrow is released or
/// refunded.
///
/// The status of a stored escrow changes only through
/// [`crate::Contract::transition_status`].
#[derive(Debug, PartialEq, Eq)]
pub struct Escrow {
    pub buyer: Address,
    pub seller: Address,
    pub status: EscrowStatus,
}

impl Clone for Escrow {
    fn clone(&self) -> (copy: Self)
        ensures
            copy == *self,
    {
        Escrow { buyer: self.buyer.clone(), seller: self.seller.clone(), status: self.status }
    }
}

impl Escrow {
    /// This escrow in another status, its parties unchanged.
    pub open spec fn with_status(self, status: EscrowStatus) -> Escrow {
        Escrow { buyer: self.buyer, seller: self.seller, status }
    }
}

} // verus!
