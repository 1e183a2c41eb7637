//! The escrow operations, as decisions over what the store holds.
//!
//! An operation takes the record that the caller read under an identifier
//! and, where it needs one, the answer of the identity check. It returns
//! what the caller is to answer and what it is to write back. Nothing here
//! touches a store or asks for an authorization.

use vstd::prelude::*;
use soroban_sdk::Address;
use crate::errors::ContractError;
use crate::model::{guarded_release, guarded_transition, initial_value_of, read_result, signer_needed};
use crate::status::EscrowStatus;
use crate::types::Escrow;

verus! {

/// The escrow service.
pub struct Contract;

impl Contract {
    /// The strict read, for callers that know the escrow exists: the record
    /// that was found.
    pub fn get_escrow(found: Option<Escrow>) -> (escrow: Escrow)
        requires
            found is Some,
        ensures
            found == Some(escrow),
    {
        match found {
            Some(escrow) => escrow,
            None => unreached(),
        }
    }

    /// The safe read: the record that was found, or `EscrowNotFound` where
    /// there was none.
    pub fn try_get_escrow(found: Option<Escrow>) -> (result: Result<Escrow, ContractError>)
        ensures
            result == read_result(found),
            result == (match found {
                Some(escrow) => Ok::<Escrow, ContractError>(escrow),
                None => Err::<Escrow, ContractError>(ContractError::EscrowNotFound),
            }),
    {
        match found {
            Some(escrow) => Ok(escrow),
            None => Err(ContractError::EscrowNotFound),
        }
    }

    /// The address that must authorize a transition to `new_status` before
    /// it is decided: the buyer of the escrow that was found on a
    /// buyer-gated move, nobody otherwise.
    pub fn authorization_needed(found: &Option<Escrow>, new_status: EscrowStatus) -> (who: Option<
        Address,
    >)
        ensures
            who == signer_needed(*found, new_status),
            who == (match *found {
                Some(escrow) => if escrow.status.buyer_gated(new_status) {
                    Some(escrow.buyer)
                } else {
                    None
                },
                None => None,
            }),
    {
        match found {
            Some(escrow) => if escrow.status.requires_buyer_auth(&new_status) {
                Some(escrow.buyer.clone())
            } else {
                None
            },
            None => None,
        }
    }

    /// Decides the move of the escrow that was found to `new_status`.
    ///
    /// `buyer_authorized` is the answer of the identity check for the address
    /// that [`Contract::authorization_needed`] names for this request; it is
    /// not looked at where none is named. A buyer-gated move that is not
    /// authorized aborts, before the table is consulted: the outcome is
    /// `None`, and nothing is to be written. Otherwise the outcome holds the
    /// record to write back, if any, and the result to return, as
    /// [`guarded_transition`] gives them.
    pub fn transition_status(
        found: Option<Escrow>,
        new_status: EscrowStatus,
        buyer_authorized: bool,
    ) -> (outcome: Option<(Option<Escrow>, Result<(), ContractError>)>)
        ensures
            outcome == guarded_transition(found, new_status, buyer_authorized),
            outcome is None <==> signer_needed(found, new_status) is Some && !buyer_authorized,
            outcome == Some((None::<Escrow>, Err::<(), ContractError>(ContractError::EscrowNotFound)))
                <==> found is None,
            outcome == Some(
                (None::<Escrow>, Err::<(), ContractError>(ContractError::InvalidTransition)),
            ) <==> (found matches Some(escrow) && !escrow.status.allows(new_status)),
            (outcome matches Some(decided) && decided.1 is Ok) <==> (found matches Some(escrow)
                && escrow.status.allows(new_status) && buyer_authorized),
            outcome matches Some(decided) ==> (if decided.1 is Ok {
                decided.0 == Some(found.unwrap().with_status(new_status))
            } else {
                decided.0 is None
            }),
    {
        let escrow = match found {
            Some(escrow) => escrow,
            None => {
                return Some((None, Err(ContractError::EscrowNotFound)));
            },
        };
        if escrow.status.requires_buyer_auth(&new_status) && !buyer_authorized {
            return None;
        }
        if !escrow.status.can_transition_to(&new_status) {
            return Some((None, Err(ContractError::InvalidTransition)));
        }
        let moved = Escrow { buyer: escrow.buyer, seller: escrow.seller, status: new_status };
        Some((Some(moved), Ok(())))
    }

    /// The configuration value that was found, 0 where none was.
    pub fn get_initial_value(found: Option<u32>) -> (value: u32)
        ensures
            value == initial_value_of(found),
            value == (match found {
                Some(stored) => stored,
                None => 0u32,
            }),
    {
        match found {
            Some(stored) => stored,
            None => 0,
        }
    }

    /// Decides the release of the escrow that was found to the seller.
    ///
    /// The escrow must exist (`EscrowNotFound`) and be `Pending`
    /// (`EscrowNotFunded`); the move to `Released` is then decided by
    /// [`Contract::transition_status`]. `buyer_authorized` is the answer of
    /// the identity check for the address that
    /// [`Contract::authorization_needed`] names for the move to `Released`.
    /// A release that needs the buyer and is not authorized aborts: the
    /// outcome is `None`, and nothing is to be written.
    pub fn release_escrow(found: Option<Escrow>, buyer_authorized: bool) -> (outcome: Option<
        (Option<Escrow>, Result<(), ContractError>),
    >)
        ensures
            outcome == guarded_release(found, buyer_authorized),
            outcome is None <==> signer_needed(found, EscrowStatus::Released) is Some
                && !buyer_authorized,
            outcome == Some((None::<Escrow>, Err::<(), ContractError>(ContractError::EscrowNotFound)))
                <==> found is None,
            outcome == Some((None::<Escrow>, Err::<(), ContractError>(ContractError::EscrowNotFunded)))
                <==> (found matches Some(escrow) && escrow.status != EscrowStatus::Pending),
            (outcome matches Some(decided) && decided.1 is Ok) <==> (found matches Some(escrow)
                && escrow.status == EscrowStatus::Pending && buyer_authorized),
            outcome matches Some(decided) ==> (if decided.1 is Ok {
                decided.0 == Some(found.unwrap().with_status(EscrowStatus::Released))
            } else {
                decided.0 is None
            }),
            outcome matches Some(decided) ==> decided.1 != Err::<(), ContractError>(
                ContractError::InvalidTransition,
            ),
    {
        let funded = match &found {
            Some(escrow) => match escrow.status {
                EscrowStatus::Pending => true,
                _ => false,
            },
            None => {
                return Some((None, Err(ContractError::EscrowNotFound)));
            },
        };
        if !funded {
            return Some((None, Err(ContractError::EscrowNotFunded)));
        }
        Self::transition_status(found, EscrowStatus::Released, buyer_authorized)
    }
}

} // verus!
