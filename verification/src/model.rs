//! What the operations decide, and what their decisions do to a store.
//!
//! The store itself is the caller's: it reads the record under an
//! identifier, hands it to an operation of [`crate::contract`], and writes
//! back what the operation tells it to. The first half of this module states
//! each decision over the record that was read; the executable operations
//! are proved against it. The second half follows the decisions through a
//! store, a map from identifier to escrow, and proves the laws of the
//! service.

use vstd::prelude::*;
use soroban_sdk::Address;
use crate::errors::ContractError;
use crate::status::EscrowStatus;
use crate::types::Escrow;

verus! {

/// The answer of the safe read: the record that was found, `EscrowNotFound`
/// where there was none.
pub open spec fn read_result(found: Option<Escrow>) -> Result<Escrow, ContractError> {
    match found {
        Some(escrow) => Ok(escrow),
        None => Err(ContractError::EscrowNotFound),
    }
}

/// The configuration value, 0 while none has been stored.
pub open spec fn initial_value_of(found: Option<u32>) -> u32 {
    match found {
        Some(value) => value,
        None => 0,
    }
}

/// The address whose authorization a transition to `to` needs: the buyer of
/// the escrow that was found on a buyer-gated move, and nobody where none
/// was found or the move is not buyer-gated.
pub open spec fn signer_needed(found: Option<Escrow>, to: EscrowStatus) -> Option<Address> {
    match found {
        Some(escrow) => if escrow.status.buyer_gated(to) {
            Some(escrow.buyer)
        } else {
            None
        },
        None => None,
    }
}

/// The guarded transition to status `to` of the escrow that was found.
///
/// `buyer_authorized` is the answer of the identity check for the address
/// that [`signer_needed`] names; it plays no part where none is named. The
/// outcome is `None` where the operation aborts. Otherwise it is the record
/// to write back, `None` where nothing is to be written, together with the
/// result to return:
///
/// 1. no escrow was found: `EscrowNotFound`, nothing to write;
/// 2. a buyer-gated move that the buyer has not authorized: abort;
/// 3. a move that the transition table does not hold: `InvalidTransition`,
///    nothing to write;
/// 4. otherwise the escrow in status `to` is to be written, and the result
///    is success.
pub open spec fn guarded_transition(found: Option<Escrow>, to: EscrowStatus, buyer_authorized: bool)
    -> Option<(Option<Escrow>, Result<(), ContractError>)> {
    match found {
        None => Some((None, Err(ContractError::EscrowNotFound))),
        Some(escrow) => {
            if escrow.status.buyer_gated(to) && !buyer_authorized {
                None
            } else if !escrow.status.allows(to) {
                Some((None, Err(ContractError::InvalidTransition)))
            } else {
                Some((Some(escrow.with_status(to)), Ok(())))
            }
        },
    }
}

/// The release of the escrow that was found: `EscrowNotFound` where there is
/// none, `EscrowNotFunded` where it is not `Pending`, and otherwise the
/// guarded transition to `Released`.
pub open spec fn guarded_release(found: Option<Escrow>, buyer_authorized: bool) -> Option<
    (Option<Escrow>, Result<(), ContractError>),
> {
    match found {
        None => Some((None, Err(ContractError::EscrowNotFound))),
        Some(escrow) => {
            if escrow.status != EscrowStatus::Pending {
                Some((None, Err(ContractError::EscrowNotFunded)))
            } else {
                guarded_transition(found, EscrowStatus::Released, buyer_authorized)
            }
        },
    }
}

/// The store after a decision has been carried out under `id`: the record
/// written there where the decision names one, the store as it was where it
/// names none.
pub open spec fn written(entries: Map<u64, Escrow>, id: u64, write: Option<Escrow>) -> Map<
    u64,
    Escrow,
> {
    match write {
        Some(escrow) => entries.insert(id, escrow),
        None => entries,
    }
}

/// A whole transition request on a store: the record under `id` is read,
/// the transition is decided, and the decision is carried out. `None` where
/// the request aborts, otherwise the store afterwards and the result.
pub open spec fn transition_in(
    entries: Map<u64, Escrow>,
    id: u64,
    to: EscrowStatus,
    buyer_authorized: bool,
) -> Option<(Map<u64, Escrow>, Result<(), ContractError>)> {
    match guarded_transition(entries.get(id), to, buyer_authorized) {
        Some((write, result)) => Some((written(entries, id, write), result)),
        None => None,
    }
}

/// A whole release request on a store, as [`transition_in`].
pub open spec fn release_in(entries: Map<u64, Escrow>, id: u64, buyer_authorized: bool) -> Option<
    (Map<u64, Escrow>, Result<(), ContractError>),
> {
    match guarded_release(entries.get(id), buyer_authorized) {
        Some((write, result)) => Some((written(entries, id, write), result)),
        None => None,
    }
}

/// Storing an escrow and reading it back safely gives exactly that escrow,
/// whatever was stored under the identifier before.
pub proof fn law_store_then_get(entries: Map<u64, Escrow>, id: u64, escrow: Escrow)
    ensures
        read_result(written(entries, id, Some(escrow)).get(id)) == Ok::<Escrow, ContractError>(
            escrow,
        ),
{
}

/// Storing an escrow leaves every other escrow as it was.
pub proof fn law_store_touches_one_key(
    entries: Map<u64, Escrow>,
    id: u64,
    escrow: Escrow,
    other: u64,
)
    requires
        other != id,
    ensures
        written(entries, id, Some(escrow)).get(other) == entries.get(other),
{
}

/// A safe read of an identifier under which nothing is stored is answered
/// with `EscrowNotFound`; in particular every read of an empty store is.
pub proof fn law_read_of_missing_escrow(entries: Map<u64, Escrow>, id: u64)
    requires
        !entries.contains_key(id),
    ensures
        read_result(entries.get(id)) == Err::<Escrow, ContractError>(ContractError::EscrowNotFound),
        read_result(Map::<u64, Escrow>::empty().get(id)) == Err::<Escrow, ContractError>(
            ContractError::EscrowNotFound,
        ),
{
}

/// A transition of an escrow that does not exist is answered with
/// `EscrowNotFound` and writes nothing; the identity check plays no part.
pub proof fn law_transition_of_missing_escrow(
    entries: Map<u64, Escrow>,
    id: u64,
    to: EscrowStatus,
    buyer_authorized: bool,
)
    requires
        !entries.contains_key(id),
    ensures
        guarded_transition(entries.get(id), to, buyer_authorized) == Some(
            (None::<Escrow>, Err::<(), ContractError>(ContractError::EscrowNotFound)),
        ),
        transition_in(entries, id, to, buyer_authorized) == Some(
            (entries, Err::<(), ContractError>(ContractError::EscrowNotFound)),
        ),
{
}

/// A transition that the table does not hold is answered with
/// `InvalidTransition` and leaves the store as it was; the identity check
/// plays no part.
pub proof fn law_illegal_transition_changes_nothing(
    entries: Map<u64, Escrow>,
    id: u64,
    to: EscrowStatus,
    buyer_authorized: bool,
)
    requires
        entries.contains_key(id),
        !entries[id].status.allows(to),
    ensures
        guarded_transition(entries.get(id), to, buyer_authorized) == Some(
            (None::<Escrow>, Err::<(), ContractError>(ContractError::InvalidTransition)),
        ),
        transition_in(entries, id, to, buyer_authorized) == Some(
            (entries, Err::<(), ContractError>(ContractError::InvalidTransition)),
        ),
{
}

/// A buyer-gated move of a stored escrow that the buyer has not authorized
/// aborts: there is no result, and nothing is named to be written.
pub proof fn law_unauthorized_transition_aborts(entries: Map<u64, Escrow>, id: u64, to: EscrowStatus)
    requires
        entries.contains_key(id),
        entries[id].status.buyer_gated(to),
    ensures
        guarded_transition(entries.get(id), to, false) is None,
        transition_in(entries, id, to, false) is None,
{
}

/// A transition aborts exactly when it needs an authorization that was not
/// given, and the one asked is then the buyer of the escrow that was found.
pub proof fn law_transition_aborts_exactly_on_denial(
    found: Option<Escrow>,
    to: EscrowStatus,
    buyer_authorized: bool,
)
    ensures
        guarded_transition(found, to, buyer_authorized) is None <==> signer_needed(found, to)
            is Some && !buyer_authorized,
        signer_needed(found, to) matches Some(who) ==> found matches Some(escrow) && who
            == escrow.buyer,
{
}

/// Without the buyer's authorization no status ever changes: a request that
/// is not authorized either aborts or is answered with an error, and names
/// nothing to be written.
pub proof fn law_nothing_moves_without_the_buyer(found: Option<Escrow>, to: EscrowStatus)
    ensures
        guarded_transition(found, to, false) matches Some(outcome) ==> outcome.1 is Err
            && outcome.0 is None,
        guarded_release(found, false) matches Some(outcome) ==> outcome.1 is Err && outcome.0
            is None,
{
}

/// Something is written exactly when the result is success, and an error
/// leaves the store as it was.
pub proof fn law_only_success_writes(
    entries: Map<u64, Escrow>,
    id: u64,
    to: EscrowStatus,
    buyer_authorized: bool,
)
    ensures
        guarded_transition(entries.get(id), to, buyer_authorized) matches Some(outcome) ==> (
        outcome.0 is Some <==> outcome.1 is Ok),
        guarded_release(entries.get(id), buyer_authorized) matches Some(outcome) ==> (outcome.0
            is Some <==> outcome.1 is Ok),
        transition_in(entries, id, to, buyer_authorized) matches Some(outcome) ==> (outcome.1
            is Err ==> outcome.0 == entries),
        release_in(entries, id, buyer_authorized) matches Some(outcome) ==> (outcome.1 is Err
            ==> outcome.0 == entries),
{
}

/// A legal move that the buyer has authorized succeeds: afterwards the
/// escrow is stored in the new status with its parties unchanged, and every
/// other escrow is as it was.
pub proof fn law_authorized_transition_commits(
    entries: Map<u64, Escrow>,
    id: u64,
    to: EscrowStatus,
    other: u64,
)
    requires
        entries.contains_key(id),
        entries[id].status.allows(to),
        other != id,
    ensures
        transition_in(entries, id, to, true) matches Some(outcome) && {
            &&& outcome.1 == Ok::<(), ContractError>(())
            &&& outcome.0.get(id) == Some(entries[id].with_status(to))
            &&& outcome.0.get(other) == entries.get(other)
        },
{
}

/// A release aborts exactly when the transition to `Released` does, so the
/// one to ask before a release is the one that this transition needs: the
/// buyer of a `Pending` escrow.
pub proof fn law_release_asks_as_its_transition(found: Option<Escrow>, buyer_authorized: bool)
    ensures
        guarded_release(found, buyer_authorized) is None <==> signer_needed(
            found,
            EscrowStatus::Released,
        ) is Some && !buyer_authorized,
        signer_needed(found, EscrowStatus::Released) is Some <==> (found matches Some(escrow)
            && escrow.status == EscrowStatus::Pending),
{
}

/// A release succeeds exactly when a `Pending` escrow was found and its
/// buyer has authorized the release.
pub proof fn law_release_succeeds_exactly_when_funded_and_authorized(
    found: Option<Escrow>,
    buyer_authorized: bool,
)
    ensures
        (guarded_release(found, buyer_authorized) matches Some(outcome) && outcome.1 is Ok) <==> (
        found matches Some(escrow) && escrow.status == EscrowStatus::Pending && buyer_authorized),
{
}

/// Releasing twice: the first release of a `Pending` escrow succeeds and
/// leaves it `Released`; a second release is then answered with
/// `EscrowNotFunded` and changes nothing, whatever the identity check says.
pub proof fn law_release_twice(entries: Map<u64, Escrow>, id: u64, again_authorized: bool)
    requires
        entries.contains_key(id),
        entries[id].status == EscrowStatus::Pending,
    ensures
        release_in(entries, id, true) matches Some(first) && {
            &&& first.1 == Ok::<(), ContractError>(())
            &&& first.0.get(id) == Some(entries[id].with_status(EscrowStatus::Released))
            &&& release_in(first.0, id, again_authorized) == Some(
                (first.0, Err::<(), ContractError>(ContractError::EscrowNotFunded)),
            )
        },
{
}

/// A release is never answered with `InvalidTransition`: an escrow that
/// passes the funding check is `Pending`, and `Pending` may be released.
pub proof fn law_release_is_never_invalid(found: Option<Escrow>, buyer_authorized: bool)
    ensures
        guarded_release(found, buyer_authorized) matches Some(outcome) ==> outcome.1 != Err::<
            (),
            ContractError,
        >(ContractError::InvalidTransition),
{
}

/// The status of a stored escrow only ever moves along an edge of the
/// transition table: where a transition changes what is stored under an
/// identifier, it is that escrow moved along a legal edge.
pub proof fn law_status_moves_along_edges(
    entries: Map<u64, Escrow>,
    id: u64,
    to: EscrowStatus,
    buyer_authorized: bool,
    watched: u64,
)
    ensures
        transition_in(entries, id, to, buyer_authorized) matches Some(outcome) ==> {
            ||| outcome.0.get(watched) == entries.get(watched)
            ||| {
                &&& watched == id
                &&& entries.contains_key(id)
                &&& entries[id].status.allows(to)
                &&& outcome.0.get(id) == Some(entries[id].with_status(to))
            }
        },
{
}

} // verus!
