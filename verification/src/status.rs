//! The escrow lifecycle: its four states and the table of legal moves.

use vstd::prelude::*;

verus! {

/// Lifecycle state of an escrow record.
///
/// Every escrow starts as `Pending`. `Released` and `Refunded` are terminal;
/// `Disputed` is an intermediate state that can only end in a refund.
#[derive(Clone, Copy, Debug, PartialEq, Eq, Structural)]
pub enum EscrowStatus {
    Pending,
    Released,
    Disputed,
    Refunded,
}

impl EscrowStatus {
    /// The transition table: `self -> next` is a legal move exactly for
    /// `Pending -> Released`, `Pending -> Disputed`, `Pending -> Refunded`
    /// and `Disputed -> Refunded`.
    pub open spec fn allows(self, next: EscrowStatus) -> bool {
        match (self, next) {
            (EscrowStatus::Pending, EscrowStatus::Released) => true,
            (EscrowStatus::Pending, EscrowStatus::Disputed) => true,
            (EscrowStatus::Pending, EscrowStatus::Refunded) => true,
            (EscrowStatus::Disputed, EscrowStatus::Refunded) => true,
            _ => false,
        }
    }

    /// The moves that only the escrow's buyer may initiate.
    pub open spec fn buyer_gated(self, next: EscrowStatus) -> bool {
        ||| self == EscrowStatus::Pending && next == EscrowStatus::Released
        ||| self == EscrowStatus::Pending && next == EscrowStatus::Disputed
        ||| self == EscrowStatus::Pending && next == EscrowStatus::Refunded
        ||| self == EscrowStatus::Disputed && next == EscrowStatus::Refunded
    }

    /// A terminal state is logically final: `Released` or `Refunded`.
    pub open spec fn terminal(self) -> bool {
        self == EscrowStatus::Released || self == EscrowStatus::Refunded
    }

    /// Whether the state machine permits moving from `self` to `next`.
    pub fn can_transition_to(&self, next: &EscrowStatus) -> (ok: bool)
        ensures
            ok == self.allows(*next),
    {
        match (*self, *next) {
            (EscrowStatus::Pending, EscrowStatus::Released) => true,
            (EscrowStatus::Pending, EscrowStatus::Disputed) => true,
            (EscrowStatus::Pending, EscrowStatus::Refunded) => true,
            (EscrowStatus::Disputed, EscrowStatus::Refunded) => true,
            _ => false,
        }
    }

    /// Whether moving from `self` to `next` must be authorized by the buyer.
    pub fn requires_buyer_auth(&self, next: &EscrowStatus) -> (needed: bool)
        ensures
            needed == self.buyer_gated(*next),
    {
        match *self {
            EscrowStatus::Pending => match *next {
                EscrowStatus::Pending => false,
                _ => true,
            },
            EscrowStatus::Disputed => match *next {
                EscrowStatus::Refunded => true,
                _ => false,
            },
            _ => false,
        }
    }

    /// Whether no move leads out of `self`.
    pub fn is_terminal(&self) -> (last: bool)
        ensures
            last == self.terminal(),
            last <==> forall|next: EscrowStatus| !self.allows(next),
    {
        proof {
            if *self == EscrowStatus::Pending {
                assert(self.allows(EscrowStatus::Released));
            }
            if *self == EscrowStatus::Disputed {
                assert(self.allows(EscrowStatus::Refunded));
            }
        }
        match *self {
            EscrowStatus::Released => true,
            EscrowStatus::Refunded => true,
            _ => false,
        }
    }
}

/// The legal moves are exactly the four edges of the table; every other
/// pair is rejected.
pub proof fn law_transition_table(from: EscrowStatus, to: EscrowStatus)
    ensures
        from.allows(to) <==> {
            ||| (from == EscrowStatus::Pending && to == EscrowStatus::Released)
            ||| (from == EscrowStatus::Pending && to == EscrowStatus::Disputed)
            ||| (from == EscrowStatus::Pending && to == EscrowStatus::Refunded)
            ||| (from == EscrowStatus::Disputed && to == EscrowStatus::Refunded)
        },
{
}

/// No state may move to itself.
pub proof fn law_no_self_transition(status: EscrowStatus)
    ensures
        !status.allows(status),
{
}

/// Nothing leads out of `Released` or `Refunded`.
pub proof fn law_terminal_states_are_final(from: EscrowStatus, to: EscrowStatus)
    requires
        from.terminal(),
    ensures
        !from.allows(to),
{
}

/// A dispute never resolves into a release.
pub proof fn law_dispute_never_releases()
    ensures
        !EscrowStatus::Disputed.allows(EscrowStatus::Released),
{
}

/// Every legal move is one that the buyer must authorize, and only legal
/// moves are.
pub proof fn law_every_edge_is_buyer_gated(from: EscrowStatus, to: EscrowStatus)
    ensures
        from.allows(to) <==> from.buyer_gated(to),
{
}

} // verus!
