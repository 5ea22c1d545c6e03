use vstd::prelude::*;

use crate::constants::{
    MAX_COMPLETION_DURATION_SECONDS, MIN_COMPLETION_DURATION_SECONDS, MIN_ESCROW_AMOUNT,
};
use crate::state::pubkey::Pubkey;

verus! {

/// Escrow asset class.
#[derive(Clone, Copy, PartialEq, Eq, Structural, Debug)]
pub enum EscrowKind {
    /// Gig: creator pays counterparty for work delivered.
    Gig,
    /// Exchange: two-sided peer-to-peer.
    Exchange,
}

/// On-chain escrow status.
#[derive(Clone, Copy, PartialEq, Eq, Structural, Debug)]
pub enum EscrowStatus {
    Open,
    Accepted,
    Submitted,
    Completed,
    Cancelled,
    Refunded,
    Disputed,
    Resolved,
}

/// Winner selection for dispute resolution.
#[derive(Clone, Copy, PartialEq, Eq, Structural, Debug)]
pub enum DisputeWinner {
    Creator,
    Counterparty,
    Split,
}

/// A single escrow.
///
/// `counterparty` is `None` at creation and set by accept. When
/// `assigned_counterparty` is `Some(pk)` only `pk` may accept; the assigned
/// wallet may release the assignment by declining, which leaves the escrow
/// open to anyone but the creator.
#[derive(Clone, Copy, Debug, PartialEq, Eq)]
pub struct Escrow {
    pub escrow_id: [u8; 16],
    pub kind: EscrowKind,
    /// SPL mint for token escrows; the system program id for native SOL.
    pub asset: Pubkey,
    pub amount: u64,
    pub creator: Pubkey,
    pub counterparty: Option<Pubkey>,
    pub assigned_counterparty: Option<Pubkey>,
    pub status: EscrowStatus,
    pub accept_deadline: i64,
    /// Set at creation; accept computes `completion_deadline` from it.
    pub completion_duration_seconds: i64,
    /// 0 at creation; set by accept to `now + completion_duration_seconds`.
    pub completion_deadline: i64,
    /// 0 at creation; set by submit to `now + approval_window_seconds`.
    pub approval_deadline: i64,
    pub dispute_bond: u64,
    pub is_seeker: bool,
    pub created_at: i64,
    /// Bump of the escrow data address.
    pub bump: u8,
    /// Bump of the escrow vault address.
    pub vault_bump: u8,
}

/// Whether the escrow can no longer change: funds have left the vault for good.
pub open spec fn is_terminal(s: EscrowStatus) -> bool {
    ||| s == EscrowStatus::Completed
    ||| s == EscrowStatus::Cancelled
    ||| s == EscrowStatus::Refunded
    ||| s == EscrowStatus::Resolved
}

/// Whether the status is one that only a counterparty's acceptance reaches.
pub open spec fn has_been_accepted(s: EscrowStatus) -> bool {
    ||| s == EscrowStatus::Accepted
    ||| s == EscrowStatus::Submitted
    ||| s == EscrowStatus::Completed
    ||| s == EscrowStatus::Disputed
    ||| s == EscrowStatus::Resolved
}

/// The invariant that every reachable escrow satisfies.
pub open spec fn escrow_wf(e: Escrow) -> bool {
    &&& e.amount >= MIN_ESCROW_AMOUNT
    &&& MIN_COMPLETION_DURATION_SECONDS <= e.completion_duration_seconds
        <= MAX_COMPLETION_DURATION_SECONDS
    &&& (e.status == EscrowStatus::Open ==> e.counterparty is None)
    &&& (e.status == EscrowStatus::Cancelled ==> e.counterparty is None)
    &&& (has_been_accepted(e.status) ==> e.counterparty is Some)
    &&& (e.counterparty matches Some(c) ==> c != e.creator)
    &&& (e.counterparty matches Some(c) ==> (e.assigned_counterparty matches Some(a) ==> a == c))
}

/// The funds the escrow's vault holds on behalf of the parties: the principal
/// while the escrow is live, principal plus bond while it is disputed, and
/// nothing once it has settled.
pub open spec fn vault_holding(e: Escrow) -> int {
    match e.status {
        EscrowStatus::Open | EscrowStatus::Accepted | EscrowStatus::Submitted => e.amount as int,
        EscrowStatus::Disputed => e.amount + e.dispute_bond,
        _ => 0,
    }
}

} // verus!
