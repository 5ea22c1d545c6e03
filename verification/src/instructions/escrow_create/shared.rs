use vstd::prelude::*;

use crate::constants::{
    MAX_COMPLETION_DURATION_SECONDS, MIN_COMPLETION_DURATION_SECONDS, MIN_ESCROW_AMOUNT,
};
use crate::errors::TendaError;
use crate::state::escrow::{Escrow, EscrowKind, EscrowStatus};
use crate::state::pubkey::Pubkey;

verus! {

/// Arguments shared by both creation paths. `accept_deadline` is absolute
/// Unix seconds; `completion_duration_seconds` is relative, because the
/// completion deadline is fixed at acceptance.
#[derive(Clone, Copy, Debug, PartialEq, Eq)]
pub struct CreateEscrowArgs {
    pub escrow_id: [u8; 16],
    pub kind: EscrowKind,
    pub amount: u64,
    pub assigned_counterparty: Option<Pubkey>,
    pub accept_deadline: i64,
    pub completion_duration_seconds: i64,
    pub dispute_bond: u64,
    pub is_seeker: bool,
}

impl CreateEscrowArgs {
    /// Input validation at time `now`: amount at least the minimum, accept
    /// deadline strictly in the future, completion duration within range;
    /// the first failing check gives the error.
    pub open spec fn spec_validate(&self, now: i64) -> Result<(), TendaError> {
        if self.amount < MIN_ESCROW_AMOUNT {
            Err(TendaError::AmountTooLow)
        } else if self.accept_deadline <= now {
            Err(TendaError::AcceptDeadlineInPast)
        } else if self.completion_duration_seconds < MIN_COMPLETION_DURATION_SECONDS
            || self.completion_duration_seconds > MAX_COMPLETION_DURATION_SECONDS {
            Err(TendaError::CompletionDurationOutOfRange)
        } else {
            Ok(())
        }
    }

    /// Validate the arguments at time `now`; runs before any state write.
    pub fn validate(&self, now: i64) -> (r: Result<(), TendaError>)
        ensures
            r == self.spec_validate(now),
    {
        if self.amount < MIN_ESCROW_AMOUNT {
            return Err(TendaError::AmountTooLow);
        }
        if !(self.accept_deadline > now) {
            return Err(TendaError::AcceptDeadlineInPast);
        }
        if !(MIN_COMPLETION_DURATION_SECONDS <= self.completion_duration_seconds
            && self.completion_duration_seconds <= MAX_COMPLETION_DURATION_SECONDS) {
            return Err(TendaError::CompletionDurationOutOfRange);
        }
        Ok(())
    }
}

/// The escrow a successful creation writes: the arguments, the creator, the
/// asset, `Open`, no counterparty, deadlines not yet set (0), created at `now`.
pub open spec fn spec_new_escrow(
    args: CreateEscrowArgs,
    creator: Pubkey,
    asset: Pubkey,
    now: i64,
    bump: u8,
    vault_bump: u8,
) -> Escrow {
    Escrow {
        escrow_id: args.escrow_id,
        kind: args.kind,
        asset,
        amount: args.amount,
        creator,
        counterparty: None,
        assigned_counterparty: args.assigned_counterparty,
        status: EscrowStatus::Open,
        accept_deadline: args.accept_deadline,
        completion_duration_seconds: args.completion_duration_seconds,
        completion_deadline: 0,
        approval_deadline: 0,
        dispute_bond: args.dispute_bond,
        is_seeker: args.is_seeker,
        created_at: now,
        bump,
        vault_bump,
    }
}

/// Builds the escrow that creation writes.
pub fn new_escrow(
    args: &CreateEscrowArgs,
    creator: Pubkey,
    asset: Pubkey,
    now: i64,
    bump: u8,
    vault_bump: u8,
) -> (e: Escrow)
    ensures
        e == spec_new_escrow(*args, creator, asset, now, bump, vault_bump),
{
    Escrow {
        escrow_id: args.escrow_id,
        kind: args.kind,
        asset,
        amount: args.amount,
        creator,
        counterparty: None,
        assigned_counterparty: args.assigned_counterparty,
        status: EscrowStatus::Open,
        accept_deadline: args.accept_deadline,
        completion_duration_seconds: args.completion_duration_seconds,
        completion_deadline: 0,
        approval_deadline: 0,
        dispute_bond: args.dispute_bond,
        is_seeker: args.is_seeker,
        created_at: now,
        bump,
        vault_bump,
    }
}

} // verus!
