//! `reclaim_abandoned_{sol,spl}`: the creator takes back the full amount when
//! the counterparty accepted but never submitted within
//! `completion_deadline + grace`. No fee.

use vstd::prelude::*;

use crate::errors::TendaError;
use crate::instructions::transition_outcome;
use crate::state::escrow::{Escrow, EscrowStatus};
use crate::state::platform::PlatformState;
use crate::state::pubkey::{key_eq, Pubkey};

use super::settlement_accounts::{
    check_settle_sol, check_settle_spl, spec_check_settle_sol, spec_check_settle_spl, Payout,
    SettleSol, SettleSpl,
};

verus! {

/// The reclaim rules once the accounts are checked: the escrow is `Accepted`,
/// the signer is its creator, it has a counterparty, and `now` has reached
/// `completion_deadline + grace_period_seconds` (which must fit in `i64`).
/// The whole amount returns to the creator and the status becomes `Refunded`.
pub open spec fn spec_reclaim(e: Escrow, p: PlatformState, signer: Pubkey, now: i64) -> Result<
    (Escrow, Payout),
    TendaError,
> {
    if e.status != EscrowStatus::Accepted {
        Err(TendaError::InvalidEscrowStatus)
    } else if signer != e.creator {
        Err(TendaError::NotCreator)
    } else if e.counterparty is None {
        Err(TendaError::NotCounterparty)
    } else if e.completion_deadline + p.grace_period_seconds > i64::MAX
        || e.completion_deadline + p.grace_period_seconds < i64::MIN {
        Err(TendaError::ArithmeticOverflow)
    } else if now < e.completion_deadline + p.grace_period_seconds {
        Err(TendaError::ReclaimWindowNotOpen)
    } else {
        Ok(
            (
                Escrow { status: EscrowStatus::Refunded, ..e },
                Payout { to_creator: e.amount, to_counterparty: 0, to_treasury: 0 },
            ),
        )
    }
}

/// Reclaim of a SOL escrow.
pub open spec fn spec_reclaim_sol(e: Escrow, p: PlatformState, a: SettleSol, now: i64) -> Result<
    (Escrow, Payout),
    TendaError,
> {
    match spec_check_settle_sol(e, p, a) {
        Err(x) => Err(x),
        Ok(_) => spec_reclaim(e, p, a.signer, now),
    }
}

/// Reclaim of a token escrow.
pub open spec fn spec_reclaim_spl(e: Escrow, p: PlatformState, a: SettleSpl, now: i64) -> Result<
    (Escrow, Payout),
    TendaError,
> {
    match spec_check_settle_spl(e, p, a) {
        Err(x) => Err(x),
        Ok(_) => spec_reclaim(e, p, a.signer, now),
    }
}

fn reclaim(escrow: &mut Escrow, platform_state: &PlatformState, signer: &Pubkey, now: i64) -> (r:
    Result<Payout, TendaError>)
    ensures
        transition_outcome(
            spec_reclaim(*old(escrow), *platform_state, *signer, now),
            r,
            *old(escrow),
            *final(escrow),
        ),
{
    if escrow.status != EscrowStatus::Accepted {
        return Err(TendaError::InvalidEscrowStatus);
    }
    if !key_eq(signer, &escrow.creator) {
        return Err(TendaError::NotCreator);
    }
    if escrow.counterparty.is_none() {
        return Err(TendaError::NotCounterparty);
    }
    let reclaim_at = match escrow.completion_deadline.checked_add(platform_state.grace_period_seconds) {
        Some(t) => t,
        None => {
            return Err(TendaError::ArithmeticOverflow);
        },
    };
    if now < reclaim_at {
        return Err(TendaError::ReclaimWindowNotOpen);
    }
    escrow.status = EscrowStatus::Refunded;
    Ok(Payout { to_creator: escrow.amount, to_counterparty: 0, to_treasury: 0 })
}

/// Reclaim an abandoned SOL escrow at time `now`: returns what leaves the
/// vault.
pub fn handler_sol(
    escrow: &mut Escrow,
    platform_state: &PlatformState,
    accounts: &SettleSol,
    now: i64,
) -> (r: Result<Payout, TendaError>)
    ensures
        transition_outcome(
            spec_reclaim_sol(*old(escrow), *platform_state, *accounts, now),
            r,
            *old(escrow),
            *final(escrow),
        ),
{
    match check_settle_sol(escrow, platform_state, accounts) {
        Err(x) => Err(x),
        Ok(()) => reclaim(escrow, platform_state, &accounts.signer, now),
    }
}

/// Reclaim an abandoned token escrow at time `now`: returns what leaves the
/// vault token account.
pub fn handler_spl(
    escrow: &mut Escrow,
    platform_state: &PlatformState,
    accounts: &SettleSpl,
    now: i64,
) -> (r: Result<Payout, TendaError>)
    ensures
        transition_outcome(
            spec_reclaim_spl(*old(escrow), *platform_state, *accounts, now),
            r,
            *old(escrow),
            *final(escrow),
        ),
{
    match check_settle_spl(escrow, platform_state, accounts) {
        Err(x) => Err(x),
        Ok(()) => reclaim(escrow, platform_state, &accounts.signer, now),
    }
}

} // verus!
