//! `refund_expired_{sol,spl}`: an open escrow that nobody accepted before its
//! accept deadline; the creator takes the full amount back.

use vstd::prelude::*;

use crate::errors::TendaError;
use crate::instructions::escrow_state::settlement_accounts::Payout;
use crate::instructions::transition_outcome;
use crate::state::escrow::{Escrow, EscrowStatus};

use super::cancel::{
    check_cancel_sol, check_cancel_spl, spec_check_cancel_sol, spec_check_cancel_spl, CancelSol,
    CancelSpl,
};

verus! {

/// The refund rules once the accounts are checked: the escrow is `Open` and
/// `now` has reached the accept deadline; it becomes `Refunded` and the
/// whole amount goes back to the creator.
pub open spec fn spec_refund_expired(e: Escrow, now: i64) -> Result<(Escrow, Payout), TendaError> {
    if e.status != EscrowStatus::Open {
        Err(TendaError::InvalidEscrowStatus)
    } else if now < e.accept_deadline {
        Err(TendaError::AcceptDeadlineNotPassed)
    } else {
        Ok(
            (
                Escrow { status: EscrowStatus::Refunded, ..e },
                Payout { to_creator: e.amount, to_counterparty: 0, to_treasury: 0 },
            ),
        )
    }
}

/// Refund of an expired SOL escrow.
pub open spec fn spec_refund_expired_sol(e: Escrow, a: CancelSol, now: i64) -> Result<
    (Escrow, Payout),
    TendaError,
> {
    match spec_check_cancel_sol(e, a) {
        Err(x) => Err(x),
        Ok(_) => spec_refund_expired(e, now),
    }
}

/// Refund of an expired token escrow.
pub open spec fn spec_refund_expired_spl(e: Escrow, a: CancelSpl, now: i64) -> Result<
    (Escrow, Payout),
    TendaError,
> {
    match spec_check_cancel_spl(e, a) {
        Err(x) => Err(x),
        Ok(_) => spec_refund_expired(e, now),
    }
}

fn refund_expired(escrow: &mut Escrow, now: i64) -> (r: Result<Payout, TendaError>)
    ensures
        transition_outcome(spec_refund_expired(*old(escrow), now), r, *old(escrow), *final(escrow)),
{
    if escrow.status != EscrowStatus::Open {
        return Err(TendaError::InvalidEscrowStatus);
    }
    if now < escrow.accept_deadline {
        return Err(TendaError::AcceptDeadlineNotPassed);
    }
    escrow.status = EscrowStatus::Refunded;
    Ok(Payout { to_creator: escrow.amount, to_counterparty: 0, to_treasury: 0 })
}

/// Refund an expired SOL escrow at time `now`: returns what leaves the vault.
pub fn handler_sol(escrow: &mut Escrow, accounts: &CancelSol, now: i64) -> (r: Result<
    Payout,
    TendaError,
>)
    ensures
        transition_outcome(
            spec_refund_expired_sol(*old(escrow), *accounts, now),
            r,
            *old(escrow),
            *final(escrow),
        ),
{
    match check_cancel_sol(escrow, accounts) {
        Err(x) => Err(x),
        Ok(()) => refund_expired(escrow, now),
    }
}

/// Refund an expired token escrow at time `now`: returns what leaves the
/// vault token account.
pub fn handler_spl(escrow: &mut Escrow, accounts: &CancelSpl, now: i64) -> (r: Result<
    Payout,
    TendaError,
>)
    ensures
        transition_outcome(
            spec_refund_expired_spl(*old(escrow), *accounts, now),
            r,
            *old(escrow),
            *final(escrow),
        ),
{
    match check_cancel_spl(escrow, accounts) {
        Err(x) => Err(x),
        Ok(()) => refund_expired(escrow, now),
    }
}

} // verus!
