//! `claim_stalled_payment_{sol,spl}`: once the approval deadline has passed
//! without the creator approving a submitted escrow, the counterparty claims
//! the payment itself. Same split as approval: fee to the treasury, the rest
//! to the counterparty; status becomes `Completed`.

use vstd::prelude::*;

use crate::errors::TendaError;
use crate::instructions::transition_outcome;
use crate::state::escrow::{Escrow, EscrowStatus};
use crate::state::platform::PlatformState;
use crate::state::pubkey::{key_eq, Pubkey};

use super::settlement_accounts::{
    check_settle_sol, check_settle_spl, pay_counterparty, spec_check_settle_sol,
    spec_check_settle_spl, spec_pay_counterparty, Payout, SettleSol, SettleSpl,
};

verus! {

/// The claim rules once the accounts are checked: the escrow is `Submitted`
/// with a counterparty, the signer and the counterparty account (and, for
/// tokens, the owner of the counterparty's token account) are that
/// counterparty, and `now` has reached the approval deadline.
pub open spec fn spec_claim_stalled(
    e: Escrow,
    p: PlatformState,
    signer: Pubkey,
    now: i64,
    counterparty_account: Pubkey,
    counterparty_token_owner: Option<Pubkey>,
) -> Result<(Escrow, Payout), TendaError> {
    if e.status != EscrowStatus::Submitted {
        Err(TendaError::InvalidEscrowStatus)
    } else {
        match e.counterparty {
            None => Err(TendaError::NotCounterparty),
            Some(cp) => if signer != cp {
                Err(TendaError::NotCounterparty)
            } else if counterparty_account != cp {
                Err(TendaError::NotCounterparty)
            } else if counterparty_token_owner matches Some(o) && o != cp {
                Err(TendaError::TokenAccountMismatch)
            } else if now < e.approval_deadline {
                Err(TendaError::ApprovalDeadlineNotPassed)
            } else {
                spec_pay_counterparty(e, p)
            },
        }
    }
}

/// Stalled-payment claim on a SOL escrow.
pub open spec fn spec_claim_stalled_sol(e: Escrow, p: PlatformState, a: SettleSol, now: i64) -> Result<
    (Escrow, Payout),
    TendaError,
> {
    match spec_check_settle_sol(e, p, a) {
        Err(x) => Err(x),
        Ok(_) => spec_claim_stalled(e, p, a.signer, now, a.counterparty, None),
    }
}

/// Stalled-payment claim on a token escrow.
pub open spec fn spec_claim_stalled_spl(e: Escrow, p: PlatformState, a: SettleSpl, now: i64) -> Result<
    (Escrow, Payout),
    TendaError,
> {
    match spec_check_settle_spl(e, p, a) {
        Err(x) => Err(x),
        Ok(_) => spec_claim_stalled(
            e,
            p,
            a.signer,
            now,
            a.counterparty,
            Some(a.counterparty_token_account.owner),
        ),
    }
}

fn claim_stalled(
    escrow: &mut Escrow,
    platform_state: &PlatformState,
    signer: &Pubkey,
    now: i64,
    counterparty_account: &Pubkey,
    counterparty_token_owner: Option<Pubkey>,
) -> (r: Result<Payout, TendaError>)
    ensures
        transition_outcome(
            spec_claim_stalled(
                *old(escrow),
                *platform_state,
                *signer,
                now,
                *counterparty_account,
                counterparty_token_owner,
            ),
            r,
            *old(escrow),
            *final(escrow),
        ),
{
    if escrow.status != EscrowStatus::Submitted {
        return Err(TendaError::InvalidEscrowStatus);
    }
    let counterparty = match escrow.counterparty {
        Some(cp) => cp,
        None => {
            return Err(TendaError::NotCounterparty);
        },
    };
    if !key_eq(signer, &counterparty) {
        return Err(TendaError::NotCounterparty);
    }
    if !key_eq(counterparty_account, &counterparty) {
        return Err(TendaError::NotCounterparty);
    }
    if let Some(owner) = counterparty_token_owner {
        if !key_eq(&owner, &counterparty) {
            return Err(TendaError::TokenAccountMismatch);
        }
    }
    if now < escrow.approval_deadline {
        return Err(TendaError::ApprovalDeadlineNotPassed);
    }
    match pay_counterparty(escrow, platform_state) {
        Ok((settled, payout)) => {
            *escrow = settled;
            Ok(payout)
        },
        Err(x) => Err(x),
    }
}

/// Claim a stalled SOL payment at time `now`: returns what leaves the vault.
pub fn handler_sol(
    escrow: &mut Escrow,
    platform_state: &PlatformState,
    accounts: &SettleSol,
    now: i64,
) -> (r: Result<Payout, TendaError>)
    ensures
        transition_outcome(
            spec_claim_stalled_sol(*old(escrow), *platform_state, *accounts, now),
            r,
            *old(escrow),
            *final(escrow),
        ),
{
    match check_settle_sol(escrow, platform_state, accounts) {
        Err(x) => Err(x),
        Ok(()) => claim_stalled(
            escrow,
            platform_state,
            &accounts.signer,
            now,
            &accounts.counterparty,
            None,
        ),
    }
}

/// Claim a stalled token payment at time `now`: returns what leaves the
/// vault token account.
pub fn handler_spl(
    escrow: &mut Escrow,
    platform_state: &PlatformState,
    accounts: &SettleSpl,
    now: i64,
) -> (r: Result<Payout, TendaError>)
    ensures
        transition_outcome(
            spec_claim_stalled_spl(*old(escrow), *platform_state, *accounts, now),
            r,
            *old(escrow),
            *final(escrow),
        ),
{
    match check_settle_spl(escrow, platform_state, accounts) {
        Err(x) => Err(x),
        Ok(()) => claim_stalled(
            escrow,
            platform_state,
            &accounts.signer,
            now,
            &accounts.counterparty,
            Some(accounts.counterparty_token_account.owner),
        ),
    }
}

} // verus!
