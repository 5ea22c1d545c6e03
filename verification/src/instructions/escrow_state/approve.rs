//! `approve_completion_{sol,spl}`: the creator releases payment to the
//! counterparty and the platform fee to the treasury. Allowed any time while
//! the escrow is `Submitted` (before or after the approval deadline).

use vstd::prelude::*;

use crate::errors::TendaError;
use crate::instructions::transition_outcome;
use crate::state::escrow::{Escrow, EscrowStatus};
use crate::state::platform::PlatformState;
use crate::state::pubkey::{key_eq, Pubkey};

use super::settlement_accounts::{
    check_settle_sol, check_settle_spl, pay_counterparty, spec_check_settle_sol,
    spec_check_settle_spl, spec_pay_counterparty, Payout, SettleSol, SettleSpl,
};

verus! {

/// The approval rules once the accounts are checked: the escrow is
/// `Submitted`, the signer is its creator, the counterparty account (and,
/// for tokens, the owner of the counterparty's token account) is the
/// recorded counterparty; then the counterparty is paid.
pub open spec fn spec_approve(
    e: Escrow,
    p: PlatformState,
    signer: Pubkey,
    counterparty_account: Pubkey,
    counterparty_token_owner: Option<Pubkey>,
) -> Result<(Escrow, Payout), TendaError> {
    if e.status != EscrowStatus::Submitted {
        Err(TendaError::InvalidEscrowStatus)
    } else if signer != e.creator {
        Err(TendaError::NotCreator)
    } else {
        match e.counterparty {
            None => Err(TendaError::NotCounterparty),
            Some(cp) => if counterparty_account != cp {
                Err(TendaError::NotCounterparty)
            } else if counterparty_token_owner matches Some(o) && o != cp {
                Err(TendaError::TokenAccountMismatch)
            } else {
                spec_pay_counterparty(e, p)
            },
        }
    }
}

/// Approval of a SOL escrow.
pub open spec fn spec_approve_sol(e: Escrow, p: PlatformState, a: SettleSol) -> Result<
    (Escrow, Payout),
    TendaError,
> {
    match spec_check_settle_sol(e, p, a) {
        Err(x) => Err(x),
        Ok(_) => spec_approve(e, p, a.signer, a.counterparty, None),
    }
}

/// Approval of a token escrow.
pub open spec fn spec_approve_spl(e: Escrow, p: PlatformState, a: SettleSpl) -> Result<
    (Escrow, Payout),
    TendaError,
> {
    match spec_check_settle_spl(e, p, a) {
        Err(x) => Err(x),
        Ok(_) => spec_approve(e, p, a.signer, a.counterparty, Some(a.counterparty_token_account.owner)),
    }
}

fn approve(
    escrow: &mut Escrow,
    platform_state: &PlatformState,
    signer: &Pubkey,
    counterparty_account: &Pubkey,
    counterparty_token_owner: Option<Pubkey>,
) -> (r: Result<Payout, TendaError>)
    ensures
        transition_outcome(
            spec_approve(*old(escrow), *platform_state, *signer, *counterparty_account, counterparty_token_owner),
            r,
            *old(escrow),
            *final(escrow),
        ),
{
    if escrow.status != EscrowStatus::Submitted {
        return Err(TendaError::InvalidEscrowStatus);
    }
    if !key_eq(signer, &escrow.creator) {
        return Err(TendaError::NotCreator);
    }
    let counterparty = match escrow.counterparty {
        Some(cp) => cp,
        None => {
            return Err(TendaError::NotCounterparty);
        },
    };
    if !key_eq(counterparty_account, &counterparty) {
        return Err(TendaError::NotCounterparty);
    }
    if let Some(owner) = counterparty_token_owner {
        if !key_eq(&owner, &counterparty) {
            return Err(TendaError::TokenAccountMismatch);
        }
    }
    match pay_counterparty(escrow, platform_state) {
        Ok((settled, payout)) => {
            *escrow = settled;
            Ok(payout)
        },
        Err(x) => Err(x),
    }
}

/// Approve a SOL escrow: returns what leaves the vault.
pub fn handler_sol(escrow: &mut Escrow, platform_state: &PlatformState, accounts: &SettleSol) -> (r:
    Result<Payout, TendaError>)
    ensures
        transition_outcome(
            spec_approve_sol(*old(escrow), *platform_state, *accounts),
            r,
            *old(escrow),
            *final(escrow),
        ),
{
    match check_settle_sol(escrow, platform_state, accounts) {
        Err(x) => Err(x),
        Ok(()) => approve(escrow, platform_state, &accounts.signer, &accounts.counterparty, None),
    }
}

/// Approve a token escrow: returns what leaves the vault token account.
pub fn handler_spl(escrow: &mut Escrow, platform_state: &PlatformState, accounts: &SettleSpl) -> (r:
    Result<Payout, TendaError>)
    ensures
        transition_outcome(
            spec_approve_spl(*old(escrow), *platform_state, *accounts),
            r,
            *old(escrow),
            *final(escrow),
        ),
{
    match check_settle_spl(escrow, platform_state, accounts) {
        Err(x) => Err(x),
        Ok(()) => approve(
            escrow,
            platform_state,
            &accounts.signer,
            &accounts.counterparty,
            Some(accounts.counterparty_token_account.owner),
        ),
    }
}

} // verus!
