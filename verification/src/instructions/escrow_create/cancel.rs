//! `cancel_escrow_{sol,spl}`: the creator unwinds an open escrow before anyone
//! accepted it; the full amount returns to the creator and no fee is taken.

use vstd::prelude::*;

use crate::errors::TendaError;
use crate::instructions::escrow_state::settlement_accounts::{Payout, TokenAccountKeys};
use crate::instructions::{require, transition_outcome};
use crate::state::escrow::{Escrow, EscrowStatus};
use crate::state::pubkey::{key_eq, Pubkey};

verus! {

/// Accounts of a SOL unwind: the creator (signer and refund recipient).
#[derive(Clone, Copy, Debug, PartialEq, Eq)]
pub struct CancelSol {
    pub creator: Pubkey,
}

/// Accounts of a token unwind: the creator, the vault token account and the
/// creator's token account.
#[derive(Clone, Copy, Debug, PartialEq, Eq)]
pub struct CancelSpl {
    pub creator: Pubkey,
    pub vault_token_account: TokenAccountKeys,
    pub creator_token_account: TokenAccountKeys,
}

/// Checks on the unwind accounts: the creator account is the escrow's
/// creator.
pub open spec fn spec_check_cancel_sol(e: Escrow, a: CancelSol) -> Result<(), TendaError> {
    require(a.creator == e.creator, TendaError::NotCreator)
}

/// Checks on the token unwind accounts, in account order: the creator, then
/// the vault and creator token accounts hold the escrow's mint, then the
/// creator owns its token account.
pub open spec fn spec_check_cancel_spl(e: Escrow, a: CancelSpl) -> Result<(), TendaError> {
    if a.creator != e.creator {
        Err(TendaError::NotCreator)
    } else if a.vault_token_account.mint != e.asset {
        Err(TendaError::MintMismatch)
    } else if a.creator_token_account.mint != e.asset {
        Err(TendaError::MintMismatch)
    } else {
        require(a.creator_token_account.owner == a.creator, TendaError::TokenAccountMismatch)
    }
}

/// Runs the SOL unwind account checks.
pub fn check_cancel_sol(escrow: &Escrow, accounts: &CancelSol) -> (r: Result<(), TendaError>)
    ensures
        r == spec_check_cancel_sol(*escrow, *accounts),
{
    if !key_eq(&accounts.creator, &escrow.creator) {
        return Err(TendaError::NotCreator);
    }
    Ok(())
}

/// Runs the token unwind account checks.
pub fn check_cancel_spl(escrow: &Escrow, accounts: &CancelSpl) -> (r: Result<(), TendaError>)
    ensures
        r == spec_check_cancel_spl(*escrow, *accounts),
{
    if !key_eq(&accounts.creator, &escrow.creator) {
        return Err(TendaError::NotCreator);
    }
    if !key_eq(&accounts.vault_token_account.mint, &escrow.asset) {
        return Err(TendaError::MintMismatch);
    }
    if !key_eq(&accounts.creator_token_account.mint, &escrow.asset) {
        return Err(TendaError::MintMismatch);
    }
    if !key_eq(&accounts.creator_token_account.owner, &accounts.creator) {
        return Err(TendaError::TokenAccountMismatch);
    }
    Ok(())
}

/// The cancel rules once the accounts are checked: the escrow is `Open`; it
/// becomes `Cancelled` and the whole amount goes back to the creator.
pub open spec fn spec_cancel(e: Escrow) -> Result<(Escrow, Payout), TendaError> {
    if e.status != EscrowStatus::Open {
        Err(TendaError::InvalidEscrowStatus)
    } else {
        Ok(
            (
                Escrow { status: EscrowStatus::Cancelled, ..e },
                Payout { to_creator: e.amount, to_counterparty: 0, to_treasury: 0 },
            ),
        )
    }
}

/// Cancel of a SOL escrow.
pub open spec fn spec_cancel_sol(e: Escrow, a: CancelSol) -> Result<(Escrow, Payout), TendaError> {
    match spec_check_cancel_sol(e, a) {
        Err(x) => Err(x),
        Ok(_) => spec_cancel(e),
    }
}

/// Cancel of a token escrow.
pub open spec fn spec_cancel_spl(e: Escrow, a: CancelSpl) -> Result<(Escrow, Payout), TendaError> {
    match spec_check_cancel_spl(e, a) {
        Err(x) => Err(x),
        Ok(_) => spec_cancel(e),
    }
}

fn cancel(escrow: &mut Escrow) -> (r: Result<Payout, TendaError>)
    ensures
        transition_outcome(spec_cancel(*old(escrow)), r, *old(escrow), *final(escrow)),
{
    if escrow.status != EscrowStatus::Open {
        return Err(TendaError::InvalidEscrowStatus);
    }
    escrow.status = EscrowStatus::Cancelled;
    Ok(Payout { to_creator: escrow.amount, to_counterparty: 0, to_treasury: 0 })
}

/// Cancel an open SOL escrow: returns what leaves the vault.
pub fn handler_sol(escrow: &mut Escrow, accounts: &CancelSol) -> (r: Result<Payout, TendaError>)
    ensures
        transition_outcome(spec_cancel_sol(*old(escrow), *accounts), r, *old(escrow), *final(escrow)),
{
    match check_cancel_sol(escrow, accounts) {
        Err(x) => Err(x),
        Ok(()) => cancel(escrow),
    }
}

/// Cancel an open token escrow: returns what leaves the vault token account.
pub fn handler_spl(escrow: &mut Escrow, accounts: &CancelSpl) -> (r: Result<Payout, TendaError>)
    ensures
        transition_outcome(spec_cancel_spl(*old(escrow), *accounts), r, *old(escrow), *final(escrow)),
{
    match check_cancel_spl(escrow, accounts) {
        Err(x) => Err(x),
        Ok(()) => cancel(escrow),
    }
}

} // verus!
