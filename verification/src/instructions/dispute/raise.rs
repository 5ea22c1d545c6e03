//! `dispute_escrow_{sol,spl}`: either party disputes an `Accepted` or
//! `Submitted` escrow, paying the agreed bond into the same vault as the
//! principal. Status becomes `Disputed`.

use vstd::prelude::*;

use crate::errors::TendaError;
use crate::instructions::escrow_state::settlement_accounts::TokenAccountKeys;
use crate::instructions::{require, transition_outcome};
use crate::state::escrow::{Escrow, EscrowStatus};
use crate::state::pubkey::{key_eq, Pubkey};

verus! {

/// Accounts of a SOL dispute: the raiser (signer, pays the bond).
#[derive(Clone, Copy, Debug, PartialEq, Eq)]
pub struct DisputeSol {
    pub raiser: Pubkey,
}

/// Accounts of a token dispute: the raiser, the vault token account and the
/// raiser's token account.
#[derive(Clone, Copy, Debug, PartialEq, Eq)]
pub struct DisputeSpl {
    pub raiser: Pubkey,
    pub vault_token_account: TokenAccountKeys,
    pub raiser_token_account: TokenAccountKeys,
}

/// The raiser is a party: the escrow has a counterparty, and the raiser is
/// the creator or that counterparty.
pub open spec fn spec_assert_dispute_party(e: Escrow, raiser: Pubkey) -> Result<(), TendaError> {
    match e.counterparty {
        None => Err(TendaError::NoCounterpartyForDispute),
        Some(cp) => require(raiser == e.creator || raiser == cp, TendaError::NotDisputeParty),
    }
}

/// Checks that `raiser` may dispute the escrow.
pub fn assert_dispute_party(escrow: &Escrow, raiser: &Pubkey) -> (r: Result<(), TendaError>)
    ensures
        r == spec_assert_dispute_party(*escrow, *raiser),
{
    let counterparty = match escrow.counterparty {
        Some(cp) => cp,
        None => {
            return Err(TendaError::NoCounterpartyForDispute);
        },
    };
    if !(key_eq(raiser, &escrow.creator) || key_eq(raiser, &counterparty)) {
        return Err(TendaError::NotDisputeParty);
    }
    Ok(())
}

/// Only `Accepted` and `Submitted` escrows can be disputed; the result is the
/// status the dispute starts from.
pub open spec fn spec_assert_disputable_status(e: Escrow) -> Result<EscrowStatus, TendaError> {
    match e.status {
        EscrowStatus::Accepted | EscrowStatus::Submitted => Ok(e.status),
        _ => Err(TendaError::InvalidEscrowStatus),
    }
}

/// Checks that the escrow's status can be disputed and returns it.
pub fn assert_disputable_status(escrow: &Escrow) -> (r: Result<EscrowStatus, TendaError>)
    ensures
        r == spec_assert_disputable_status(*escrow),
{
    match escrow.status {
        EscrowStatus::Accepted | EscrowStatus::Submitted => Ok(escrow.status),
        _ => Err(TendaError::InvalidEscrowStatus),
    }
}

/// Checks on the token dispute accounts, in account order: both token
/// accounts hold the escrow's mint, and the raiser owns its token account.
pub open spec fn spec_check_dispute_spl(e: Escrow, a: DisputeSpl) -> Result<(), TendaError> {
    if a.vault_token_account.mint != e.asset {
        Err(TendaError::MintMismatch)
    } else if a.raiser_token_account.mint != e.asset {
        Err(TendaError::MintMismatch)
    } else {
        require(a.raiser_token_account.owner == a.raiser, TendaError::TokenAccountMismatch)
    }
}

/// Runs the token dispute account checks.
pub fn check_dispute_spl(escrow: &Escrow, accounts: &DisputeSpl) -> (r: Result<(), TendaError>)
    ensures
        r == spec_check_dispute_spl(*escrow, *accounts),
{
    if !key_eq(&accounts.vault_token_account.mint, &escrow.asset) {
        return Err(TendaError::MintMismatch);
    }
    if !key_eq(&accounts.raiser_token_account.mint, &escrow.asset) {
        return Err(TendaError::MintMismatch);
    }
    if !key_eq(&accounts.raiser_token_account.owner, &accounts.raiser) {
        return Err(TendaError::TokenAccountMismatch);
    }
    Ok(())
}

/// Raising a dispute: the raiser is a party, the status is disputable, and
/// the offered bond equals the escrow's agreed bond. The escrow becomes
/// `Disputed`; the result is the status it came from. The bond is what the
/// raiser then pays into the vault.
pub open spec fn spec_raise(e: Escrow, raiser: Pubkey, bond_amount: u64) -> Result<
    (Escrow, EscrowStatus),
    TendaError,
> {
    match spec_assert_dispute_party(e, raiser) {
        Err(x) => Err(x),
        Ok(_) => match spec_assert_disputable_status(e) {
            Err(x) => Err(x),
            Ok(from) => if bond_amount != e.dispute_bond {
                Err(TendaError::DisputeBondMismatch)
            } else {
                Ok((Escrow { status: EscrowStatus::Disputed, ..e }, from))
            },
        },
    }
}

/// Dispute of a token escrow.
pub open spec fn spec_raise_spl(e: Escrow, a: DisputeSpl, bond_amount: u64) -> Result<
    (Escrow, EscrowStatus),
    TendaError,
> {
    match spec_check_dispute_spl(e, a) {
        Err(x) => Err(x),
        Ok(_) => spec_raise(e, a.raiser, bond_amount),
    }
}

fn raise(escrow: &mut Escrow, raiser: &Pubkey, bond_amount: u64) -> (r: Result<
    EscrowStatus,
    TendaError,
>)
    ensures
        transition_outcome(spec_raise(*old(escrow), *raiser, bond_amount), r, *old(escrow), *final(escrow)),
{
    match assert_dispute_party(escrow, raiser) {
        Err(x) => {
            return Err(x);
        },
        Ok(()) => {},
    }
    let from_status = match assert_disputable_status(escrow) {
        Err(x) => {
            return Err(x);
        },
        Ok(s) => s,
    };
    if bond_amount != escrow.dispute_bond {
        return Err(TendaError::DisputeBondMismatch);
    }
    escrow.status = EscrowStatus::Disputed;
    Ok(from_status)
}

/// Dispute a SOL escrow offering `bond_amount`: returns the status the dispute
/// starts from.
pub fn handler_sol(escrow: &mut Escrow, accounts: &DisputeSol, bond_amount: u64) -> (r: Result<
    EscrowStatus,
    TendaError,
>)
    ensures
        transition_outcome(
            spec_raise(*old(escrow), accounts.raiser, bond_amount),
            r,
            *old(escrow),
            *final(escrow),
        ),
{
    raise(escrow, &accounts.raiser, bond_amount)
}

/// Dispute a token escrow offering `bond_amount`: returns the status the
/// dispute starts from.
pub fn handler_spl(escrow: &mut Escrow, accounts: &DisputeSpl, bond_amount: u64) -> (r: Result<
    EscrowStatus,
    TendaError,
>)
    ensures
        transition_outcome(
            spec_raise_spl(*old(escrow), *accounts, bond_amount),
            r,
            *old(escrow),
            *final(escrow),
        ),
{
    match check_dispute_spl(escrow, accounts) {
        Err(x) => Err(x),
        Ok(()) => raise(escrow, &accounts.raiser, bond_amount),
    }
}

} // verus!
