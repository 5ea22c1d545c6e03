//! Rules of moving funds out of an escrow's lamport vault.

use vstd::prelude::*;

use crate::errors::TendaError;

verus! {

/// Whether a withdrawal of `amount` from a vault holding `vault_lamports`
/// goes ahead: a zero amount needs no transfer (`Ok(false)`); otherwise the
/// vault must hold at least the amount (`Ok(true)`), else `VaultUnderfunded`.
pub fn check_vault_withdrawal(vault_lamports: u64, amount: u64) -> (r: Result<bool, TendaError>)
    ensures
        amount == 0 ==> r == Ok::<bool, TendaError>(false),
        amount != 0 && vault_lamports >= amount ==> r == Ok::<bool, TendaError>(true),
        amount != 0 && vault_lamports < amount ==> r == Err::<bool, TendaError>(
            TendaError::VaultUnderfunded,
        ),
{
    if amount == 0 {
        return Ok(false);
    }
    if vault_lamports < amount {
        return Err(TendaError::VaultUnderfunded);
    }
    Ok(true)
}

} // verus!
