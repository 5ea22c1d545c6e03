use vstd::prelude::*;

use crate::errors::TendaError;
use crate::state::escrow::Escrow;
use crate::state::pubkey::Pubkey;

use super::shared::{new_escrow, spec_new_escrow, CreateEscrowArgs};

verus! {

/// Accounts of a SOL escrow creation, as the rules see them: the creator, the
/// system program (whose id marks a native-SOL escrow's asset) and the bumps
/// of the new escrow and vault addresses.
#[derive(Clone, Copy, Debug, PartialEq, Eq)]
pub struct CreateEscrowSol {
    pub creator: Pubkey,
    pub system_program: Pubkey,
    pub escrow_bump: u8,
    pub vault_bump: u8,
}

/// SOL creation: the arguments validate at `now`, and the amount is at least
/// the vault's rent-exempt minimum (a lamport vault below it could not
/// exist). The result is the new `Open` escrow whose asset is the system
/// program id; its `amount` is what the creator then pays into the vault.
pub open spec fn spec_create_sol(
    args: CreateEscrowArgs,
    a: CreateEscrowSol,
    now: i64,
    vault_rent_minimum: u64,
) -> Result<Escrow, TendaError> {
    match args.spec_validate(now) {
        Err(x) => Err(x),
        Ok(_) => if args.amount < vault_rent_minimum {
            Err(TendaError::AmountBelowVaultRentMinimum)
        } else {
            Ok(spec_new_escrow(args, a.creator, a.system_program, now, a.escrow_bump, a.vault_bump))
        },
    }
}

/// Create a SOL escrow at time `now`, given the vault's rent-exempt minimum.
pub fn handler(
    args: &CreateEscrowArgs,
    accounts: &CreateEscrowSol,
    now: i64,
    vault_rent_minimum: u64,
) -> (r: Result<Escrow, TendaError>)
    ensures
        r == spec_create_sol(*args, *accounts, now, vault_rent_minimum),
{
    match args.validate(now) {
        Err(x) => {
            return Err(x);
        },
        Ok(()) => {},
    }
    if args.amount < vault_rent_minimum {
        return Err(TendaError::AmountBelowVaultRentMinimum);
    }
    Ok(
        new_escrow(
            args,
            accounts.creator,
            accounts.system_program,
            now,
            accounts.escrow_bump,
            accounts.vault_bump,
        ),
    )
}

} // verus!
