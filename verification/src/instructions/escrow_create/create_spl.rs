use vstd::prelude::*;

use crate::errors::TendaError;
use crate::state::escrow::Escrow;
use crate::state::pubkey::Pubkey;

use super::shared::{new_escrow, spec_new_escrow, CreateEscrowArgs};

verus! {

/// Accounts of a token escrow creation, as the rules see them: the creator,
/// the mint, and the bumps of the new escrow and vault token addresses.
#[derive(Clone, Copy, Debug, PartialEq, Eq)]
pub struct CreateEscrowSpl {
    pub creator: Pubkey,
    pub mint: Pubkey,
    pub escrow_bump: u8,
    pub vault_bump: u8,
}

/// Token creation: the arguments validate at `now`; the result is the new
/// `Open` escrow whose asset is the mint.
pub open spec fn spec_create_spl(args: CreateEscrowArgs, a: CreateEscrowSpl, now: i64) -> Result<
    Escrow,
    TendaError,
> {
    match args.spec_validate(now) {
        Err(x) => Err(x),
        Ok(_) => Ok(spec_new_escrow(args, a.creator, a.mint, now, a.escrow_bump, a.vault_bump)),
    }
}

/// Create a token escrow at time `now`.
pub fn handler(args: &CreateEscrowArgs, accounts: &CreateEscrowSpl, now: i64) -> (r: Result<
    Escrow,
    TendaError,
>)
    ensures
        r == spec_create_spl(*args, *accounts, now),
{
    match args.validate(now) {
        Err(x) => Err(x),
        Ok(()) => Ok(
            new_escrow(
                args,
                accounts.creator,
                accounts.mint,
                now,
                accounts.escrow_bump,
                accounts.vault_bump,
            ),
        ),
    }
}

} // verus!
