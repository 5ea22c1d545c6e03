//! Accounts read by the state-transition and settlement instructions, held as
//! the plain values that the rules compare, and the fee arithmetic shared by
//! every settlement path.

use vstd::prelude::*;

use crate::constants::BPS_DENOMINATOR;
use crate::errors::TendaError;
use crate::instructions::require;
use crate::state::escrow::{Escrow, EscrowStatus};
use crate::state::platform::PlatformState;
use crate::state::pubkey::{key_eq, Pubkey};

verus! {

/// A token account as the rules see it: which mint it holds and who owns it.
#[derive(Clone, Copy, Debug, PartialEq, Eq)]
pub struct TokenAccountKeys {
    pub mint: Pubkey,
    pub owner: Pubkey,
}

/// State-only mutation (accept, decline, submit): the transaction signer.
#[derive(Clone, Copy, Debug, PartialEq, Eq)]
pub struct EscrowMutation {
    pub signer: Pubkey,
}

/// SOL settlement: the recipient accounts and the signer.
#[derive(Clone, Copy, Debug, PartialEq, Eq)]
pub struct SettleSol {
    pub creator: Pubkey,
    pub counterparty: Pubkey,
    pub treasury: Pubkey,
    pub signer: Pubkey,
}

/// SPL settlement: the recipient wallets, their token accounts, the vault
/// token account and the signer.
#[derive(Clone, Copy, Debug, PartialEq, Eq)]
pub struct SettleSpl {
    pub creator: Pubkey,
    pub counterparty: Pubkey,
    pub treasury: Pubkey,
    pub signer: Pubkey,
    pub vault_token_account: TokenAccountKeys,
    pub creator_token_account: TokenAccountKeys,
    pub counterparty_token_account: TokenAccountKeys,
    pub treasury_token_account: TokenAccountKeys,
}

/// Funds that a settlement moves out of the escrow vault, per recipient.
#[derive(Clone, Copy, PartialEq, Eq, Structural, Debug)]
pub struct Payout {
    pub to_creator: u64,
    pub to_counterparty: u64,
    pub to_treasury: u64,
}

impl Payout {
    /// Everything the payout moves out of the vault.
    pub open spec fn total(self) -> int {
        self.to_creator + self.to_counterparty + self.to_treasury
    }
}

/// The platform fee on `amount` at `fee_bps`: `amount * fee_bps / 10_000`
/// rounded down, or `ArithmeticOverflow` when the product exceeds `u64`.
pub open spec fn spec_compute_fee(amount: u64, fee_bps: u16) -> Result<u64, TendaError> {
    if amount * fee_bps > u64::MAX {
        Err(TendaError::ArithmeticOverflow)
    } else {
        Ok(((amount * fee_bps) / 10_000int) as u64)
    }
}

/// Shared fee math: floor division, no rounding, 64-bit product.
pub fn compute_fee(amount: u64, fee_bps: u16) -> (r: Result<u64, TendaError>)
    ensures
        r == spec_compute_fee(amount, fee_bps),
{
    let product = match amount.checked_mul(fee_bps as u64) {
        Some(p) => p,
        None => {
            return Err(TendaError::ArithmeticOverflow);
        },
    };
    Ok(product / BPS_DENOMINATOR)
}

/// Checks on the SOL settlement accounts: the creator account is the
/// escrow's creator, the treasury account is the platform's treasury.
pub open spec fn spec_check_settle_sol(e: Escrow, p: PlatformState, a: SettleSol) -> Result<
    (),
    TendaError,
> {
    if a.creator != e.creator {
        Err(TendaError::NotCreator)
    } else {
        require(a.treasury == p.treasury, TendaError::TreasuryMismatch)
    }
}

/// Checks on the SPL settlement accounts, in account order: creator,
/// treasury, then the mint of each token account and the owners of the
/// creator's and the treasury's token accounts.
pub open spec fn spec_check_settle_spl(e: Escrow, p: PlatformState, a: SettleSpl) -> Result<
    (),
    TendaError,
> {
    if a.creator != e.creator {
        Err(TendaError::NotCreator)
    } else if a.treasury != p.treasury {
        Err(TendaError::TreasuryMismatch)
    } else if a.vault_token_account.mint != e.asset {
        Err(TendaError::MintMismatch)
    } else if a.creator_token_account.mint != e.asset {
        Err(TendaError::MintMismatch)
    } else if a.creator_token_account.owner != a.creator {
        Err(TendaError::TokenAccountMismatch)
    } else if a.counterparty_token_account.mint != e.asset {
        Err(TendaError::MintMismatch)
    } else if a.treasury_token_account.mint != e.asset {
        Err(TendaError::MintMismatch)
    } else {
        require(a.treasury_token_account.owner == a.treasury, TendaError::TokenAccountMismatch)
    }
}

/// Runs the SOL settlement account checks.
pub fn check_settle_sol(escrow: &Escrow, platform_state: &PlatformState, accounts: &SettleSol) -> (r:
    Result<(), TendaError>)
    ensures
        r == spec_check_settle_sol(*escrow, *platform_state, *accounts),
{
    if !key_eq(&accounts.creator, &escrow.creator) {
        return Err(TendaError::NotCreator);
    }
    if !key_eq(&accounts.treasury, &platform_state.treasury) {
        return Err(TendaError::TreasuryMismatch);
    }
    Ok(())
}

/// Runs the SPL settlement account checks.
pub fn check_settle_spl(escrow: &Escrow, platform_state: &PlatformState, accounts: &SettleSpl) -> (r:
    Result<(), TendaError>)
    ensures
        r == spec_check_settle_spl(*escrow, *platform_state, *accounts),
{
    if !key_eq(&accounts.creator, &escrow.creator) {
        return Err(TendaError::NotCreator);
    }
    if !key_eq(&accounts.treasury, &platform_state.treasury) {
        return Err(TendaError::TreasuryMismatch);
    }
    if !key_eq(&accounts.vault_token_account.mint, &escrow.asset) {
        return Err(TendaError::MintMismatch);
    }
    if !key_eq(&accounts.creator_token_account.mint, &escrow.asset) {
        return Err(TendaError::MintMismatch);
    }
    if !key_eq(&accounts.creator_token_account.owner, &accounts.creator) {
        return Err(TendaError::TokenAccountMismatch);
    }
    if !key_eq(&accounts.counterparty_token_account.mint, &escrow.asset) {
        return Err(TendaError::MintMismatch);
    }
    if !key_eq(&accounts.treasury_token_account.mint, &escrow.asset) {
        return Err(TendaError::MintMismatch);
    }
    if !key_eq(&accounts.treasury_token_account.owner, &accounts.treasury) {
        return Err(TendaError::TokenAccountMismatch);
    }
    Ok(())
}

/// Settlement to the counterparty: the fee at the escrow's effective rate
/// goes to the treasury and the rest to the counterparty; status becomes
/// `Completed`.
pub open spec fn spec_pay_counterparty(e: Escrow, p: PlatformState) -> Result<
    (Escrow, Payout),
    TendaError,
> {
    match spec_compute_fee(e.amount, p.spec_effective_fee_bps(e.is_seeker)) {
        Err(x) => Err(x),
        Ok(fee) => if fee > e.amount {
            Err(TendaError::ArithmeticUnderflow)
        } else {
            Ok(
                (
                    Escrow { status: EscrowStatus::Completed, ..e },
                    Payout { to_creator: 0, to_counterparty: (e.amount - fee) as u64, to_treasury: fee },
                ),
            )
        },
    }
}

/// Computes the counterparty settlement: the `Payout` and the completed
/// escrow, or the arithmetic error.
pub fn pay_counterparty(escrow: &Escrow, platform_state: &PlatformState) -> (r: Result<
    (Escrow, Payout),
    TendaError,
>)
    ensures
        r == spec_pay_counterparty(*escrow, *platform_state),
{
    let fee = match compute_fee(escrow.amount, platform_state.effective_fee_bps(escrow.is_seeker)) {
        Ok(f) => f,
        Err(x) => {
            return Err(x);
        },
    };
    let counterparty_payout = match escrow.amount.checked_sub(fee) {
        Some(v) => v,
        None => {
            return Err(TendaError::ArithmeticUnderflow);
        },
    };
    Ok(
        (
            Escrow { status: EscrowStatus::Completed, ..*escrow },
            Payout { to_creator: 0, to_counterparty: counterparty_payout, to_treasury: fee },
        ),
    )
}

} // verus!
