//! `resolve_dispute_{sol,spl}`: the dispute admin distributes the vault
//! (principal plus bond) according to the winner.
//!
//!   Creator      - the creator gets the principal; the bond goes to the
//!                  creator (refunded if the creator raised, forfeited to the
//!                  creator if the counterparty raised).
//!   Counterparty - the counterparty gets the principal minus the fee, the
//!                  treasury the fee; the bond goes to the counterparty
//!                  (refunded or forfeited likewise).
//!   Split        - the principal is halved (no fee; an odd unit goes to the
//!                  counterparty); the bond is refunded to the raiser.
//!
//! The raiser is not recorded on the escrow; the dispute admin supplies it.

use vstd::prelude::*;

use crate::errors::TendaError;
use crate::instructions::escrow_state::settlement_accounts::{
    compute_fee, spec_compute_fee, Payout, TokenAccountKeys,
};
use crate::instructions::{require, transition_outcome};
use crate::state::escrow::{DisputeWinner, Escrow, EscrowStatus};
use crate::state::platform::PlatformState;
use crate::state::pubkey::{key_eq, Pubkey};

verus! {

/// Accounts of a SOL resolution: the recipients and the signing dispute
/// admin.
#[derive(Clone, Copy, Debug, PartialEq, Eq)]
pub struct ResolveSol {
    pub creator: Pubkey,
    pub counterparty: Pubkey,
    pub treasury: Pubkey,
    pub dispute_admin: Pubkey,
}

/// Accounts of a token resolution: the recipients, their token accounts, the
/// vault token account and the signing dispute admin.
#[derive(Clone, Copy, Debug, PartialEq, Eq)]
pub struct ResolveSpl {
    pub creator: Pubkey,
    pub counterparty: Pubkey,
    pub treasury: Pubkey,
    pub dispute_admin: Pubkey,
    pub vault_token_account: TokenAccountKeys,
    pub creator_token_account: TokenAccountKeys,
    pub counterparty_token_account: TokenAccountKeys,
    pub treasury_token_account: TokenAccountKeys,
}

/// How the vault (principal plus bond) is distributed. `bond_refund_to` names
/// the raiser when the bond goes back to them, and is `None` when it is
/// forfeited to the other party.
#[derive(Clone, Copy, Debug, PartialEq, Eq)]
pub struct Distribution {
    pub creator_payout: u64,
    pub counterparty_payout: u64,
    pub treasury_fee: u64,
    pub bond_to_creator: u64,
    pub bond_to_counterparty: u64,
    pub bond_refund_to: Option<Pubkey>,
}

/// The distribution for `winner`, given who raised the dispute.
pub open spec fn spec_compute_distribution(
    e: Escrow,
    p: PlatformState,
    winner: DisputeWinner,
    raiser: Pubkey,
    counterparty: Pubkey,
) -> Result<Distribution, TendaError> {
    let bond = e.dispute_bond;
    match winner {
        DisputeWinner::Creator => Ok(
            Distribution {
                creator_payout: e.amount,
                counterparty_payout: 0,
                treasury_fee: 0,
                bond_to_creator: bond,
                bond_to_counterparty: 0,
                bond_refund_to: if raiser == e.creator {
                    Some(e.creator)
                } else {
                    None
                },
            },
        ),
        DisputeWinner::Counterparty => match spec_compute_fee(
            e.amount,
            p.spec_effective_fee_bps(e.is_seeker),
        ) {
            Err(x) => Err(x),
            Ok(fee) => if fee > e.amount {
                Err(TendaError::ArithmeticUnderflow)
            } else {
                Ok(
                    Distribution {
                        creator_payout: 0,
                        counterparty_payout: (e.amount - fee) as u64,
                        treasury_fee: fee,
                        bond_to_creator: 0,
                        bond_to_counterparty: bond,
                        bond_refund_to: if raiser == counterparty {
                            Some(counterparty)
                        } else {
                            None
                        },
                    },
                )
            },
        },
        DisputeWinner::Split => {
            let refund_to = if raiser == e.creator {
                Some(e.creator)
            } else if raiser == counterparty {
                Some(counterparty)
            } else {
                None
            };
            Ok(
                Distribution {
                    creator_payout: e.amount / 2,
                    counterparty_payout: (e.amount - e.amount / 2) as u64,
                    treasury_fee: 0,
                    bond_to_creator: match refund_to {
                        Some(pk) => if pk == e.creator {
                            bond
                        } else {
                            0
                        },
                        None => 0,
                    },
                    bond_to_counterparty: match refund_to {
                        Some(pk) => if pk == e.creator {
                            0
                        } else {
                            bond
                        },
                        None => 0,
                    },
                    bond_refund_to: refund_to,
                },
            )
        },
    }
}

/// Computes the distribution of the vault for `winner`.
pub fn compute_distribution(
    escrow: &Escrow,
    platform: &PlatformState,
    winner: DisputeWinner,
    raiser: &Pubkey,
    counterparty: &Pubkey,
) -> (r: Result<Distribution, TendaError>)
    ensures
        r == spec_compute_distribution(*escrow, *platform, winner, *raiser, *counterparty),
{
    let fee_bps = platform.effective_fee_bps(escrow.is_seeker);
    let bond = escrow.dispute_bond;
    match winner {
        DisputeWinner::Creator => {
            let bond_refund_to = if key_eq(raiser, &escrow.creator) {
                Some(escrow.creator)
            } else {
                None
            };
            Ok(
                Distribution {
                    creator_payout: escrow.amount,
                    counterparty_payout: 0,
                    treasury_fee: 0,
                    bond_to_creator: bond,
                    bond_to_counterparty: 0,
                    bond_refund_to,
                },
            )
        },
        DisputeWinner::Counterparty => {
            let fee = match compute_fee(escrow.amount, fee_bps) {
                Ok(f) => f,
                Err(x) => {
                    return Err(x);
                },
            };
            let cp_payout = match escrow.amount.checked_sub(fee) {
                Some(v) => v,
                None => {
                    return Err(TendaError::ArithmeticUnderflow);
                },
            };
            let bond_refund_to = if key_eq(raiser, counterparty) {
                Some(*counterparty)
            } else {
                None
            };
            Ok(
                Distribution {
                    creator_payout: 0,
                    counterparty_payout: cp_payout,
                    treasury_fee: fee,
                    bond_to_creator: 0,
                    bond_to_counterparty: bond,
                    bond_refund_to,
                },
            )
        },
        DisputeWinner::Split => {
            let half = escrow.amount / 2;
            let other_half = match escrow.amount.checked_sub(half) {
                Some(v) => v,
                None => {
                    return Err(TendaError::ArithmeticUnderflow);
                },
            };
            let bond_refund_to = if key_eq(raiser, &escrow.creator) {
                Some(escrow.creator)
            } else if key_eq(raiser, counterparty) {
                Some(*counterparty)
            } else {
                None
            };
            let (bond_to_creator, bond_to_counterparty) = match bond_refund_to {
                Some(pk) => if key_eq(&pk, &escrow.creator) {
                    (bond, 0)
                } else {
                    (0, bond)
                },
                None => (0, 0),
            };
            Ok(
                Distribution {
                    creator_payout: half,
                    counterparty_payout: other_half,
                    treasury_fee: 0,
                    bond_to_creator,
                    bond_to_counterparty,
                    bond_refund_to,
                },
            )
        },
    }
}

/// Checks on the SOL resolution accounts, in account order: the creator
/// account is the escrow's creator, the signer is the platform's dispute
/// admin, the treasury account is the platform's treasury.
pub open spec fn spec_check_resolve_sol(e: Escrow, p: PlatformState, a: ResolveSol) -> Result<
    (),
    TendaError,
> {
    if a.creator != e.creator {
        Err(TendaError::NotCreator)
    } else if a.dispute_admin != p.dispute_admin {
        Err(TendaError::NotDisputeAdmin)
    } else {
        require(a.treasury == p.treasury, TendaError::TreasuryMismatch)
    }
}

/// Checks on the token resolution accounts, in account order: as for SOL,
/// then the mint of each token account and the owners of the creator's and
/// the treasury's token accounts.
pub open spec fn spec_check_resolve_spl(e: Escrow, p: PlatformState, a: ResolveSpl) -> Result<
    (),
    TendaError,
> {
    if a.creator != e.creator {
        Err(TendaError::NotCreator)
    } else if a.dispute_admin != p.dispute_admin {
        Err(TendaError::NotDisputeAdmin)
    } else if a.treasury != p.treasury {
        Err(TendaError::TreasuryMismatch)
    } else if a.vault_token_account.mint != e.asset {
        Err(TendaError::MintMismatch)
    } else if a.creator_token_account.mint != e.asset {
        Err(TendaError::MintMismatch)
    } else if a.creator_token_account.owner != a.creator {
        Err(TendaError::TokenAccountMismatch)
    } else if a.counterparty_token_account.mint != e.asset {
        Err(TendaError::MintMismatch)
    } else if a.treasury_token_account.mint != e.asset {
        Err(TendaError::MintMismatch)
    } else {
        require(a.treasury_token_account.owner == a.treasury, TendaError::TokenAccountMismatch)
    }
}

/// Runs the SOL resolution account checks.
pub fn check_resolve_sol(escrow: &Escrow, platform_state: &PlatformState, accounts: &ResolveSol) -> (r:
    Result<(), TendaError>)
    ensures
        r == spec_check_resolve_sol(*escrow, *platform_state, *accounts),
{
    if !key_eq(&accounts.creator, &escrow.creator) {
        return Err(TendaError::NotCreator);
    }
    if !key_eq(&accounts.dispute_admin, &platform_state.dispute_admin) {
        return Err(TendaError::NotDisputeAdmin);
    }
    if !key_eq(&accounts.treasury, &platform_state.treasury) {
        return Err(TendaError::TreasuryMismatch);
    }
    Ok(())
}

/// Runs the token resolution account checks.
pub fn check_resolve_spl(escrow: &Escrow, platform_state: &PlatformState, accounts: &ResolveSpl) -> (r:
    Result<(), TendaError>)
    ensures
        r == spec_check_resolve_spl(*escrow, *platform_state, *accounts),
{
    if !key_eq(&accounts.creator, &escrow.creator) {
        return Err(TendaError::NotCreator);
    }
    if !key_eq(&accounts.dispute_admin, &platform_state.dispute_admin) {
        return Err(TendaError::NotDisputeAdmin);
    }
    if !key_eq(&accounts.treasury, &platform_state.treasury) {
        return Err(TendaError::TreasuryMismatch);
    }
    if !key_eq(&accounts.vault_token_account.mint, &escrow.asset) {
        return Err(TendaError::MintMismatch);
    }
    if !key_eq(&accounts.creator_token_account.mint, &escrow.asset) {
        return Err(TendaError::MintMismatch);
    }
    if !key_eq(&accounts.creator_token_account.owner, &accounts.creator) {
        return Err(TendaError::TokenAccountMismatch);
    }
    if !key_eq(&accounts.counterparty_token_account.mint, &escrow.asset) {
        return Err(TendaError::MintMismatch);
    }
    if !key_eq(&accounts.treasury_token_account.mint, &escrow.asset) {
        return Err(TendaError::MintMismatch);
    }
    if !key_eq(&accounts.treasury_token_account.owner, &accounts.treasury) {
        return Err(TendaError::TokenAccountMismatch);
    }
    Ok(())
}

/// The resolution rules once the accounts are checked: the escrow is
/// `Disputed` with a counterparty, `counterparty_check` (the counterparty
/// account for SOL, the owner of the counterparty's token account for
/// tokens) is that counterparty, else `counterparty_error`; the raiser is a
/// party; the distribution computes; each recipient's total (payout plus
/// bond share) fits in `u64`. The escrow becomes `Resolved` and the vault
/// pays the creator's total, the counterparty's total and the fee.
pub open spec fn spec_resolve(
    e: Escrow,
    p: PlatformState,
    winner: DisputeWinner,
    raiser: Pubkey,
    counterparty_check: Pubkey,
    counterparty_error: TendaError,
) -> Result<(Escrow, (Distribution, Payout)), TendaError> {
    if e.status != EscrowStatus::Disputed {
        Err(TendaError::InvalidEscrowStatus)
    } else {
        match e.counterparty {
            None => Err(TendaError::NotCounterparty),
            Some(cp) => if counterparty_check != cp {
                Err(counterparty_error)
            } else if raiser != e.creator && raiser != cp {
                Err(TendaError::NotDisputeParty)
            } else {
                match spec_compute_distribution(e, p, winner, raiser, cp) {
                    Err(x) => Err(x),
                    Ok(d) => if d.creator_payout + d.bond_to_creator > u64::MAX
                        || d.counterparty_payout + d.bond_to_counterparty > u64::MAX {
                        Err(TendaError::ArithmeticOverflow)
                    } else {
                        Ok(
                            (
                                Escrow { status: EscrowStatus::Resolved, ..e },
                                (
                                    d,
                                    Payout {
                                        to_creator: (d.creator_payout + d.bond_to_creator) as u64,
                                        to_counterparty: (d.counterparty_payout
                                            + d.bond_to_counterparty) as u64,
                                        to_treasury: d.treasury_fee,
                                    },
                                ),
                            ),
                        )
                    },
                }
            },
        }
    }
}

/// Resolution of a SOL escrow.
pub open spec fn spec_resolve_sol(
    e: Escrow,
    p: PlatformState,
    a: ResolveSol,
    winner: DisputeWinner,
    raiser: Pubkey,
) -> Result<(Escrow, (Distribution, Payout)), TendaError> {
    match spec_check_resolve_sol(e, p, a) {
        Err(x) => Err(x),
        Ok(_) => spec_resolve(e, p, winner, raiser, a.counterparty, TendaError::NotCounterparty),
    }
}

/// Resolution of a token escrow.
pub open spec fn spec_resolve_spl(
    e: Escrow,
    p: PlatformState,
    a: ResolveSpl,
    winner: DisputeWinner,
    raiser: Pubkey,
) -> Result<(Escrow, (Distribution, Payout)), TendaError> {
    match spec_check_resolve_spl(e, p, a) {
        Err(x) => Err(x),
        Ok(_) => spec_resolve(
            e,
            p,
            winner,
            raiser,
            a.counterparty_token_account.owner,
            TendaError::TokenAccountMismatch,
        ),
    }
}

fn resolve(
    escrow: &mut Escrow,
    platform_state: &PlatformState,
    winner: DisputeWinner,
    raiser: &Pubkey,
    counterparty_check: &Pubkey,
    counterparty_error: TendaError,
) -> (r: Result<(Distribution, Payout), TendaError>)
    ensures
        transition_outcome(
            spec_resolve(*old(escrow), *platform_state, winner, *raiser, *counterparty_check, counterparty_error),
            r,
            *old(escrow),
            *final(escrow),
        ),
{
    if escrow.status != EscrowStatus::Disputed {
        return Err(TendaError::InvalidEscrowStatus);
    }
    let counterparty = match escrow.counterparty {
        Some(cp) => cp,
        None => {
            return Err(TendaError::NotCounterparty);
        },
    };
    if !key_eq(counterparty_check, &counterparty) {
        return Err(counterparty_error);
    }
    if !(key_eq(raiser, &escrow.creator) || key_eq(raiser, &counterparty)) {
        return Err(TendaError::NotDisputeParty);
    }
    let dist = match compute_distribution(escrow, platform_state, winner, raiser, &counterparty) {
        Ok(d) => d,
        Err(x) => {
            return Err(x);
        },
    };
    let creator_total = match dist.creator_payout.checked_add(dist.bond_to_creator) {
        Some(v) => v,
        None => {
            return Err(TendaError::ArithmeticOverflow);
        },
    };
    let counterparty_total = match dist.counterparty_payout.checked_add(dist.bond_to_counterparty) {
        Some(v) => v,
        None => {
            return Err(TendaError::ArithmeticOverflow);
        },
    };
    escrow.status = EscrowStatus::Resolved;
    Ok(
        (
            dist,
            Payout {
                to_creator: creator_total,
                to_counterparty: counterparty_total,
                to_treasury: dist.treasury_fee,
            },
        ),
    )
}

/// Resolve a disputed SOL escrow for `winner`, given the raiser: returns the
/// distribution and what leaves the vault.
pub fn handler_sol(
    escrow: &mut Escrow,
    platform_state: &PlatformState,
    accounts: &ResolveSol,
    winner: DisputeWinner,
    raiser: Pubkey,
) -> (r: Result<(Distribution, Payout), TendaError>)
    ensures
        transition_outcome(
            spec_resolve_sol(*old(escrow), *platform_state, *accounts, winner, raiser),
            r,
            *old(escrow),
            *final(escrow),
        ),
{
    match check_resolve_sol(escrow, platform_state, accounts) {
        Err(x) => Err(x),
        Ok(()) => resolve(
            escrow,
            platform_state,
            winner,
            &raiser,
            &accounts.counterparty,
            TendaError::NotCounterparty,
        ),
    }
}

/// Resolve a disputed token escrow for `winner`, given the raiser: returns the
/// distribution and what leaves the vault token account.
pub fn handler_spl(
    escrow: &mut Escrow,
    platform_state: &PlatformState,
    accounts: &ResolveSpl,
    winner: DisputeWinner,
    raiser: Pubkey,
) -> (r: Result<(Distribution, Payout), TendaError>)
    ensures
        transition_outcome(
            spec_resolve_spl(*old(escrow), *platform_state, *accounts, winner, raiser),
            r,
            *old(escrow),
            *final(escrow),
        ),
{
    match check_resolve_spl(escrow, platform_state, accounts) {
        Err(x) => Err(x),
        Ok(()) => resolve(
            escrow,
            platform_state,
            winner,
            &raiser,
            &accounts.counterparty_token_account.owner,
            TendaError::TokenAccountMismatch,
        ),
    }
}

} // verus!
