use vstd::prelude::*;

use crate::errors::TendaError;
use crate::state::pubkey::Pubkey;

verus! {

/// A user's ledger: earned funds, and a gas-subsidy airdrop that stays locked
/// until the user has completed a gig.
#[derive(Clone, Copy, Debug, PartialEq, Eq)]
pub struct UserAccount {
    /// User wallet address.
    pub wallet: Pubkey,
    /// Locked airdrop (unlocks after one completed gig).
    pub airdrop_sol: u64,
    /// Withdrawable earnings.
    pub earned_sol: u64,
    /// Completed gigs.
    pub completed_gigs: u32,
    /// Phone verification status.
    pub phone_verified: bool,
    /// Account creation timestamp.
    pub created_at: i64,
}

/// Size in bytes of a user account (discriminator, wallet, two balances,
/// gig counter, flag, timestamp).
pub const USER_ACCOUNT_LEN: usize = 8 + 32 + 8 + 8 + 4 + 1 + 8;

impl UserAccount {
    /// The balance a user may withdraw: earnings, plus the airdrop once a gig
    /// is completed (the sum saturating at `u64::MAX`).
    pub open spec fn spec_withdrawable_balance(&self) -> u64 {
        if self.completed_gigs >= 1 {
            if self.earned_sol + self.airdrop_sol > u64::MAX {
                u64::MAX
            } else {
                (self.earned_sol + self.airdrop_sol) as u64
            }
        } else {
            self.earned_sol
        }
    }

    /// Total withdrawable balance.
    pub fn withdrawable_balance(&self) -> (r: u64)
        ensures
            r == self.spec_withdrawable_balance(),
    {
        if self.completed_gigs >= 1 {
            self.earned_sol.saturating_add(self.airdrop_sol)
        } else {
            self.earned_sol
        }
    }

    /// Whether the user has completed at least one gig.
    pub fn has_completed_gig(&self) -> (r: bool)
        ensures
            r == (self.completed_gigs >= 1),
    {
        self.completed_gigs >= 1
    }

    /// Count one more completed gig (saturating at `u32::MAX`).
    pub fn increment_completed_gigs(&mut self)
        ensures
            final(self).completed_gigs == (if old(self).completed_gigs == u32::MAX {
                u32::MAX
            } else {
                (old(self).completed_gigs + 1) as u32
            }),
            *final(self) == (UserAccount { completed_gigs: final(self).completed_gigs, ..*old(self) }),
    {
        self.completed_gigs = self.completed_gigs.saturating_add(1);
    }

    /// Credit earnings; fails with `ArithmeticOverflow`, leaving the account
    /// unchanged, when the new balance would not fit in a `u64`.
    pub fn add_earnings(&mut self, amount: u64) -> (r: Result<(), TendaError>)
        ensures
            old(self).earned_sol + amount <= u64::MAX ==> r is Ok && *final(self) == (UserAccount {
                earned_sol: (old(self).earned_sol + amount) as u64,
                ..*old(self)
            }),
            old(self).earned_sol + amount > u64::MAX ==> r == Err::<(), TendaError>(
                TendaError::ArithmeticOverflow,
            ) && *final(self) == *old(self),
    {
        match self.earned_sol.checked_add(amount) {
            Some(v) => {
                self.earned_sol = v;
                Ok(())
            },
            None => Err(TendaError::ArithmeticOverflow),
        }
    }

    /// The account and result after deducting a withdrawal of `amount`:
    /// from earnings when they cover it; otherwise earnings go to zero and the
    /// rest comes from the airdrop, failing with `ArithmeticUnderflow` (the
    /// earnings already zeroed, the airdrop untouched) when the airdrop cannot
    /// cover it.
    pub open spec fn spec_deduct_withdrawal(self, amount: u64) -> (UserAccount, Result<(), TendaError>) {
        if amount <= self.earned_sol {
            (UserAccount { earned_sol: (self.earned_sol - amount) as u64, ..self }, Ok(()))
        } else if amount - self.earned_sol <= self.airdrop_sol {
            (
                UserAccount {
                    earned_sol: 0,
                    airdrop_sol: (self.airdrop_sol - (amount - self.earned_sol)) as u64,
                    ..self
                },
                Ok(()),
            )
        } else {
            (UserAccount { earned_sol: 0, ..self }, Err(TendaError::ArithmeticUnderflow))
        }
    }

    /// Deduct a withdrawal, from earnings first and then from the airdrop.
    pub fn deduct_withdrawal(&mut self, amount: u64) -> (r: Result<(), TendaError>)
        ensures
            (*final(self), r) == old(self).spec_deduct_withdrawal(amount),
    {
        if amount <= self.earned_sol {
            match self.earned_sol.checked_sub(amount) {
                Some(v) => {
                    self.earned_sol = v;
                },
                None => {
                    return Err(TendaError::ArithmeticUnderflow);
                },
            }
        } else {
            let from_airdrop = amount - self.earned_sol;
            self.earned_sol = 0;
            match self.airdrop_sol.checked_sub(from_airdrop) {
                Some(v) => {
                    self.airdrop_sol = v;
                },
                None => {
                    return Err(TendaError::ArithmeticUnderflow);
                },
            }
        }
        Ok(())
    }
}

/// A successful withdrawal takes exactly `amount` out of the account's
/// total (earnings plus airdrop).
pub proof fn lemma_withdrawal_conserves_total(u: UserAccount, amount: u64)
    requires
        u.spec_deduct_withdrawal(amount).1 is Ok,
    ensures
        ({
            let v = u.spec_deduct_withdrawal(amount).0;
            v.earned_sol + v.airdrop_sol == u.earned_sol + u.airdrop_sol - amount
        }),
{
}

/// The airdrop stays locked until a gig is completed: before that, the
/// withdrawable balance is the earnings alone, and withdrawing up to it
/// succeeds without touching the airdrop.
pub proof fn lemma_airdrop_locked_until_gig(u: UserAccount, amount: u64)
    requires
        u.completed_gigs == 0,
    ensures
        u.spec_withdrawable_balance() == u.earned_sol,
        amount <= u.spec_withdrawable_balance() ==> {
            let (v, r) = u.spec_deduct_withdrawal(amount);
            &&& r is Ok
            &&& v.airdrop_sol == u.airdrop_sol
            &&& v.earned_sol == u.earned_sol - amount
        },
{
}

/// Once a gig is completed, anything up to the withdrawable balance can be
/// withdrawn, and (while the total fits in `u64`) the withdrawable balance
/// drops by exactly the amount.
pub proof fn lemma_unlocked_withdrawal(u: UserAccount, amount: u64)
    requires
        u.completed_gigs >= 1,
        u.earned_sol + u.airdrop_sol <= u64::MAX,
        amount <= u.spec_withdrawable_balance(),
    ensures
        ({
            let (v, r) = u.spec_deduct_withdrawal(amount);
            &&& r is Ok
            &&& v.spec_withdrawable_balance() == u.spec_withdrawable_balance() - amount
        }),
{
}

} // verus!
