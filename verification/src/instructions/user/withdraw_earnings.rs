//! Withdrawing from a user ledger: earnings first, then the airdrop once a
//! gig is completed.

use vstd::prelude::*;

use crate::errors::TendaError;
use crate::state::user::UserAccount;

verus! {

/// A withdrawal of `amount`: it must not exceed the withdrawable balance
/// (`InsufficientBalance`), and beyond the earnings it needs a completed gig
/// (`AirdropStillLocked`). The ledger is then charged, and the result is the
/// withdrawable balance that remains.
pub open spec fn spec_withdraw_earnings(u: UserAccount, amount: u64) -> Result<
    (UserAccount, u64),
    TendaError,
> {
    if amount > u.spec_withdrawable_balance() {
        Err(TendaError::InsufficientBalance)
    } else if amount > u.earned_sol && u.completed_gigs < 1 {
        Err(TendaError::AirdropStillLocked)
    } else {
        match u.spec_deduct_withdrawal(amount) {
            (_, Err(x)) => Err(x),
            (v, Ok(_)) => Ok((v, v.spec_withdrawable_balance())),
        }
    }
}

/// Withdraw `amount`; returns the withdrawable balance that remains. On
/// failure the ledger is unchanged.
pub fn handler(user_account: &mut UserAccount, amount: u64) -> (r: Result<u64, TendaError>)
    ensures
        match spec_withdraw_earnings(*old(user_account), amount) {
            Ok((v, remaining)) => r == Ok::<u64, TendaError>(remaining) && *final(user_account) == v,
            Err(x) => r == Err::<u64, TendaError>(x) && *final(user_account) == *old(user_account),
        },
{
    let withdrawable = user_account.withdrawable_balance();
    if amount > withdrawable {
        return Err(TendaError::InsufficientBalance);
    }
    if amount > user_account.earned_sol {
        if !user_account.has_completed_gig() {
            return Err(TendaError::AirdropStillLocked);
        }
    }
    let mut charged = *user_account;
    match charged.deduct_withdrawal(amount) {
        Err(x) => {
            return Err(x);
        },
        Ok(()) => {},
    }
    *user_account = charged;
    Ok(user_account.withdrawable_balance())
}

/// Withdrawals behave as the ledger promises: with no completed gig, exactly
/// the amounts up to the earnings can be withdrawn and the airdrop stays put;
/// after a gig, every amount up to the withdrawable balance can be
/// withdrawn. A successful withdrawal takes exactly `amount` from the ledger.
pub proof fn lemma_withdrawal_rules(u: UserAccount, amount: u64)
    ensures
        u.completed_gigs == 0 ==> ((spec_withdraw_earnings(u, amount) is Ok) <==> amount
            <= u.earned_sol),
        u.completed_gigs == 0 && amount > u.earned_sol ==> spec_withdraw_earnings(u, amount)
            == Err::<(UserAccount, u64), TendaError>(TendaError::InsufficientBalance),
        u.completed_gigs >= 1 ==> ((spec_withdraw_earnings(u, amount) is Ok) <==> amount
            <= u.spec_withdrawable_balance()),
        spec_withdraw_earnings(u, amount) matches Ok((v, _)) ==> {
            &&& v.earned_sol + v.airdrop_sol == u.earned_sol + u.airdrop_sol - amount
            &&& (u.completed_gigs == 0 ==> v.airdrop_sol == u.airdrop_sol)
            &&& v.wallet == u.wallet && v.completed_gigs == u.completed_gigs
        },
{
}

} // verus!
