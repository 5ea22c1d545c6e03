//! The gas-subsidy airdrop: a one-time credit to a user's ledger, locked
//! until the user completes a gig (see `withdraw_earnings`).

use vstd::prelude::*;

use crate::errors::TendaError;
use crate::state::user::UserAccount;

verus! {

/// Crediting an airdrop of `amount` to a ledger: refused if the user already
/// received one (`AlreadyReceivedAirdrop`), if `amount` exceeds
/// `max_airdrop` (`AirdropAmountTooHigh`), or if the locked balance would
/// overflow (`ArithmeticOverflow`). The amount joins the locked airdrop and
/// the ledger is marked as having received it.
pub open spec fn spec_airdrop(u: UserAccount, amount: u64, max_airdrop: u64) -> Result<
    UserAccount,
    TendaError,
> {
    if u.phone_verified {
        Err(TendaError::AlreadyReceivedAirdrop)
    } else if amount > max_airdrop {
        Err(TendaError::AirdropAmountTooHigh)
    } else if u.airdrop_sol + amount > u64::MAX {
        Err(TendaError::ArithmeticOverflow)
    } else {
        Ok(UserAccount { airdrop_sol: (u.airdrop_sol + amount) as u64, phone_verified: true, ..u })
    }
}

/// The ledger after crediting an airdrop, or the error.
pub fn credit_airdrop(user_account: &UserAccount, amount: u64, max_airdrop: u64) -> (r: Result<
    UserAccount,
    TendaError,
>)
    ensures
        r == spec_airdrop(*user_account, amount, max_airdrop),
{
    if user_account.phone_verified {
        return Err(TendaError::AlreadyReceivedAirdrop);
    }
    if amount > max_airdrop {
        return Err(TendaError::AirdropAmountTooHigh);
    }
    match user_account.airdrop_sol.checked_add(amount) {
        Some(total) => Ok(UserAccount { airdrop_sol: total, phone_verified: true, ..*user_account }),
        None => Err(TendaError::ArithmeticOverflow),
    }
}

/// Airdrop `amount` (at most `max_airdrop`) to a user's ledger; the treasury
/// then pays the amount to the user's wallet. On failure the ledger is
/// unchanged.
pub fn handler(user_account: &mut UserAccount, amount: u64, max_airdrop: u64) -> (r: Result<
    (),
    TendaError,
>)
    ensures
        match spec_airdrop(*old(user_account), amount, max_airdrop) {
            Ok(v) => r is Ok && *final(user_account) == v,
            Err(x) => r == Err::<(), TendaError>(x) && *final(user_account) == *old(user_account),
        },
{
    match credit_airdrop(user_account, amount, max_airdrop) {
        Ok(v) => {
            *user_account = v;
            Ok(())
        },
        Err(x) => Err(x),
    }
}

/// One airdrop per user: once a ledger has been credited, every further
/// airdrop to it is refused with `AlreadyReceivedAirdrop`; a credit adds
/// exactly the amount to the locked airdrop and leaves earnings, gigs and
/// wallet alone, so the airdrop stays locked until a gig is completed.
pub proof fn lemma_one_airdrop_per_user(u: UserAccount, amount: u64, again: u64, max_airdrop: u64)
    requires
        spec_airdrop(u, amount, max_airdrop) is Ok,
    ensures
        ({
            let v = spec_airdrop(u, amount, max_airdrop)->Ok_0;
            &&& !u.phone_verified && v.phone_verified
            &&& v.airdrop_sol == u.airdrop_sol + amount
            &&& v.earned_sol == u.earned_sol && v.completed_gigs == u.completed_gigs
            &&& v.wallet == u.wallet
            &&& spec_airdrop(v, again, max_airdrop) == Err::<UserAccount, TendaError>(
                TendaError::AlreadyReceivedAirdrop,
            )
        }),
{
}

} // verus!
