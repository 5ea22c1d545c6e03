use vstd::prelude::*;

use crate::state::pubkey::Pubkey;
use crate::state::user::UserAccount;

verus! {

/// A new ledger for `wallet`, created at `now`: no balances, no completed
/// gigs, phone not verified.
pub open spec fn spec_new_user_account(wallet: Pubkey, now: i64) -> UserAccount {
    UserAccount {
        wallet,
        airdrop_sol: 0,
        earned_sol: 0,
        completed_gigs: 0,
        phone_verified: false,
        created_at: now,
    }
}

/// Open a user ledger for `wallet` at time `now`.
pub fn handler(wallet: Pubkey, now: i64) -> (u: UserAccount)
    ensures
        u == spec_new_user_account(wallet, now),
{
    UserAccount {
        wallet,
        airdrop_sol: 0,
        earned_sol: 0,
        completed_gigs: 0,
        phone_verified: false,
        created_at: now,
    }
}

} // verus!
