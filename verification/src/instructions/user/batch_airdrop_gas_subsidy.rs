//! Batched gas-subsidy airdrops, atomic as a whole.
//!
//! The batch's accounts are laid out as `[treasury, system_program]` followed
//! by one `(user ledger, user wallet)` pair per amount. The treasury must
//! sign and be writable and must cover the whole batch up front; every pair
//! must name a writable ledger of this program that is the wallet's ledger
//! address, and a writable plain wallet. Each ledger receives at most one
//! airdrop: a ledger that appears twice is refused at its second occurrence,
//! having already been credited by the first.

use vstd::prelude::*;

use crate::errors::TendaError;
use crate::state::pubkey::{key_eq, Pubkey};
use crate::state::user::UserAccount;

use super::airdrop_gas_subsidy::{credit_airdrop, spec_airdrop};

verus! {

/// What the rules read of one `(ledger, wallet)` pair of the batch.
#[derive(Clone, Copy, Debug, PartialEq, Eq)]
pub struct AirdropSlot {
    /// Address of the ledger account.
    pub user_account: Pubkey,
    /// Whether the ledger account is writable.
    pub user_account_writable: bool,
    /// Whether the wallet account is writable.
    pub wallet_writable: bool,
    /// Whether this program owns the ledger account.
    pub user_account_owned_by_program: bool,
    /// Whether the system program owns the wallet (a plain wallet).
    pub wallet_owned_by_system: bool,
    /// Whether the ledger account's address is the wallet's ledger address.
    pub user_account_is_wallet_ledger: bool,
}

/// The sum of the amounts.
pub open spec fn spec_total(s: Seq<u64>) -> int
    decreases s.len(),
{
    if s.len() == 0 {
        0
    } else {
        spec_total(s.drop_last()) + s.last()
    }
}

/// The checks on the batch as a whole, in order: at least one amount; the
/// accounts are exactly treasury, system program and one pair per amount;
/// the treasury signs and is writable; the system program is genuine; the
/// total fits in `u64` and the treasury holds it.
pub open spec fn spec_check_batch(
    amounts: Seq<u64>,
    remaining_len: usize,
    treasury_is_signer: bool,
    treasury_is_writable: bool,
    system_program_ok: bool,
    treasury_lamports: u64,
) -> Result<(), TendaError> {
    if amounts.len() == 0 {
        Err(TendaError::EmptyBatch)
    } else if remaining_len != 2 + 2 * amounts.len() {
        Err(TendaError::InvalidBatchLength)
    } else if !treasury_is_signer {
        Err(TendaError::TreasuryMustSign)
    } else if !treasury_is_writable {
        Err(TendaError::AccountNotWritable)
    } else if !system_program_ok {
        Err(TendaError::InvalidSystemProgram)
    } else if spec_total(amounts) > u64::MAX {
        Err(TendaError::ArithmeticOverflow)
    } else if treasury_lamports < spec_total(amounts) {
        Err(TendaError::InsufficientTreasuryBalance)
    } else {
        Ok(())
    }
}

/// The checks on one pair, in order: the amount is positive and at most the
/// maximum; both accounts are writable; this program owns the ledger; the
/// wallet is a plain wallet; the ledger is the wallet's.
pub open spec fn spec_check_slot(slot: AirdropSlot, amount: u64, max_airdrop: u64) -> Result<
    (),
    TendaError,
> {
    if !(amount > 0 && amount <= max_airdrop) {
        Err(TendaError::AirdropAmountTooHigh)
    } else if !slot.user_account_writable {
        Err(TendaError::AccountNotWritable)
    } else if !slot.wallet_writable {
        Err(TendaError::AccountNotWritable)
    } else if !slot.user_account_owned_by_program {
        Err(TendaError::InvalidUserAccount)
    } else if !slot.wallet_owned_by_system {
        Err(TendaError::InvalidRecipient)
    } else if !slot.user_account_is_wallet_ledger {
        Err(TendaError::InvalidUserAccount)
    } else {
        Ok(())
    }
}

/// Whether pair `i`'s ledger already appeared earlier in the batch.
pub open spec fn spec_seen_before(slots: Seq<AirdropSlot>, i: int) -> bool {
    exists|k: int| 0 <= k < i && slots[k].user_account == slots[i].user_account
}

/// The outcome of pair `i` once the pairs before it succeeded: its checks,
/// then (a ledger seen before already holds an airdrop) the credit.
pub open spec fn spec_slot_outcome(
    amounts: Seq<u64>,
    slots: Seq<AirdropSlot>,
    users: Seq<UserAccount>,
    max_airdrop: u64,
    i: int,
) -> Result<UserAccount, TendaError> {
    match spec_check_slot(slots[i], amounts[i], max_airdrop) {
        Err(x) => Err(x),
        Ok(_) => if spec_seen_before(slots, i) {
            Err(TendaError::AlreadyReceivedAirdrop)
        } else {
            spec_airdrop(users[i], amounts[i], max_airdrop)
        },
    }
}

/// The pairs from `i` on, in order: the first failing pair's error, or `Ok`.
pub open spec fn spec_slots_from(
    amounts: Seq<u64>,
    slots: Seq<AirdropSlot>,
    users: Seq<UserAccount>,
    max_airdrop: u64,
    i: int,
) -> Result<(), TendaError>
    decreases amounts.len() - i,
{
    if i < 0 || i >= amounts.len() {
        Ok(())
    } else {
        match spec_slot_outcome(amounts, slots, users, max_airdrop, i) {
            Err(x) => Err(x),
            Ok(_) => spec_slots_from(amounts, slots, users, max_airdrop, i + 1),
        }
    }
}

/// The outcome of a batch: the batch checks, then every pair in order.
pub open spec fn spec_batch_airdrop(
    amounts: Seq<u64>,
    remaining_len: usize,
    treasury_is_signer: bool,
    treasury_is_writable: bool,
    system_program_ok: bool,
    treasury_lamports: u64,
    slots: Seq<AirdropSlot>,
    users: Seq<UserAccount>,
    max_airdrop: u64,
) -> Result<(), TendaError> {
    match spec_check_batch(
        amounts,
        remaining_len,
        treasury_is_signer,
        treasury_is_writable,
        system_program_ok,
        treasury_lamports,
    ) {
        Err(x) => Err(x),
        Ok(_) => spec_slots_from(amounts, slots, users, max_airdrop, 0),
    }
}

proof fn lemma_total_prefix_le(s: Seq<u64>, i: int)
    requires
        0 <= i <= s.len(),
    ensures
        spec_total(s.take(i)) <= spec_total(s),
    decreases s.len(),
{
    if i == s.len() {
        assert(s.take(i) =~= s);
    } else {
        assert(s.drop_last().take(i) =~= s.take(i));
        lemma_total_prefix_le(s.drop_last(), i);
    }
}

proof fn lemma_slots_prefix_ok(
    amounts: Seq<u64>,
    slots: Seq<AirdropSlot>,
    users: Seq<UserAccount>,
    max_airdrop: u64,
    j: int,
    i: int,
)
    requires
        0 <= j <= i <= amounts.len(),
        forall|k: int| j <= k < i ==> spec_slot_outcome(amounts, slots, users, max_airdrop, k) is Ok,
    ensures
        spec_slots_from(amounts, slots, users, max_airdrop, j) == spec_slots_from(
            amounts,
            slots,
            users,
            max_airdrop,
            i,
        ),
    decreases i - j,
{
    if j < i {
        lemma_slots_prefix_ok(amounts, slots, users, max_airdrop, j + 1, i);
    }
}

proof fn lemma_slots_ok_all(
    amounts: Seq<u64>,
    slots: Seq<AirdropSlot>,
    users: Seq<UserAccount>,
    max_airdrop: u64,
    j: int,
)
    requires
        0 <= j <= amounts.len(),
        spec_slots_from(amounts, slots, users, max_airdrop, j) is Ok,
    ensures
        forall|k: int|
            j <= k < amounts.len() ==> spec_slot_outcome(amounts, slots, users, max_airdrop, k) is Ok,
    decreases amounts.len() - j,
{
    if j < amounts.len() {
        lemma_slots_ok_all(amounts, slots, users, max_airdrop, j + 1);
    }
}

/// Checks the batch as a whole.
pub fn check_batch(
    amounts: &Vec<u64>,
    remaining_len: usize,
    treasury_is_signer: bool,
    treasury_is_writable: bool,
    system_program_ok: bool,
    treasury_lamports: u64,
) -> (r: Result<(), TendaError>)
    ensures
        r == spec_check_batch(
            amounts@,
            remaining_len,
            treasury_is_signer,
            treasury_is_writable,
            system_program_ok,
            treasury_lamports,
        ),
{
    let n = amounts.len();
    if n == 0 {
        return Err(TendaError::EmptyBatch);
    }
    if n > (usize::MAX - 2) / 2 || remaining_len != 2 + 2 * n {
        return Err(TendaError::InvalidBatchLength);
    }
    if !treasury_is_signer {
        return Err(TendaError::TreasuryMustSign);
    }
    if !treasury_is_writable {
        return Err(TendaError::AccountNotWritable);
    }
    if !system_program_ok {
        return Err(TendaError::InvalidSystemProgram);
    }
    let mut total: u64 = 0;
    let mut i: usize = 0;
    while i < n
        invariant
            n == amounts.len(),
            n > 0,
            remaining_len == 2 + 2 * n,
            treasury_is_signer,
            treasury_is_writable,
            system_program_ok,
            i <= n,
            total == spec_total(amounts@.take(i as int)),
        decreases n - i,
    {
        proof {
            assert(amounts@.take(i + 1).drop_last() =~= amounts@.take(i as int));
            assert(spec_total(amounts@.take(i + 1)) == total + amounts@[i as int]);
        }
        match total.checked_add(amounts[i]) {
            Some(t) => {
                total = t;
            },
            None => {
                proof {
                    lemma_total_prefix_le(amounts@, i + 1);
                }
                return Err(TendaError::ArithmeticOverflow);
            },
        }
        i = i + 1;
    }
    proof {
        assert(amounts@.take(n as int) =~= amounts@);
    }
    if treasury_lamports < total {
        return Err(TendaError::InsufficientTreasuryBalance);
    }
    Ok(())
}

/// Checks one pair.
pub fn check_slot(slot: &AirdropSlot, amount: u64, max_airdrop: u64) -> (r: Result<(), TendaError>)
    ensures
        r == spec_check_slot(*slot, amount, max_airdrop),
{
    if !(amount > 0 && amount <= max_airdrop) {
        return Err(TendaError::AirdropAmountTooHigh);
    }
    if !slot.user_account_writable {
        return Err(TendaError::AccountNotWritable);
    }
    if !slot.wallet_writable {
        return Err(TendaError::AccountNotWritable);
    }
    if !slot.user_account_owned_by_program {
        return Err(TendaError::InvalidUserAccount);
    }
    if !slot.wallet_owned_by_system {
        return Err(TendaError::InvalidRecipient);
    }
    if !slot.user_account_is_wallet_ledger {
        return Err(TendaError::InvalidUserAccount);
    }
    Ok(())
}

fn seen_before(slots: &Vec<AirdropSlot>, i: usize) -> (r: bool)
    requires
        i < slots.len(),
    ensures
        r == spec_seen_before(slots@, i as int),
{
    let mut k: usize = 0;
    while k < i
        invariant
            i < slots.len(),
            k <= i,
            forall|kk: int| 0 <= kk < k ==> slots@[kk].user_account != slots@[i as int].user_account,
        decreases i - k,
    {
        if key_eq(&slots[k].user_account, &slots[i].user_account) {
            return true;
        }
        k = k + 1;
    }
    false
}

/// Airdrop `amounts[i]` to the ledger `users[i]` of pair `slots[i]`, for
/// every pair, atomically: either every ledger is credited (and the treasury
/// then pays each wallet its amount) or the first failing check's error is
/// returned and no ledger changes.
pub fn handler(
    amounts: &Vec<u64>,
    remaining_len: usize,
    treasury_is_signer: bool,
    treasury_is_writable: bool,
    system_program_ok: bool,
    treasury_lamports: u64,
    slots: &Vec<AirdropSlot>,
    users: &mut Vec<UserAccount>,
    max_airdrop: u64,
) -> (r: Result<(), TendaError>)
    requires
        slots.len() == old(users).len(),
        remaining_len == 2 + 2 * amounts.len() ==> slots.len() == amounts.len(),
    ensures
        match spec_batch_airdrop(
            amounts@,
            remaining_len,
            treasury_is_signer,
            treasury_is_writable,
            system_program_ok,
            treasury_lamports,
            slots@,
            old(users)@,
            max_airdrop,
        ) {
            Ok(_) => {
                &&& r is Ok
                &&& final(users).len() == old(users).len()
                &&& forall|i: int|
                    0 <= i < old(users).len() ==> final(users)@[i] == spec_airdrop(
                        old(users)@[i],
                        amounts@[i],
                        max_airdrop,
                    )->Ok_0
            },
            Err(x) => r == Err::<(), TendaError>(x) && final(users)@ == old(users)@,
        },
{
    match check_batch(
        amounts,
        remaining_len,
        treasury_is_signer,
        treasury_is_writable,
        system_program_ok,
        treasury_lamports,
    ) {
        Err(x) => {
            return Err(x);
        },
        Ok(()) => {},
    }
    let n = amounts.len();
    let ghost old_users = users@;
    let mut credited: Vec<UserAccount> = Vec::new();
    let mut i: usize = 0;
    while i < n
        invariant
            n == amounts.len(),
            n == slots.len(),
            n == users.len(),
            users@ == old_users,
            old_users == old(users)@,
            spec_check_batch(
                amounts@,
                remaining_len,
                treasury_is_signer,
                treasury_is_writable,
                system_program_ok,
                treasury_lamports,
            ) is Ok,
            i <= n,
            credited.len() == i,
            forall|k: int|
                0 <= k < i ==> spec_slot_outcome(amounts@, slots@, old_users, max_airdrop, k) is Ok,
            forall|k: int|
                0 <= k < i ==> credited@[k] == spec_slot_outcome(
                    amounts@,
                    slots@,
                    old_users,
                    max_airdrop,
                    k,
                )->Ok_0,
        decreases n - i,
    {
        match check_slot(&slots[i], amounts[i], max_airdrop) {
            Err(x) => {
                proof {
                    lemma_slots_prefix_ok(amounts@, slots@, old_users, max_airdrop, 0, i as int);
                }
                return Err(x);
            },
            Ok(()) => {},
        }
        if seen_before(slots, i) {
            proof {
                lemma_slots_prefix_ok(amounts@, slots@, old_users, max_airdrop, 0, i as int);
            }
            return Err(TendaError::AlreadyReceivedAirdrop);
        }
        match credit_airdrop(&users[i], amounts[i], max_airdrop) {
            Err(x) => {
                proof {
                    lemma_slots_prefix_ok(amounts@, slots@, old_users, max_airdrop, 0, i as int);
                }
                return Err(x);
            },
            Ok(v) => {
                credited.push(v);
            },
        }
        i = i + 1;
    }
    proof {
        lemma_slots_prefix_ok(amounts@, slots@, old_users, max_airdrop, 0, n as int);
        assert forall|k: int| 0 <= k < n implies credited@[k] == spec_airdrop(
            old_users[k],
            amounts@[k],
            max_airdrop,
        )->Ok_0 by {}
    }
    *users = credited;
    Ok(())
}

/// A successful batch credits each ledger exactly once: its ledgers are
/// pairwise distinct, none had received an airdrop before and each now has,
/// every amount is positive and within the maximum, and the treasury held
/// the whole total.
pub proof fn lemma_batch_credits_each_ledger_once(
    amounts: Seq<u64>,
    remaining_len: usize,
    treasury_is_signer: bool,
    treasury_is_writable: bool,
    system_program_ok: bool,
    treasury_lamports: u64,
    slots: Seq<AirdropSlot>,
    users: Seq<UserAccount>,
    max_airdrop: u64,
)
    requires
        spec_batch_airdrop(
            amounts,
            remaining_len,
            treasury_is_signer,
            treasury_is_writable,
            system_program_ok,
            treasury_lamports,
            slots,
            users,
            max_airdrop,
        ) is Ok,
    ensures
        amounts.len() > 0,
        spec_total(amounts) <= treasury_lamports,
        forall|i: int, j: int|
            0 <= i < j < amounts.len() ==> slots[i].user_account != slots[j].user_account,
        forall|i: int|
            0 <= i < amounts.len() ==> {
                &&& 0 < amounts[i] <= max_airdrop
                &&& !users[i].phone_verified
                &&& spec_airdrop(users[i], amounts[i], max_airdrop) is Ok
                &&& spec_airdrop(users[i], amounts[i], max_airdrop)->Ok_0.phone_verified
            },
{
    lemma_slots_ok_all(amounts, slots, users, max_airdrop, 0);
    assert forall|i: int, j: int|
        0 <= i < j < amounts.len() implies slots[i].user_account != slots[j].user_account by {
        assert(spec_slot_outcome(amounts, slots, users, max_airdrop, j) is Ok);
        assert(!spec_seen_before(slots, j));
    }
    assert forall|i: int| 0 <= i < amounts.len() implies {
        &&& 0 < amounts[i] <= max_airdrop
        &&& !users[i].phone_verified
        &&& spec_airdrop(users[i], amounts[i], max_airdrop) is Ok
        &&& spec_airdrop(users[i], amounts[i], max_airdrop)->Ok_0.phone_verified
    } by {
        assert(spec_slot_outcome(amounts, slots, users, max_airdrop, i) is Ok);
    }
}

} // verus!
