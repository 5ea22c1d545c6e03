use tenda_escrow::errors::TendaError;
use tenda_escrow::instructions::user::airdrop_gas_subsidy;
use tenda_escrow::instructions::user::batch_airdrop_gas_subsidy::{self, AirdropSlot};
use tenda_escrow::instructions::user::withdraw_earnings;
use tenda_escrow::state::pubkey::Pubkey;
use tenda_escrow::state::user::UserAccount;

const MAX: u64 = 10_000_000;

fn key(n: u8) -> Pubkey {
    Pubkey::new_from_array([n; 32])
}

fn fresh(n: u8) -> UserAccount {
    UserAccount {
        wallet: key(n),
        airdrop_sol: 0,
        earned_sol: 0,
        completed_gigs: 0,
        phone_verified: false,
        created_at: 5,
    }
}

fn slot(n: u8) -> AirdropSlot {
    AirdropSlot {
        user_account: key(100 + n),
        user_account_writable: true,
        wallet_writable: true,
        user_account_owned_by_program: true,
        wallet_owned_by_system: true,
        user_account_is_wallet_ledger: true,
    }
}

#[test]
fn airdrop_credits_locked_balance_once() {
    let mut u = fresh(1);
    assert_eq!(airdrop_gas_subsidy::handler(&mut u, 5_000_000, MAX), Ok(()));
    assert_eq!(u.airdrop_sol, 5_000_000);
    assert!(u.phone_verified);
    assert_eq!((u.earned_sol, u.completed_gigs, u.wallet), (0, 0, key(1)));
    let before = u;
    assert_eq!(airdrop_gas_subsidy::handler(&mut u, 1, MAX), Err(TendaError::AlreadyReceivedAirdrop));
    assert_eq!(u, before);
}

#[test]
fn airdrop_stays_locked_until_a_gig() {
    let mut u = fresh(1);
    airdrop_gas_subsidy::handler(&mut u, 5_000_000, MAX).unwrap();
    assert_eq!(withdraw_earnings::handler(&mut u.clone(), 1), Err(TendaError::InsufficientBalance));
    u.completed_gigs = 1;
    assert_eq!(withdraw_earnings::handler(&mut u, 5_000_000), Ok(0));
    assert_eq!(u.airdrop_sol, 0);
}

#[test]
fn airdrop_amount_limits() {
    let mut u = fresh(1);
    assert_eq!(airdrop_gas_subsidy::handler(&mut u, MAX + 1, MAX), Err(TendaError::AirdropAmountTooHigh));
    assert_eq!(u, fresh(1));
    // the single airdrop accepts a zero amount and exactly the maximum
    assert_eq!(airdrop_gas_subsidy::handler(&mut u.clone(), 0, MAX), Ok(()));
    assert_eq!(airdrop_gas_subsidy::handler(&mut u, MAX, MAX), Ok(()));
    assert_eq!(u.airdrop_sol, MAX);
}

#[test]
fn airdrop_overflow_leaves_ledger_alone() {
    let mut u = UserAccount { airdrop_sol: u64::MAX, ..fresh(1) };
    let before = u;
    assert_eq!(airdrop_gas_subsidy::handler(&mut u, 1, MAX), Err(TendaError::ArithmeticOverflow));
    assert_eq!(u, before);
    // the verification check comes first
    let mut v = UserAccount { phone_verified: true, ..fresh(1) };
    assert_eq!(airdrop_gas_subsidy::handler(&mut v, MAX + 1, MAX), Err(TendaError::AlreadyReceivedAirdrop));
}

fn run(
    amounts: &Vec<u64>,
    remaining_len: usize,
    flags: (bool, bool, bool),
    lamports: u64,
    slots: &Vec<AirdropSlot>,
    users: &mut Vec<UserAccount>,
) -> Result<(), TendaError> {
    batch_airdrop_gas_subsidy::handler(amounts, remaining_len, flags.0, flags.1, flags.2, lamports, slots, users, MAX)
}

const OK: (bool, bool, bool) = (true, true, true);

#[test]
fn batch_credits_every_ledger() {
    let amounts = vec![1_000, 2_000, 3_000];
    let slots = vec![slot(1), slot(2), slot(3)];
    let mut users = vec![fresh(1), fresh(2), fresh(3)];
    assert_eq!(run(&amounts, 8, OK, 6_000, &slots, &mut users), Ok(()));
    for (u, a) in users.iter().zip(amounts.iter()) {
        assert_eq!(u.airdrop_sol, *a);
        assert!(u.phone_verified);
    }
}

#[test]
fn batch_shape_and_treasury_errors() {
    let slots = vec![slot(1)];
    let users = vec![fresh(1)];
    let one = vec![1_000];
    let cases: Vec<(Vec<u64>, usize, (bool, bool, bool), u64, Vec<AirdropSlot>, Vec<UserAccount>, TendaError)> = vec![
        (vec![], 2, OK, 10, vec![], vec![], TendaError::EmptyBatch),
        (one.clone(), 3, OK, 10_000, slots.clone(), users.clone(), TendaError::InvalidBatchLength),
        (one.clone(), 4, (false, true, true), 10_000, slots.clone(), users.clone(), TendaError::TreasuryMustSign),
        (one.clone(), 4, (true, false, true), 10_000, slots.clone(), users.clone(), TendaError::AccountNotWritable),
        (one.clone(), 4, (true, true, false), 10_000, slots.clone(), users.clone(), TendaError::InvalidSystemProgram),
        (one.clone(), 4, OK, 999, slots.clone(), users.clone(), TendaError::InsufficientTreasuryBalance),
        (
            vec![u64::MAX, 1],
            6,
            OK,
            u64::MAX,
            vec![slot(1), slot(2)],
            vec![fresh(1), fresh(2)],
            TendaError::ArithmeticOverflow,
        ),
    ];
    for (amounts, len, flags, lamports, slots, users, err) in cases {
        let mut after = users.clone();
        assert_eq!(run(&amounts, len, flags, lamports, &slots, &mut after), Err(err));
        assert_eq!(after, users);
    }
}

#[test]
fn batch_pair_errors_revert_everything() {
    let amounts = vec![1_000, 2_000];
    let users = vec![fresh(1), fresh(2)];
    let bad: Vec<(AirdropSlot, u64, TendaError)> = vec![
        (AirdropSlot { user_account_writable: false, ..slot(2) }, 2_000, TendaError::AccountNotWritable),
        (AirdropSlot { wallet_writable: false, ..slot(2) }, 2_000, TendaError::AccountNotWritable),
        (AirdropSlot { user_account_owned_by_program: false, ..slot(2) }, 2_000, TendaError::InvalidUserAccount),
        (AirdropSlot { wallet_owned_by_system: false, ..slot(2) }, 2_000, TendaError::InvalidRecipient),
        (AirdropSlot { user_account_is_wallet_ledger: false, ..slot(2) }, 2_000, TendaError::InvalidUserAccount),
        (slot(2), 0, TendaError::AirdropAmountTooHigh),
        (slot(2), MAX + 1, TendaError::AirdropAmountTooHigh),
    ];
    for (second, amount, err) in bad {
        let amounts = vec![amounts[0], amount];
        let mut after = users.clone();
        assert_eq!(run(&amounts, 6, OK, u64::MAX, &vec![slot(1), second], &mut after), Err(err));
        assert_eq!(after, users);
    }
    // a ledger that already holds its airdrop refuses the whole batch
    let mut after = vec![fresh(1), UserAccount { phone_verified: true, ..fresh(2) }];
    let before = after.clone();
    assert_eq!(
        run(&amounts, 6, OK, 3_000, &vec![slot(1), slot(2)], &mut after),
        Err(TendaError::AlreadyReceivedAirdrop)
    );
    assert_eq!(after, before);
}

#[test]
fn batch_credits_a_ledger_at_most_once() {
    let amounts = vec![1_000, 2_000];
    let mut users = vec![fresh(1), fresh(1)];
    assert_eq!(
        run(&amounts, 6, OK, 3_000, &vec![slot(1), slot(1)], &mut users),
        Err(TendaError::AlreadyReceivedAirdrop)
    );
    assert_eq!(users, vec![fresh(1), fresh(1)]);
}
