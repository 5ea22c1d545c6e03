use tenda_escrow::errors::TendaError;
use tenda_escrow::instructions::escrow_create::cancel::{self, CancelSol, CancelSpl};
use tenda_escrow::instructions::escrow_create::create_sol::{self, CreateEscrowSol};
use tenda_escrow::instructions::escrow_create::create_spl::{self, CreateEscrowSpl};
use tenda_escrow::instructions::escrow_create::refund_expired;
use tenda_escrow::instructions::escrow_create::shared::CreateEscrowArgs;
use tenda_escrow::instructions::escrow_state::settlement_accounts::{
    compute_fee, EscrowMutation, Payout, SettleSol, SettleSpl, TokenAccountKeys,
};
use tenda_escrow::instructions::escrow_state::{
    accept, approve, claim_stalled, decline, reclaim, submit,
};
use tenda_escrow::instructions::vault::check_vault_withdrawal;
use tenda_escrow::state::escrow::{Escrow, EscrowKind, EscrowStatus};
use tenda_escrow::state::platform::PlatformState;
use tenda_escrow::state::pubkey::Pubkey;

fn key(n: u8) -> Pubkey {
    Pubkey::new_from_array([n; 32])
}

const CREATOR: u8 = 1;
const WORKER: u8 = 2;
const TREASURY: u8 = 3;
const STRANGER: u8 = 4;
const SYSTEM: u8 = 0;
const MINT: u8 = 9;
const NOW: i64 = 1_700_000_000;

fn platform() -> PlatformState {
    PlatformState {
        protocol_admin: key(7),
        dispute_admin: key(8),
        treasury: key(TREASURY),
        fee_bps: 200,
        seeker_fee_bps: 100,
        approval_window_seconds: 3_600,
        grace_period_seconds: 86_400,
        total_volume: 0,
        bump: 255,
    }
}

fn args(amount: u64, assigned: Option<Pubkey>) -> CreateEscrowArgs {
    CreateEscrowArgs {
        escrow_id: [5; 16],
        kind: EscrowKind::Gig,
        amount,
        assigned_counterparty: assigned,
        accept_deadline: NOW + 1_000,
        completion_duration_seconds: 7_200,
        dispute_bond: 50_000,
        is_seeker: false,
    }
}

fn sol_accounts() -> CreateEscrowSol {
    CreateEscrowSol { creator: key(CREATOR), system_program: key(SYSTEM), escrow_bump: 254, vault_bump: 253 }
}

fn open_escrow(amount: u64) -> Escrow {
    create_sol::handler(&args(amount, None), &sol_accounts(), NOW, 0).unwrap()
}

fn signer(n: u8) -> EscrowMutation {
    EscrowMutation { signer: key(n) }
}

fn settle(signer: u8) -> SettleSol {
    SettleSol { creator: key(CREATOR), counterparty: key(WORKER), treasury: key(TREASURY), signer: key(signer) }
}

fn tok(mint: u8, owner: u8) -> TokenAccountKeys {
    TokenAccountKeys { mint: key(mint), owner: key(owner) }
}

fn settle_spl(signer: u8) -> SettleSpl {
    SettleSpl {
        creator: key(CREATOR),
        counterparty: key(WORKER),
        treasury: key(TREASURY),
        signer: key(signer),
        vault_token_account: tok(MINT, 99),
        creator_token_account: tok(MINT, CREATOR),
        counterparty_token_account: tok(MINT, WORKER),
        treasury_token_account: tok(MINT, TREASURY),
    }
}

fn submitted_escrow(amount: u64) -> Escrow {
    let mut e = open_escrow(amount);
    accept::handler(&mut e, &signer(WORKER), NOW + 10).unwrap();
    submit::handler(&mut e, &platform(), &signer(WORKER), NOW + 20).unwrap();
    e
}

#[test]
fn create_sol_writes_open_escrow() {
    let e = open_escrow(1_000_000_000);
    assert_eq!(e.status, EscrowStatus::Open);
    assert_eq!(e.asset, key(SYSTEM));
    assert_eq!(e.creator, key(CREATOR));
    assert_eq!(e.counterparty, None);
    assert_eq!(e.amount, 1_000_000_000);
    assert_eq!(e.completion_deadline, 0);
    assert_eq!(e.approval_deadline, 0);
    assert_eq!(e.created_at, NOW);
    assert_eq!(e.bump, 254);
    assert_eq!(e.vault_bump, 253);
    assert_eq!(e.dispute_bond, 50_000);
}

#[test]
fn create_validation_errors() {
    let a = sol_accounts();
    assert_eq!(create_sol::handler(&args(0, None), &a, NOW, 0), Err(TendaError::AmountTooLow));
    let mut late = args(10, None);
    late.accept_deadline = NOW;
    assert_eq!(create_sol::handler(&late, &a, NOW, 0), Err(TendaError::AcceptDeadlineInPast));
    let mut short = args(10, None);
    short.completion_duration_seconds = 3_599;
    assert_eq!(create_sol::handler(&short, &a, NOW, 0), Err(TendaError::CompletionDurationOutOfRange));
    let mut long = args(10, None);
    long.completion_duration_seconds = 180 * 24 * 3_600 + 1;
    assert_eq!(long.validate(NOW), Err(TendaError::CompletionDurationOutOfRange));
    long.completion_duration_seconds = 180 * 24 * 3_600;
    assert_eq!(long.validate(NOW), Ok(()));
    assert_eq!(
        create_sol::handler(&args(890_879, None), &a, NOW, 890_880),
        Err(TendaError::AmountBelowVaultRentMinimum)
    );
}

#[test]
fn create_spl_uses_mint_as_asset() {
    let a = CreateEscrowSpl { creator: key(CREATOR), mint: key(MINT), escrow_bump: 1, vault_bump: 2 };
    let e = create_spl::handler(&args(5, None), &a, NOW).unwrap();
    assert_eq!(e.asset, key(MINT));
    assert_eq!(e.status, EscrowStatus::Open);
    assert_eq!(create_spl::handler(&args(0, None), &a, NOW), Err(TendaError::AmountTooLow));
}

#[test]
fn happy_path_accept_submit_approve() {
    let p = platform();
    let mut e = open_escrow(1_000_000_000);
    assert_eq!(accept::handler(&mut e, &signer(WORKER), NOW + 10), Ok(()));
    assert_eq!(e.status, EscrowStatus::Accepted);
    assert_eq!(e.counterparty, Some(key(WORKER)));
    assert_eq!(e.completion_deadline, NOW + 10 + 7_200);
    assert_eq!(submit::handler(&mut e, &p, &signer(WORKER), NOW + 100), Ok(()));
    assert_eq!(e.status, EscrowStatus::Submitted);
    assert_eq!(e.approval_deadline, NOW + 100 + 3_600);
    let payout = approve::handler_sol(&mut e, &p, &settle(CREATOR)).unwrap();
    assert_eq!(payout, Payout { to_creator: 0, to_counterparty: 980_000_000, to_treasury: 20_000_000 });
    assert_eq!(e.status, EscrowStatus::Completed);
}

#[test]
fn seeker_escrow_uses_seeker_fee() {
    let p = platform();
    let mut a = args(1_000_000, None);
    a.is_seeker = true;
    let mut e = create_sol::handler(&a, &sol_accounts(), NOW, 0).unwrap();
    accept::handler(&mut e, &signer(WORKER), NOW).unwrap();
    submit::handler(&mut e, &p, &signer(WORKER), NOW).unwrap();
    let payout = approve::handler_sol(&mut e, &p, &settle(CREATOR)).unwrap();
    assert_eq!(payout.to_treasury, 10_000);
    assert_eq!(payout.to_counterparty, 990_000);
}

#[test]
fn accept_errors() {
    let mut e = open_escrow(10);
    let before = e;
    assert_eq!(accept::handler(&mut e, &signer(CREATOR), NOW), Err(TendaError::CreatorCannotAccept));
    assert_eq!(accept::handler(&mut e, &signer(WORKER), NOW + 1_000), Err(TendaError::AcceptDeadlinePassed));
    assert_eq!(e, before);
    let mut assigned = create_sol::handler(&args(10, Some(key(WORKER))), &sol_accounts(), NOW, 0).unwrap();
    assert_eq!(
        accept::handler(&mut assigned, &signer(STRANGER), NOW),
        Err(TendaError::NotAssignedCounterparty)
    );
    assert_eq!(accept::handler(&mut assigned, &signer(WORKER), NOW), Ok(()));
    assert_eq!(accept::handler(&mut assigned, &signer(STRANGER), NOW), Err(TendaError::InvalidEscrowStatus));
    let mut overflow = open_escrow(10);
    overflow.accept_deadline = i64::MAX;
    let before = overflow;
    assert_eq!(
        accept::handler(&mut overflow, &signer(WORKER), i64::MAX - 1),
        Err(TendaError::ArithmeticOverflow)
    );
    assert_eq!(overflow, before);
}

#[test]
fn decline_releases_assignment() {
    let mut e = create_sol::handler(&args(10, Some(key(WORKER))), &sol_accounts(), NOW, 0).unwrap();
    assert_eq!(decline::handler(&mut e, &signer(STRANGER)), Err(TendaError::NotAssignedCounterparty));
    assert_eq!(decline::handler(&mut e, &signer(WORKER)), Ok(()));
    assert_eq!(e.assigned_counterparty, None);
    assert_eq!(e.status, EscrowStatus::Open);
    assert_eq!(decline::handler(&mut e, &signer(WORKER)), Err(TendaError::NoAssignedCounterparty));
    // now public: anyone but the creator may accept
    assert_eq!(accept::handler(&mut e, &signer(STRANGER), NOW), Ok(()));
    assert_eq!(decline::handler(&mut e, &signer(WORKER)), Err(TendaError::InvalidEscrowStatus));
}

#[test]
fn submit_window_and_errors() {
    let p = platform();
    let mut e = open_escrow(10);
    assert_eq!(submit::handler(&mut e, &p, &signer(WORKER), NOW), Err(TendaError::InvalidEscrowStatus));
    accept::handler(&mut e, &signer(WORKER), NOW).unwrap();
    assert_eq!(submit::handler(&mut e, &p, &signer(STRANGER), NOW), Err(TendaError::NotCounterparty));
    let cutoff = NOW + 7_200 + 86_400;
    assert_eq!(
        submit::handler(&mut e, &p, &signer(WORKER), cutoff),
        Err(TendaError::SubmissionWindowClosed)
    );
    // late submission within grace is allowed
    assert_eq!(submit::handler(&mut e, &p, &signer(WORKER), cutoff - 1), Ok(()));
    assert_eq!(e.approval_deadline, cutoff - 1 + 3_600);
}

#[test]
fn approve_errors_leave_escrow_unchanged() {
    let p = platform();
    let mut e = submitted_escrow(10_000);
    let before = e;
    assert_eq!(approve::handler_sol(&mut e, &p, &settle(WORKER)), Err(TendaError::NotCreator));
    let mut wrong_creator = settle(CREATOR);
    wrong_creator.creator = key(STRANGER);
    assert_eq!(approve::handler_sol(&mut e, &p, &wrong_creator), Err(TendaError::NotCreator));
    let mut wrong_treasury = settle(CREATOR);
    wrong_treasury.treasury = key(STRANGER);
    assert_eq!(approve::handler_sol(&mut e, &p, &wrong_treasury), Err(TendaError::TreasuryMismatch));
    let mut wrong_cp = settle(CREATOR);
    wrong_cp.counterparty = key(STRANGER);
    assert_eq!(approve::handler_sol(&mut e, &p, &wrong_cp), Err(TendaError::NotCounterparty));
    assert_eq!(e, before);
    let mut open = open_escrow(10);
    assert_eq!(approve::handler_sol(&mut open, &p, &settle(CREATOR)), Err(TendaError::InvalidEscrowStatus));
}

#[test]
fn approve_fee_overflow_and_underflow() {
    let mut p = platform();
    let mut e = submitted_escrow(10);
    e.amount = u64::MAX;
    assert_eq!(approve::handler_sol(&mut e, &p, &settle(CREATOR)), Err(TendaError::ArithmeticOverflow));
    // a fee rate above 100% cannot be configured, but would underflow
    p.fee_bps = 20_000;
    let mut e = submitted_escrow(10);
    assert_eq!(approve::handler_sol(&mut e, &p, &settle(CREATOR)), Err(TendaError::ArithmeticUnderflow));
}

#[test]
fn approve_spl_checks_token_accounts() {
    let p = platform();
    let mut e = submitted_escrow(10_000);
    e.asset = key(MINT);
    let before = e;
    let mut a = settle_spl(CREATOR);
    a.vault_token_account.mint = key(STRANGER);
    assert_eq!(approve::handler_spl(&mut e, &p, &a), Err(TendaError::MintMismatch));
    let mut a = settle_spl(CREATOR);
    a.creator_token_account.owner = key(STRANGER);
    assert_eq!(approve::handler_spl(&mut e, &p, &a), Err(TendaError::TokenAccountMismatch));
    let mut a = settle_spl(CREATOR);
    a.treasury_token_account.owner = key(STRANGER);
    assert_eq!(approve::handler_spl(&mut e, &p, &a), Err(TendaError::TokenAccountMismatch));
    let mut a = settle_spl(CREATOR);
    a.counterparty_token_account.owner = key(STRANGER);
    assert_eq!(approve::handler_spl(&mut e, &p, &a), Err(TendaError::TokenAccountMismatch));
    assert_eq!(e, before);
    let payout = approve::handler_spl(&mut e, &p, &settle_spl(CREATOR)).unwrap();
    assert_eq!(payout, Payout { to_creator: 0, to_counterparty: 9_800, to_treasury: 200 });
    assert_eq!(e.status, EscrowStatus::Completed);
}

#[test]
fn claim_stalled_after_approval_deadline() {
    let p = platform();
    let mut e = submitted_escrow(10_000);
    let deadline = e.approval_deadline;
    assert_eq!(
        claim_stalled::handler_sol(&mut e, &p, &settle(WORKER), deadline - 1),
        Err(TendaError::ApprovalDeadlineNotPassed)
    );
    assert_eq!(
        claim_stalled::handler_sol(&mut e, &p, &settle(CREATOR), deadline),
        Err(TendaError::NotCounterparty)
    );
    let payout = claim_stalled::handler_sol(&mut e, &p, &settle(WORKER), deadline).unwrap();
    assert_eq!(payout, Payout { to_creator: 0, to_counterparty: 9_800, to_treasury: 200 });
    assert_eq!(e.status, EscrowStatus::Completed);
    assert_eq!(
        claim_stalled::handler_sol(&mut e, &p, &settle(WORKER), deadline),
        Err(TendaError::InvalidEscrowStatus)
    );
}

#[test]
fn claim_stalled_spl() {
    let p = platform();
    let mut e = submitted_escrow(10_000);
    e.asset = key(MINT);
    let deadline = e.approval_deadline;
    let payout = claim_stalled::handler_spl(&mut e, &p, &settle_spl(WORKER), deadline).unwrap();
    assert_eq!(payout.to_counterparty, 9_800);
}

#[test]
fn cancel_refunds_creator() {
    let mut e = open_escrow(1_000);
    assert_eq!(cancel::handler_sol(&mut e, &CancelSol { creator: key(STRANGER) }), Err(TendaError::NotCreator));
    let payout = cancel::handler_sol(&mut e, &CancelSol { creator: key(CREATOR) }).unwrap();
    assert_eq!(payout, Payout { to_creator: 1_000, to_counterparty: 0, to_treasury: 0 });
    assert_eq!(e.status, EscrowStatus::Cancelled);
    assert_eq!(
        cancel::handler_sol(&mut e, &CancelSol { creator: key(CREATOR) }),
        Err(TendaError::InvalidEscrowStatus)
    );
}

#[test]
fn cancel_after_accept_fails() {
    let mut e = open_escrow(1_000);
    accept::handler(&mut e, &signer(WORKER), NOW).unwrap();
    assert_eq!(
        cancel::handler_sol(&mut e, &CancelSol { creator: key(CREATOR) }),
        Err(TendaError::InvalidEscrowStatus)
    );
}

#[test]
fn cancel_spl_checks() {
    let mut e = open_escrow(1_000);
    e.asset = key(MINT);
    let good = CancelSpl { creator: key(CREATOR), vault_token_account: tok(MINT, 99), creator_token_account: tok(MINT, CREATOR) };
    let mut bad = good;
    bad.creator_token_account.mint = key(STRANGER);
    assert_eq!(cancel::handler_spl(&mut e, &bad), Err(TendaError::MintMismatch));
    let mut bad = good;
    bad.creator_token_account.owner = key(STRANGER);
    assert_eq!(cancel::handler_spl(&mut e, &bad), Err(TendaError::TokenAccountMismatch));
    assert_eq!(cancel::handler_spl(&mut e, &good).unwrap().to_creator, 1_000);
}

#[test]
fn refund_expired_after_accept_deadline() {
    let mut e = open_escrow(1_000);
    let c = CancelSol { creator: key(CREATOR) };
    assert_eq!(refund_expired::handler_sol(&mut e, &c, NOW + 999), Err(TendaError::AcceptDeadlineNotPassed));
    let payout = refund_expired::handler_sol(&mut e, &c, NOW + 1_000).unwrap();
    assert_eq!(payout.to_creator, 1_000);
    assert_eq!(e.status, EscrowStatus::Refunded);
    let mut e2 = open_escrow(1_000);
    e2.asset = key(MINT);
    let s = CancelSpl { creator: key(CREATOR), vault_token_account: tok(MINT, 99), creator_token_account: tok(MINT, CREATOR) };
    assert_eq!(refund_expired::handler_spl(&mut e2, &s, NOW + 1_000).unwrap().to_creator, 1_000);
}

#[test]
fn reclaim_after_grace() {
    let p = platform();
    let mut e = open_escrow(1_000);
    accept::handler(&mut e, &signer(WORKER), NOW).unwrap();
    let reclaim_at = e.completion_deadline + 86_400;
    assert_eq!(reclaim::handler_sol(&mut e, &p, &settle(CREATOR), reclaim_at - 1), Err(TendaError::ReclaimWindowNotOpen));
    assert_eq!(reclaim::handler_sol(&mut e, &p, &settle(WORKER), reclaim_at), Err(TendaError::NotCreator));
    let payout = reclaim::handler_sol(&mut e, &p, &settle(CREATOR), reclaim_at).unwrap();
    assert_eq!(payout, Payout { to_creator: 1_000, to_counterparty: 0, to_treasury: 0 });
    assert_eq!(e.status, EscrowStatus::Refunded);
}

#[test]
fn reclaim_after_submission_fails() {
    let p = platform();
    let mut e = submitted_escrow(1_000);
    assert_eq!(
        reclaim::handler_spl(&mut e, &p, &settle_spl(CREATOR), i64::MAX),
        Err(TendaError::MintMismatch)
    );
    e.asset = key(MINT);
    assert_eq!(
        reclaim::handler_spl(&mut e, &p, &settle_spl(CREATOR), i64::MAX),
        Err(TendaError::InvalidEscrowStatus)
    );
}

#[test]
fn fee_math() {
    assert_eq!(compute_fee(1_000_000_000, 200), Ok(20_000_000));
    assert_eq!(compute_fee(9_999, 1), Ok(0));
    assert_eq!(compute_fee(u64::MAX, 2), Err(TendaError::ArithmeticOverflow));
}

#[test]
fn vault_withdrawal_checks() {
    assert_eq!(check_vault_withdrawal(0, 0), Ok(false));
    assert_eq!(check_vault_withdrawal(100, 100), Ok(true));
    assert_eq!(check_vault_withdrawal(99, 100), Err(TendaError::VaultUnderfunded));
}

#[test]
fn settled_escrow_is_final() {
    let p = platform();
    let mut e = submitted_escrow(1_000);
    approve::handler_sol(&mut e, &p, &settle(CREATOR)).unwrap();
    assert!(approve::handler_sol(&mut e, &p, &settle(CREATOR)).is_err());
    assert!(claim_stalled::handler_sol(&mut e, &p, &settle(WORKER), i64::MAX).is_err());
    assert!(reclaim::handler_sol(&mut e, &p, &settle(CREATOR), i64::MAX).is_err());
    assert!(cancel::handler_sol(&mut e, &CancelSol { creator: key(CREATOR) }).is_err());
    assert!(accept::handler(&mut e, &signer(STRANGER), NOW).is_err());
}
