use tenda_escrow::errors::TendaError;
use tenda_escrow::instructions::dispute::raise::{self, DisputeSol};
use tenda_escrow::instructions::dispute::resolve::{self, ResolveSol};
use tenda_escrow::instructions::escrow_create::cancel::CancelSol;
use tenda_escrow::instructions::escrow_create::create_sol::{self, CreateEscrowSol};
use tenda_escrow::instructions::escrow_create::refund_expired;
use tenda_escrow::instructions::escrow_create::shared::CreateEscrowArgs;
use tenda_escrow::instructions::escrow_state::settlement_accounts::{EscrowMutation, SettleSol};
use tenda_escrow::instructions::escrow_state::{accept, approve, reclaim, submit};
use tenda_escrow::state::escrow::{DisputeWinner, Escrow, EscrowKind, EscrowStatus};
use tenda_escrow::state::platform::PlatformState;
use tenda_escrow::state::pubkey::Pubkey;

fn key(n: u8) -> Pubkey {
    Pubkey::new_from_array([n; 32])
}

const NOW: i64 = 1_000_000;

fn platform(fee_bps: u16) -> PlatformState {
    PlatformState {
        protocol_admin: key(7),
        dispute_admin: key(8),
        treasury: key(3),
        fee_bps,
        seeker_fee_bps: 0,
        approval_window_seconds: 3_600,
        grace_period_seconds: 600,
        total_volume: 0,
        bump: 0,
    }
}

fn created(amount: u64, bond: u64) -> Escrow {
    let args = CreateEscrowArgs {
        escrow_id: [0; 16],
        kind: EscrowKind::Gig,
        amount,
        assigned_counterparty: None,
        accept_deadline: NOW + 100,
        completion_duration_seconds: 3_600,
        dispute_bond: bond,
        is_seeker: false,
    };
    let accounts = CreateEscrowSol { creator: key(1), system_program: key(0), escrow_bump: 0, vault_bump: 0 };
    create_sol::handler(&args, &accounts, NOW, 0).unwrap()
}

fn settle(signer: u8) -> SettleSol {
    SettleSol { creator: key(1), counterparty: key(2), treasury: key(3), signer: key(signer) }
}

fn worker() -> EscrowMutation {
    EscrowMutation { signer: key(2) }
}

#[test]
fn settlement_pays_out_exactly_the_vault() {
    // approval: payout + fee == amount, at the 10% cap
    let p = platform(1_000);
    let mut e = created(123_457, 0);
    accept::handler(&mut e, &worker(), NOW).unwrap();
    submit::handler(&mut e, &p, &worker(), NOW).unwrap();
    let pay = approve::handler_sol(&mut e, &p, &settle(1)).unwrap();
    assert_eq!(pay.to_counterparty + pay.to_treasury, 123_457);
    assert_eq!(pay.to_treasury, 12_345);
    assert!(pay.to_treasury * 10 <= 123_457);

    // dispute: principal plus bond leaves the vault, whatever the winner
    for winner in [DisputeWinner::Creator, DisputeWinner::Counterparty, DisputeWinner::Split] {
        for raiser in [1u8, 2u8] {
            let mut e = created(10_001, 777);
            accept::handler(&mut e, &worker(), NOW).unwrap();
            raise::handler_sol(&mut e, &DisputeSol { raiser: key(raiser) }, 777).unwrap();
            assert_eq!(e.status, EscrowStatus::Disputed);
            let accounts = ResolveSol { creator: key(1), counterparty: key(2), treasury: key(3), dispute_admin: key(8) };
            let (d, pay) = resolve::handler_sol(&mut e, &p, &accounts, winner, key(raiser)).unwrap();
            assert_eq!(pay.to_creator + pay.to_counterparty + pay.to_treasury, 10_001 + 777);
            assert!(d.bond_to_creator == 0 || d.bond_to_counterparty == 0);
            assert_eq!(e.status, EscrowStatus::Resolved);
        }
    }
}

#[test]
fn accept_deadline_partitions_time() {
    let deadline = NOW + 100;
    let refund = CancelSol { creator: key(1) };
    let mut e = created(10, 0);
    assert!(refund_expired::handler_sol(&mut e.clone(), &refund, deadline - 1).is_err());
    assert!(accept::handler(&mut e.clone(), &worker(), deadline - 1).is_ok());
    assert!(accept::handler(&mut e.clone(), &worker(), deadline).is_err());
    assert!(refund_expired::handler_sol(&mut e, &refund, deadline).is_ok());
}

#[test]
fn grace_period_partitions_time() {
    let p = platform(0);
    let mut e = created(10, 0);
    accept::handler(&mut e, &worker(), NOW).unwrap();
    let cutoff = NOW + 3_600 + 600;
    assert!(submit::handler(&mut e.clone(), &p, &worker(), cutoff - 1).is_ok());
    assert!(reclaim::handler_sol(&mut e.clone(), &p, &settle(1), cutoff - 1).is_err());
    assert!(submit::handler(&mut e.clone(), &p, &worker(), cutoff).is_err());
    let pay = reclaim::handler_sol(&mut e, &p, &settle(1), cutoff).unwrap();
    assert_eq!(pay.to_creator, 10);
}

#[test]
fn invariant_holds_along_the_lifecycle() {
    let p = platform(200);
    let mut e = created(5_000, 0);
    assert_eq!(e.counterparty, None);
    accept::handler(&mut e, &worker(), NOW).unwrap();
    assert!(e.counterparty.is_some() && e.counterparty != Some(e.creator));
    submit::handler(&mut e, &p, &worker(), NOW + 1).unwrap();
    assert_eq!(e.counterparty, Some(key(2)));
    approve::handler_sol(&mut e, &p, &settle(1)).unwrap();
    assert_eq!(e.status, EscrowStatus::Completed);
    assert_eq!(e.counterparty, Some(key(2)));
}

#[test]
fn volume_counter_does_not_change_outcomes() {
    let quiet = platform(250);
    let mut busy = platform(250);
    busy.total_volume = u64::MAX;
    let mut a = created(40_000, 0);
    accept::handler(&mut a, &worker(), NOW).unwrap();
    submit::handler(&mut a, &quiet, &worker(), NOW).unwrap();
    let mut b = a;
    let pa = approve::handler_sol(&mut a, &quiet, &settle(1));
    let pb = approve::handler_sol(&mut b, &busy, &settle(1));
    assert_eq!(pa, pb);
    assert_eq!(a, b);
}

#[test]
fn seeker_rate_is_never_higher() {
    let p = PlatformState { seeker_fee_bps: 50, ..platform(100) };
    assert!(p.effective_fee_bps(true) <= p.effective_fee_bps(false));
    assert!(p.effective_fee_bps(false) <= 1_000);
}

#[test]
fn exactly_one_of_submit_and_reclaim_is_open() {
    let p = platform(0);
    let mut e = created(10, 0);
    accept::handler(&mut e, &worker(), NOW).unwrap();
    let cutoff = NOW + 3_600 + 600;
    for now in [NOW, cutoff - 1, cutoff, cutoff + 1_000] {
        let submitted = submit::handler(&mut e.clone(), &p, &worker(), now);
        let reclaimed = reclaim::handler_sol(&mut e.clone(), &p, &settle(1), now);
        assert_eq!(submitted == Err(TendaError::SubmissionWindowClosed), now >= cutoff);
        assert_eq!(reclaimed == Err(TendaError::ReclaimWindowNotOpen), now < cutoff);
        assert_eq!(submitted.is_ok(), reclaimed.is_err());
    }
    // a wrong treasury account is refused before the window is looked at
    let wrong = SettleSol { treasury: key(9), ..settle(1) };
    assert_eq!(
        reclaim::handler_sol(&mut e.clone(), &p, &wrong, NOW),
        Err(TendaError::TreasuryMismatch)
    );
}
