use tenda_escrow::errors::TendaError;
use tenda_escrow::instructions::dispute::raise::{
    self, assert_disputable_status, assert_dispute_party, DisputeSol, DisputeSpl,
};
use tenda_escrow::instructions::dispute::resolve::{
    self, compute_distribution, Distribution, ResolveSol, ResolveSpl,
};
use tenda_escrow::instructions::escrow_state::settlement_accounts::{Payout, TokenAccountKeys};
use tenda_escrow::state::escrow::{DisputeWinner, Escrow, EscrowKind, EscrowStatus};
use tenda_escrow::state::platform::PlatformState;
use tenda_escrow::state::pubkey::Pubkey;

fn key(n: u8) -> Pubkey {
    Pubkey::new_from_array([n; 32])
}

const CREATOR: u8 = 1;
const WORKER: u8 = 2;
const TREASURY: u8 = 3;
const STRANGER: u8 = 4;
const ADMIN: u8 = 8;
const MINT: u8 = 9;

fn platform() -> PlatformState {
    PlatformState {
        protocol_admin: key(7),
        dispute_admin: key(ADMIN),
        treasury: key(TREASURY),
        fee_bps: 500,
        seeker_fee_bps: 0,
        approval_window_seconds: 3_600,
        grace_period_seconds: 0,
        total_volume: 0,
        bump: 1,
    }
}

fn escrow(status: EscrowStatus, amount: u64) -> Escrow {
    Escrow {
        escrow_id: [3; 16],
        kind: EscrowKind::Exchange,
        asset: key(MINT),
        amount,
        creator: key(CREATOR),
        counterparty: Some(key(WORKER)),
        assigned_counterparty: None,
        status,
        accept_deadline: 10,
        completion_duration_seconds: 3_600,
        completion_deadline: 3_610,
        approval_deadline: 0,
        dispute_bond: 300,
        is_seeker: false,
        created_at: 0,
        bump: 1,
        vault_bump: 2,
    }
}

fn resolve_accounts() -> ResolveSol {
    ResolveSol { creator: key(CREATOR), counterparty: key(WORKER), treasury: key(TREASURY), dispute_admin: key(ADMIN) }
}

fn tok(mint: u8, owner: u8) -> TokenAccountKeys {
    TokenAccountKeys { mint: key(mint), owner: key(owner) }
}

fn resolve_spl_accounts() -> ResolveSpl {
    ResolveSpl {
        creator: key(CREATOR),
        counterparty: key(WORKER),
        treasury: key(TREASURY),
        dispute_admin: key(ADMIN),
        vault_token_account: tok(MINT, 99),
        creator_token_account: tok(MINT, CREATOR),
        counterparty_token_account: tok(MINT, WORKER),
        treasury_token_account: tok(MINT, TREASURY),
    }
}

#[test]
fn raise_dispute_from_accepted_and_submitted() {
    for from in [EscrowStatus::Accepted, EscrowStatus::Submitted] {
        let mut e = escrow(from, 1_000);
        assert_eq!(raise::handler_sol(&mut e, &DisputeSol { raiser: key(WORKER) }, 300), Ok(from));
        assert_eq!(e.status, EscrowStatus::Disputed);
    }
}

#[test]
fn raise_dispute_errors() {
    let mut e = escrow(EscrowStatus::Accepted, 1_000);
    let before = e;
    assert_eq!(
        raise::handler_sol(&mut e, &DisputeSol { raiser: key(STRANGER) }, 300),
        Err(TendaError::NotDisputeParty)
    );
    assert_eq!(
        raise::handler_sol(&mut e, &DisputeSol { raiser: key(CREATOR) }, 299),
        Err(TendaError::DisputeBondMismatch)
    );
    assert_eq!(e, before);
    let mut open = escrow(EscrowStatus::Open, 1_000);
    open.counterparty = None;
    assert_eq!(
        raise::handler_sol(&mut open, &DisputeSol { raiser: key(CREATOR) }, 300),
        Err(TendaError::NoCounterpartyForDispute)
    );
    let mut done = escrow(EscrowStatus::Completed, 1_000);
    assert_eq!(
        raise::handler_sol(&mut done, &DisputeSol { raiser: key(CREATOR) }, 300),
        Err(TendaError::InvalidEscrowStatus)
    );
    assert_eq!(assert_dispute_party(&escrow(EscrowStatus::Accepted, 1), &key(WORKER)), Ok(()));
    assert_eq!(assert_disputable_status(&escrow(EscrowStatus::Disputed, 1)), Err(TendaError::InvalidEscrowStatus));
}

#[test]
fn raise_dispute_spl_checks_token_accounts() {
    let mut e = escrow(EscrowStatus::Submitted, 1_000);
    let good = DisputeSpl { raiser: key(CREATOR), vault_token_account: tok(MINT, 99), raiser_token_account: tok(MINT, CREATOR) };
    let mut bad = good;
    bad.raiser_token_account.owner = key(WORKER);
    assert_eq!(raise::handler_spl(&mut e, &bad, 300), Err(TendaError::TokenAccountMismatch));
    let mut bad = good;
    bad.vault_token_account.mint = key(STRANGER);
    assert_eq!(raise::handler_spl(&mut e, &bad, 300), Err(TendaError::MintMismatch));
    assert_eq!(raise::handler_spl(&mut e, &good, 300), Ok(EscrowStatus::Submitted));
}

#[test]
fn resolve_creator_wins() {
    let p = platform();
    // creator raised and won: bond refunded to creator
    let mut e = escrow(EscrowStatus::Disputed, 1_000);
    let (d, pay) = resolve::handler_sol(&mut e, &p, &resolve_accounts(), DisputeWinner::Creator, key(CREATOR)).unwrap();
    assert_eq!(pay, Payout { to_creator: 1_300, to_counterparty: 0, to_treasury: 0 });
    assert_eq!(d.bond_refund_to, Some(key(CREATOR)));
    assert_eq!(e.status, EscrowStatus::Resolved);
    // counterparty raised and lost: bond forfeited to creator
    let mut e = escrow(EscrowStatus::Disputed, 1_000);
    let (d, pay) = resolve::handler_sol(&mut e, &p, &resolve_accounts(), DisputeWinner::Creator, key(WORKER)).unwrap();
    assert_eq!(pay, Payout { to_creator: 1_300, to_counterparty: 0, to_treasury: 0 });
    assert_eq!(d.bond_refund_to, None);
}

#[test]
fn resolve_counterparty_wins() {
    let p = platform();
    let mut e = escrow(EscrowStatus::Disputed, 1_000);
    let (d, pay) = resolve::handler_sol(&mut e, &p, &resolve_accounts(), DisputeWinner::Counterparty, key(WORKER)).unwrap();
    assert_eq!(pay, Payout { to_creator: 0, to_counterparty: 950 + 300, to_treasury: 50 });
    assert_eq!(
        d,
        Distribution {
            creator_payout: 0,
            counterparty_payout: 950,
            treasury_fee: 50,
            bond_to_creator: 0,
            bond_to_counterparty: 300,
            bond_refund_to: Some(key(WORKER)),
        }
    );
    let mut e = escrow(EscrowStatus::Disputed, 1_000);
    let (d, _) = resolve::handler_sol(&mut e, &p, &resolve_accounts(), DisputeWinner::Counterparty, key(CREATOR)).unwrap();
    assert_eq!(d.bond_refund_to, None);
    assert_eq!(d.bond_to_counterparty, 300);
}

#[test]
fn resolve_split() {
    let p = platform();
    let mut e = escrow(EscrowStatus::Disputed, 1_001);
    let (d, pay) = resolve::handler_sol(&mut e, &p, &resolve_accounts(), DisputeWinner::Split, key(CREATOR)).unwrap();
    assert_eq!(d.creator_payout, 500);
    assert_eq!(d.counterparty_payout, 501);
    assert_eq!(pay, Payout { to_creator: 800, to_counterparty: 501, to_treasury: 0 });
    assert_eq!(d.bond_refund_to, Some(key(CREATOR)));
    let mut e = escrow(EscrowStatus::Disputed, 1_001);
    let (_, pay) = resolve::handler_sol(&mut e, &p, &resolve_accounts(), DisputeWinner::Split, key(WORKER)).unwrap();
    assert_eq!(pay, Payout { to_creator: 500, to_counterparty: 801, to_treasury: 0 });
}

#[test]
fn split_distribution_with_outside_raiser_keeps_bond() {
    let e = escrow(EscrowStatus::Disputed, 10);
    let d = compute_distribution(&e, &platform(), DisputeWinner::Split, &key(STRANGER), &key(WORKER)).unwrap();
    assert_eq!(d.bond_to_creator, 0);
    assert_eq!(d.bond_to_counterparty, 0);
    assert_eq!(d.bond_refund_to, None);
}

#[test]
fn resolve_errors() {
    let p = platform();
    let mut e = escrow(EscrowStatus::Disputed, 1_000);
    let before = e;
    let mut a = resolve_accounts();
    a.dispute_admin = key(7);
    assert_eq!(resolve::handler_sol(&mut e, &p, &a, DisputeWinner::Creator, key(CREATOR)), Err(TendaError::NotDisputeAdmin));
    let mut a = resolve_accounts();
    a.counterparty = key(STRANGER);
    assert_eq!(resolve::handler_sol(&mut e, &p, &a, DisputeWinner::Creator, key(CREATOR)), Err(TendaError::NotCounterparty));
    assert_eq!(
        resolve::handler_sol(&mut e, &p, &resolve_accounts(), DisputeWinner::Creator, key(STRANGER)),
        Err(TendaError::NotDisputeParty)
    );
    let mut big = escrow(EscrowStatus::Disputed, u64::MAX);
    assert_eq!(
        resolve::handler_sol(&mut big, &p, &resolve_accounts(), DisputeWinner::Creator, key(CREATOR)),
        Err(TendaError::ArithmeticOverflow)
    );
    assert_eq!(e, before);
    let mut accepted = escrow(EscrowStatus::Accepted, 1_000);
    assert_eq!(
        resolve::handler_sol(&mut accepted, &p, &resolve_accounts(), DisputeWinner::Creator, key(CREATOR)),
        Err(TendaError::InvalidEscrowStatus)
    );
}

#[test]
fn resolve_spl_uses_token_owner() {
    let p = platform();
    let mut e = escrow(EscrowStatus::Disputed, 1_000);
    let mut a = resolve_spl_accounts();
    a.counterparty_token_account.owner = key(STRANGER);
    assert_eq!(
        resolve::handler_spl(&mut e, &p, &a, DisputeWinner::Split, key(WORKER)),
        Err(TendaError::TokenAccountMismatch)
    );
    let (_, pay) = resolve::handler_spl(&mut e, &p, &resolve_spl_accounts(), DisputeWinner::Counterparty, key(WORKER)).unwrap();
    assert_eq!(pay, Payout { to_creator: 0, to_counterparty: 1_250, to_treasury: 50 });
}
