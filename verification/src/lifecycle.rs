//! Laws of the escrow lifecycle, stated over the instruction specifications.
//!
//! [`EscrowInstruction`] names every instruction that acts on an existing
//! escrow, with its inputs, and [`spec_step`] is its specified outcome: the
//! new escrow, what was paid into the vault, and what left it.

use vstd::prelude::*;

use crate::errors::TendaError;
use crate::instructions::dispute::raise::{spec_raise, spec_raise_spl, DisputeSol, DisputeSpl};
use crate::instructions::dispute::resolve::{
    spec_resolve, spec_resolve_sol, spec_resolve_spl, ResolveSol, ResolveSpl,
};
use crate::instructions::escrow_create::create_sol::{spec_create_sol, CreateEscrowSol};
use crate::instructions::escrow_create::create_spl::{spec_create_spl, CreateEscrowSpl};
use crate::instructions::escrow_create::shared::CreateEscrowArgs;
use crate::instructions::escrow_create::cancel::{
    spec_cancel_sol, spec_cancel_spl, CancelSol, CancelSpl,
};
use crate::instructions::escrow_create::refund_expired::{
    spec_refund_expired_sol, spec_refund_expired_spl,
};
use crate::instructions::escrow_state::accept::spec_accept;
use crate::instructions::escrow_state::approve::{spec_approve_sol, spec_approve_spl};
use crate::instructions::escrow_state::claim_stalled::{
    spec_claim_stalled_sol, spec_claim_stalled_spl,
};
use crate::instructions::escrow_state::decline::spec_decline;
use crate::instructions::escrow_state::reclaim::{spec_reclaim, spec_reclaim_sol, spec_reclaim_spl};
use crate::instructions::escrow_state::settlement_accounts::{
    spec_check_settle_sol, spec_pay_counterparty, EscrowMutation, Payout, SettleSol, SettleSpl,
    TokenAccountKeys,
};
use crate::instructions::escrow_state::submit::spec_submit;
use crate::state::escrow::{
    escrow_wf, is_terminal, vault_holding, DisputeWinner, Escrow, EscrowStatus,
};
use crate::state::platform::{platform_wf, PlatformState};
use crate::state::pubkey::Pubkey;

verus! {

/// An instruction acting on an existing escrow, with its inputs.
pub enum EscrowInstruction {
    Accept { accounts: EscrowMutation, now: i64 },
    Decline { accounts: EscrowMutation },
    Submit { accounts: EscrowMutation, now: i64 },
    CancelSol { accounts: CancelSol },
    CancelSpl { accounts: CancelSpl },
    RefundExpiredSol { accounts: CancelSol, now: i64 },
    RefundExpiredSpl { accounts: CancelSpl, now: i64 },
    ApproveSol { accounts: SettleSol },
    ApproveSpl { accounts: SettleSpl },
    ClaimStalledSol { accounts: SettleSol, now: i64 },
    ClaimStalledSpl { accounts: SettleSpl, now: i64 },
    ReclaimSol { accounts: SettleSol, now: i64 },
    ReclaimSpl { accounts: SettleSpl, now: i64 },
    DisputeSol { accounts: DisputeSol, bond_amount: u64 },
    DisputeSpl { accounts: DisputeSpl, bond_amount: u64 },
    ResolveSol { accounts: ResolveSol, winner: DisputeWinner, raiser: Pubkey },
    ResolveSpl { accounts: ResolveSpl, winner: DisputeWinner, raiser: Pubkey },
}

/// A payout that moves nothing.
pub open spec fn no_payout() -> Payout {
    Payout { to_creator: 0, to_counterparty: 0, to_treasury: 0 }
}

/// Lifts a state-only outcome.
pub open spec fn state_only<T>(r: Result<(Escrow, T), TendaError>) -> Result<
    (Escrow, u64, Payout),
    TendaError,
> {
    match r {
        Err(x) => Err(x),
        Ok((e, _)) => Ok((e, 0u64, no_payout())),
    }
}

/// Lifts a settlement outcome.
pub open spec fn settlement(r: Result<(Escrow, Payout), TendaError>) -> Result<
    (Escrow, u64, Payout),
    TendaError,
> {
    match r {
        Err(x) => Err(x),
        Ok((e, pay)) => Ok((e, 0u64, pay)),
    }
}

/// The specified outcome of an instruction on escrow `e` under platform `p`:
/// the new escrow, the amount paid into the vault, and the payout from it.
pub open spec fn spec_step(e: Escrow, p: PlatformState, ins: EscrowInstruction) -> Result<
    (Escrow, u64, Payout),
    TendaError,
> {
    match ins {
        EscrowInstruction::Accept { accounts, now } => state_only(spec_accept(e, accounts, now)),
        EscrowInstruction::Decline { accounts } => state_only(spec_decline(e, accounts)),
        EscrowInstruction::Submit { accounts, now } => state_only(spec_submit(e, p, accounts, now)),
        EscrowInstruction::CancelSol { accounts } => settlement(spec_cancel_sol(e, accounts)),
        EscrowInstruction::CancelSpl { accounts } => settlement(spec_cancel_spl(e, accounts)),
        EscrowInstruction::RefundExpiredSol { accounts, now } => settlement(
            spec_refund_expired_sol(e, accounts, now),
        ),
        EscrowInstruction::RefundExpiredSpl { accounts, now } => settlement(
            spec_refund_expired_spl(e, accounts, now),
        ),
        EscrowInstruction::ApproveSol { accounts } => settlement(spec_approve_sol(e, p, accounts)),
        EscrowInstruction::ApproveSpl { accounts } => settlement(spec_approve_spl(e, p, accounts)),
        EscrowInstruction::ClaimStalledSol { accounts, now } => settlement(
            spec_claim_stalled_sol(e, p, accounts, now),
        ),
        EscrowInstruction::ClaimStalledSpl { accounts, now } => settlement(
            spec_claim_stalled_spl(e, p, accounts, now),
        ),
        EscrowInstruction::ReclaimSol { accounts, now } => settlement(
            spec_reclaim_sol(e, p, accounts, now),
        ),
        EscrowInstruction::ReclaimSpl { accounts, now } => settlement(
            spec_reclaim_spl(e, p, accounts, now),
        ),
        EscrowInstruction::DisputeSol { accounts, bond_amount } => match spec_raise(
            e,
            accounts.raiser,
            bond_amount,
        ) {
            Err(x) => Err(x),
            Ok((e2, _)) => Ok((e2, bond_amount, no_payout())),
        },
        EscrowInstruction::DisputeSpl { accounts, bond_amount } => match spec_raise_spl(
            e,
            accounts,
            bond_amount,
        ) {
            Err(x) => Err(x),
            Ok((e2, _)) => Ok((e2, bond_amount, no_payout())),
        },
        EscrowInstruction::ResolveSol { accounts, winner, raiser } => match spec_resolve_sol(
            e,
            p,
            accounts,
            winner,
            raiser,
        ) {
            Err(x) => Err(x),
            Ok((e2, (_, pay))) => Ok((e2, 0u64, pay)),
        },
        EscrowInstruction::ResolveSpl { accounts, winner, raiser } => match spec_resolve_spl(
            e,
            p,
            accounts,
            winner,
            raiser,
        ) {
            Err(x) => Err(x),
            Ok((e2, (_, pay))) => Ok((e2, 0u64, pay)),
        },
    }
}

/// The lifecycle graph: the status changes that an instruction may make.
pub open spec fn allowed_transition(from: EscrowStatus, to: EscrowStatus) -> bool {
    match from {
        EscrowStatus::Open => to == EscrowStatus::Open || to == EscrowStatus::Accepted || to
            == EscrowStatus::Cancelled || to == EscrowStatus::Refunded,
        EscrowStatus::Accepted => to == EscrowStatus::Submitted || to == EscrowStatus::Refunded
            || to == EscrowStatus::Disputed,
        EscrowStatus::Submitted => to == EscrowStatus::Completed || to == EscrowStatus::Disputed,
        EscrowStatus::Disputed => to == EscrowStatus::Resolved,
        _ => false,
    }
}

/// Every instruction keeps the escrow invariant: an instruction that succeeds
/// on a well-formed escrow leaves a well-formed escrow.
pub proof fn lemma_step_preserves_wf(e: Escrow, p: PlatformState, ins: EscrowInstruction)
    requires
        escrow_wf(e),
        spec_step(e, p, ins) is Ok,
    ensures
        escrow_wf(spec_step(e, p, ins)->Ok_0.0),
{
}

/// Every successful instruction moves the escrow along an edge of the
/// lifecycle graph.
pub proof fn lemma_step_follows_lifecycle(e: Escrow, p: PlatformState, ins: EscrowInstruction)
    requires
        spec_step(e, p, ins) is Ok,
    ensures
        allowed_transition(e.status, spec_step(e, p, ins)->Ok_0.0.status),
{
}

/// A settled escrow (completed, cancelled, refunded or resolved) admits no
/// further instruction: every instruction on it fails, so its funds can
/// leave the vault only once.
pub proof fn lemma_terminal_is_final(e: Escrow, p: PlatformState, ins: EscrowInstruction)
    requires
        is_terminal(e.status),
    ensures
        spec_step(e, p, ins) is Err,
{
}

/// Funds are conserved: what the vault held for the escrow plus what was
/// paid in equals what it holds afterwards plus what was paid out. In
/// particular a settlement pays out exactly the principal (plus the bond
/// after a dispute) and leaves the vault holding nothing.
pub proof fn lemma_step_conserves_funds(e: Escrow, p: PlatformState, ins: EscrowInstruction)
    requires
        escrow_wf(e),
        spec_step(e, p, ins) is Ok,
    ensures
        ({
            let (e2, paid_in, payout) = spec_step(e, p, ins)->Ok_0;
            vault_holding(e) + paid_in == vault_holding(e2) + payout.total()
        }),
{
}

/// A newly created escrow is well-formed and open, owned by the creating
/// wallet, and its vault holds exactly the amount the creator pays in.
pub proof fn lemma_created_escrow(
    args: CreateEscrowArgs,
    sol: CreateEscrowSol,
    spl: CreateEscrowSpl,
    now: i64,
    vault_rent_minimum: u64,
)
    ensures
        spec_create_sol(args, sol, now, vault_rent_minimum) matches Ok(e) ==> {
            &&& escrow_wf(e)
            &&& e.status == EscrowStatus::Open
            &&& e.creator == sol.creator
            &&& e.amount == args.amount
            &&& vault_holding(e) == args.amount
        },
        spec_create_spl(args, spl, now) matches Ok(e) ==> {
            &&& escrow_wf(e)
            &&& e.status == EscrowStatus::Open
            &&& e.creator == spl.creator
            &&& e.amount == args.amount
            &&& vault_holding(e) == args.amount
        },
{
}

/// With a well-formed platform the fee never exceeds a tenth of the amount
/// (the 10% cap), the counterparty receives the rest, and paying the
/// counterparty fails only when `amount * fee_bps` does not fit in `u64`.
pub proof fn lemma_fee_within_cap(e: Escrow, p: PlatformState)
    requires
        platform_wf(p),
    ensures
        spec_pay_counterparty(e, p) is Ok <==> e.amount * p.spec_effective_fee_bps(e.is_seeker)
            <= u64::MAX,
        spec_pay_counterparty(e, p) matches Ok((_, pay)) ==> {
            &&& pay.to_treasury * 10 <= e.amount
            &&& pay.to_counterparty + pay.to_treasury == e.amount
            &&& pay.to_creator == 0
        },
{
    let bps = p.spec_effective_fee_bps(e.is_seeker);
    let a = e.amount;
    if a * bps <= u64::MAX {
        assert((a * bps) / 10_000int * 10 <= a) by (nonlinear_arith)
            requires
                0 <= bps <= 1000,
                0 <= a,
        ;
    }
}

/// Dispute economics: the raiser is a party; the bond goes wholly to one
/// side. The winning side takes the bond (a raiser who wins gets it back, a
/// raiser who loses forfeits it to the other party); on a split the
/// principal is halved (an odd unit to the counterparty), no fee is taken
/// and the bond returns to the raiser. Only a counterparty win pays a fee.
pub proof fn lemma_dispute_economics(
    e: Escrow,
    p: PlatformState,
    winner: DisputeWinner,
    raiser: Pubkey,
    counterparty_check: Pubkey,
    counterparty_error: TendaError,
)
    requires
        spec_resolve(e, p, winner, raiser, counterparty_check, counterparty_error) is Ok,
    ensures
        ({
            let (_, (d, pay)) = spec_resolve(
                e,
                p,
                winner,
                raiser,
                counterparty_check,
                counterparty_error,
            )->Ok_0;
            let cp = e.counterparty->0;
            let bond = e.dispute_bond;
            &&& e.counterparty is Some
            &&& raiser == e.creator || raiser == cp
            &&& d.bond_to_creator == 0 || d.bond_to_counterparty == 0
            &&& d.bond_to_creator + d.bond_to_counterparty == bond
            &&& pay.to_creator == d.creator_payout + d.bond_to_creator
            &&& pay.to_counterparty == d.counterparty_payout + d.bond_to_counterparty
            &&& pay.to_treasury == d.treasury_fee
            &&& winner == DisputeWinner::Creator ==> {
                &&& pay.to_creator == e.amount + bond
                &&& pay.to_counterparty == 0
                &&& pay.to_treasury == 0
                &&& (d.bond_refund_to == Some(raiser) <==> raiser == e.creator)
            }
            &&& winner == DisputeWinner::Counterparty ==> {
                &&& pay.to_creator == 0
                &&& pay.to_counterparty + pay.to_treasury == e.amount + bond
                &&& d.bond_to_counterparty == bond
                &&& (d.bond_refund_to == Some(raiser) <==> raiser == cp)
            }
            &&& winner == DisputeWinner::Split ==> {
                &&& pay.to_treasury == 0
                &&& d.creator_payout + d.counterparty_payout == e.amount
                &&& 0 <= d.counterparty_payout - d.creator_payout <= 1
                &&& d.bond_refund_to == Some(raiser)
                &&& (raiser == e.creator ==> d.bond_to_creator == bond)
                &&& (raiser != e.creator ==> d.bond_to_counterparty == bond)
            }
        }),
{
}

/// Who may act: an instruction succeeds only for the caller entitled to it.
/// The creator approves, cancels, refunds and reclaims; the counterparty
/// submits and claims a stalled payment; anyone but the creator (only the
/// assigned wallet, when there is one) accepts; the assigned wallet
/// declines; only a party disputes; only the dispute admin resolves.
pub open spec fn authorized(e: Escrow, p: PlatformState, ins: EscrowInstruction) -> bool {
    match ins {
        EscrowInstruction::Accept { accounts, .. } => accounts.signer != e.creator && (
        e.assigned_counterparty matches Some(a) ==> accounts.signer == a),
        EscrowInstruction::Decline { accounts } => e.assigned_counterparty == Some(accounts.signer),
        EscrowInstruction::Submit { accounts, .. } => e.counterparty == Some(accounts.signer),
        EscrowInstruction::CancelSol { accounts } => accounts.creator == e.creator,
        EscrowInstruction::CancelSpl { accounts } => accounts.creator == e.creator,
        EscrowInstruction::RefundExpiredSol { accounts, .. } => accounts.creator == e.creator,
        EscrowInstruction::RefundExpiredSpl { accounts, .. } => accounts.creator == e.creator,
        EscrowInstruction::ApproveSol { accounts } => accounts.signer == e.creator,
        EscrowInstruction::ApproveSpl { accounts } => accounts.signer == e.creator,
        EscrowInstruction::ClaimStalledSol { accounts, .. } => e.counterparty == Some(
            accounts.signer,
        ),
        EscrowInstruction::ClaimStalledSpl { accounts, .. } => e.counterparty == Some(
            accounts.signer,
        ),
        EscrowInstruction::ReclaimSol { accounts, .. } => accounts.signer == e.creator,
        EscrowInstruction::ReclaimSpl { accounts, .. } => accounts.signer == e.creator,
        EscrowInstruction::DisputeSol { accounts, .. } => accounts.raiser == e.creator
            || e.counterparty == Some(accounts.raiser),
        EscrowInstruction::DisputeSpl { accounts, .. } => accounts.raiser == e.creator
            || e.counterparty == Some(accounts.raiser),
        EscrowInstruction::ResolveSol { accounts, .. } => accounts.dispute_admin == p.dispute_admin,
        EscrowInstruction::ResolveSpl { accounts, .. } => accounts.dispute_admin == p.dispute_admin,
    }
}

/// Unauthorized callers are refused: every successful instruction was
/// signed by the caller entitled to it.
pub proof fn lemma_only_authorized_callers(e: Escrow, p: PlatformState, ins: EscrowInstruction)
    requires
        spec_step(e, p, ins) is Ok,
    ensures
        authorized(e, p, ins),
{
}

/// Lamports are paid only to accounts that are the escrow's creator, its
/// recorded counterparty and the platform treasury.
pub open spec fn sol_recipients_ok(
    e: Escrow,
    p: PlatformState,
    creator: Pubkey,
    counterparty: Pubkey,
    treasury: Pubkey,
    pay: Payout,
) -> bool {
    &&& pay.to_creator > 0 ==> creator == e.creator
    &&& pay.to_counterparty > 0 ==> e.counterparty == Some(counterparty)
    &&& pay.to_treasury > 0 ==> treasury == p.treasury
}

/// Tokens leave only a vault account of the escrow's mint, and go only to
/// accounts of that mint owned by the creator, the recorded counterparty and
/// the platform treasury.
pub open spec fn spl_recipients_ok(
    e: Escrow,
    p: PlatformState,
    vault: TokenAccountKeys,
    creator: TokenAccountKeys,
    counterparty: TokenAccountKeys,
    treasury: TokenAccountKeys,
    pay: Payout,
) -> bool {
    &&& vault.mint == e.asset
    &&& pay.to_creator > 0 ==> creator.owner == e.creator && creator.mint == e.asset
    &&& pay.to_counterparty > 0 ==> e.counterparty == Some(counterparty.owner)
        && counterparty.mint == e.asset
    &&& pay.to_treasury > 0 ==> treasury.owner == p.treasury && treasury.mint == e.asset
}

/// The recipients of an instruction's payout are the rightful ones.
pub open spec fn recipients_ok(e: Escrow, p: PlatformState, ins: EscrowInstruction, pay: Payout) -> bool {
    match ins {
        EscrowInstruction::CancelSol { accounts } => pay.to_counterparty == 0 && pay.to_treasury
            == 0 && accounts.creator == e.creator,
        EscrowInstruction::RefundExpiredSol { accounts, .. } => pay.to_counterparty == 0
            && pay.to_treasury == 0 && accounts.creator == e.creator,
        EscrowInstruction::CancelSpl { accounts } => pay.to_counterparty == 0 && pay.to_treasury
            == 0 && accounts.vault_token_account.mint == e.asset
            && accounts.creator_token_account.owner == e.creator
            && accounts.creator_token_account.mint == e.asset,
        EscrowInstruction::RefundExpiredSpl { accounts, .. } => pay.to_counterparty == 0
            && pay.to_treasury == 0 && accounts.vault_token_account.mint == e.asset
            && accounts.creator_token_account.owner == e.creator
            && accounts.creator_token_account.mint == e.asset,
        EscrowInstruction::ApproveSol { accounts } => sol_recipients_ok(
            e,
            p,
            accounts.creator,
            accounts.counterparty,
            accounts.treasury,
            pay,
        ),
        EscrowInstruction::ClaimStalledSol { accounts, .. } => sol_recipients_ok(
            e,
            p,
            accounts.creator,
            accounts.counterparty,
            accounts.treasury,
            pay,
        ),
        EscrowInstruction::ReclaimSol { accounts, .. } => sol_recipients_ok(
            e,
            p,
            accounts.creator,
            accounts.counterparty,
            accounts.treasury,
            pay,
        ),
        EscrowInstruction::ResolveSol { accounts, .. } => sol_recipients_ok(
            e,
            p,
            accounts.creator,
            accounts.counterparty,
            accounts.treasury,
            pay,
        ),
        EscrowInstruction::ApproveSpl { accounts } => spl_recipients_ok(
            e,
            p,
            accounts.vault_token_account,
            accounts.creator_token_account,
            accounts.counterparty_token_account,
            accounts.treasury_token_account,
            pay,
        ),
        EscrowInstruction::ClaimStalledSpl { accounts, .. } => spl_recipients_ok(
            e,
            p,
            accounts.vault_token_account,
            accounts.creator_token_account,
            accounts.counterparty_token_account,
            accounts.treasury_token_account,
            pay,
        ),
        EscrowInstruction::ReclaimSpl { accounts, .. } => spl_recipients_ok(
            e,
            p,
            accounts.vault_token_account,
            accounts.creator_token_account,
            accounts.counterparty_token_account,
            accounts.treasury_token_account,
            pay,
        ),
        EscrowInstruction::ResolveSpl { accounts, .. } => spl_recipients_ok(
            e,
            p,
            accounts.vault_token_account,
            accounts.creator_token_account,
            accounts.counterparty_token_account,
            accounts.treasury_token_account,
            pay,
        ),
        _ => pay == no_payout(),
    }
}

/// Funds leave the vault only towards the escrow's creator, its recorded
/// counterparty and the platform treasury, through accounts of the escrow's
/// asset; instructions that settle nothing pay nothing.
pub proof fn lemma_funds_reach_rightful_recipients(
    e: Escrow,
    p: PlatformState,
    ins: EscrowInstruction,
)
    requires
        spec_step(e, p, ins) is Ok,
    ensures
        recipients_ok(e, p, ins, spec_step(e, p, ins)->Ok_0.2),
{
}

/// The accept deadline splits time in two: before it, an entitled wallet
/// can accept an open escrow and the creator cannot take a refund; from it
/// on, the creator can take the refund and nobody can accept.
pub proof fn lemma_accept_and_refund_windows_partition(
    e: Escrow,
    taker: EscrowMutation,
    refund: CancelSol,
    now: i64,
)
    requires
        e.status == EscrowStatus::Open,
        taker.signer != e.creator,
        e.assigned_counterparty matches Some(a) ==> taker.signer == a,
        refund.creator == e.creator,
        i64::MIN <= now + e.completion_duration_seconds <= i64::MAX,
    ensures
        (spec_accept(e, taker, now) is Ok) <==> now < e.accept_deadline,
        (spec_refund_expired_sol(e, refund, now) is Ok) <==> now >= e.accept_deadline,
{
}

/// The grace period splits the time after acceptance in two: until
/// `completion_deadline + grace_period_seconds` the counterparty can submit
/// and the creator cannot reclaim; from then on the creator can reclaim and
/// the counterparty can no longer submit.
pub proof fn lemma_submit_and_reclaim_windows_partition(
    e: Escrow,
    p: PlatformState,
    worker: EscrowMutation,
    creator: SettleSol,
    now: i64,
)
    requires
        e.status == EscrowStatus::Accepted,
        e.counterparty == Some(worker.signer),
        creator.signer == e.creator,
        creator.creator == e.creator,
        creator.treasury == p.treasury,
        i64::MIN <= e.completion_deadline + p.grace_period_seconds <= i64::MAX,
        i64::MIN <= now + p.approval_window_seconds <= i64::MAX,
    ensures
        (spec_submit(e, p, worker, now) is Ok) <==> now < e.completion_deadline
            + p.grace_period_seconds,
        (spec_reclaim_sol(e, p, creator, now) is Ok) <==> now >= e.completion_deadline
            + p.grace_period_seconds,
{
}

/// At every instant exactly one of submitting and reclaiming is open: for an
/// accepted escrow, a submission by its counterparty is refused for a closed
/// window exactly when `now` has reached `completion_deadline +
/// grace_period_seconds`, and a reclaim by its creator is refused for a
/// window not yet open exactly when `now` is before it; past the account
/// checks, the creator's SOL reclaim is refused for that reason on the same
/// instants.
pub proof fn lemma_exactly_one_of_submit_and_reclaim_open(
    e: Escrow,
    p: PlatformState,
    worker: EscrowMutation,
    creator: SettleSol,
    now: i64,
)
    requires
        e.status == EscrowStatus::Accepted,
        e.counterparty == Some(worker.signer),
        creator.signer == e.creator,
        i64::MIN <= e.completion_deadline + p.grace_period_seconds <= i64::MAX,
    ensures
        (spec_submit(e, p, worker, now) == Err::<(Escrow, ()), TendaError>(
            TendaError::SubmissionWindowClosed,
        )) <==> now >= e.completion_deadline + p.grace_period_seconds,
        (spec_reclaim(e, p, creator.signer, now) == Err::<(Escrow, Payout), TendaError>(
            TendaError::ReclaimWindowNotOpen,
        )) <==> now < e.completion_deadline + p.grace_period_seconds,
        (spec_reclaim(e, p, creator.signer, now) is Ok) <==> now >= e.completion_deadline
            + p.grace_period_seconds,
        (spec_reclaim_sol(e, p, creator, now) == Err::<(Escrow, Payout), TendaError>(
            TendaError::ReclaimWindowNotOpen,
        )) <==> (spec_check_settle_sol(e, p, creator) is Ok && now < e.completion_deadline
            + p.grace_period_seconds),
{
}

/// The platform's volume counter is analytics only: no instruction's outcome
/// depends on it.
pub proof fn lemma_volume_never_gates_logic(
    e: Escrow,
    p: PlatformState,
    volume: u64,
    ins: EscrowInstruction,
)
    ensures
        spec_step(e, p, ins) == spec_step(e, PlatformState { total_volume: volume, ..p }, ins),
{
}

} // verus!
