//! What the instructions compute, stated over their inputs: the escrow that
//! creation writes, the approval window that submission opens, and the
//! amounts that approval, a stalled-payment claim and a counterparty win in a
//! dispute pay out.
//!
//! The platform fee on an escrow is `amount * rate / 10_000` rounded down,
//! where `rate` is the platform's seeker rate for seeker escrows and its
//! standard rate otherwise.

use vstd::prelude::*;

use crate::constants::{
    MAX_COMPLETION_DURATION_SECONDS, MIN_COMPLETION_DURATION_SECONDS, MIN_ESCROW_AMOUNT,
};
use crate::instructions::dispute::raise::{spec_raise, spec_raise_spl, DisputeSpl};
use crate::instructions::dispute::resolve::{
    spec_compute_distribution, spec_resolve_sol, spec_resolve_spl, ResolveSol, ResolveSpl,
};
use crate::instructions::escrow_create::cancel::{
    spec_cancel_sol, spec_cancel_spl, CancelSol, CancelSpl,
};
use crate::instructions::escrow_create::create_sol::{spec_create_sol, CreateEscrowSol};
use crate::instructions::escrow_create::create_spl::{spec_create_spl, CreateEscrowSpl};
use crate::instructions::escrow_create::shared::CreateEscrowArgs;
use crate::instructions::escrow_create::refund_expired::{
    spec_refund_expired_sol, spec_refund_expired_spl,
};
use crate::instructions::escrow_state::accept::spec_accept;
use crate::instructions::escrow_state::approve::{spec_approve_sol, spec_approve_spl};
use crate::instructions::escrow_state::claim_stalled::{
    spec_claim_stalled_sol, spec_claim_stalled_spl,
};
use crate::instructions::escrow_state::decline::spec_decline;
use crate::instructions::escrow_state::reclaim::{spec_reclaim_sol, spec_reclaim_spl};
use crate::instructions::escrow_state::settlement_accounts::{
    spec_check_settle_sol, spec_check_settle_spl, spec_pay_counterparty, EscrowMutation, Payout,
    SettleSol, SettleSpl,
};
use crate::instructions::escrow_state::submit::spec_submit;
use crate::state::escrow::{DisputeWinner, Escrow, EscrowStatus};
use crate::state::platform::PlatformState;
use crate::state::pubkey::Pubkey;

verus! {

/// A settlement to the counterparty of escrow `e`: nothing to the creator,
/// the fee at the escrow's rate to the treasury, the rest of the amount to
/// the counterparty.
pub open spec fn pays_amount_less_fee(e: Escrow, p: PlatformState, pay: Payout) -> bool {
    let rate: int = if e.is_seeker {
        p.seeker_fee_bps as int
    } else {
        p.fee_bps as int
    };
    &&& pay.to_creator == 0
    &&& pay.to_treasury == (e.amount * rate) / 10_000
    &&& pay.to_counterparty == e.amount - (e.amount * rate) / 10_000
}

/// Whether the fee at the escrow's rate can be charged: the product
/// `amount * rate` fits in `u64` and the fee does not exceed the amount.
pub open spec fn fee_chargeable(e: Escrow, p: PlatformState) -> bool {
    let rate: int = if e.is_seeker {
        p.seeker_fee_bps as int
    } else {
        p.fee_bps as int
    };
    e.amount * rate <= u64::MAX && (e.amount * rate) / 10_000 <= e.amount
}

proof fn lemma_pay_counterparty_amounts(e: Escrow, p: PlatformState)
    ensures
        (spec_pay_counterparty(e, p) is Ok) <==> fee_chargeable(e, p),
        spec_pay_counterparty(e, p) matches Ok((e2, pay)) ==> {
            &&& pays_amount_less_fee(e, p, pay)
            &&& e2 == (Escrow { status: EscrowStatus::Completed, ..e })
        },
{
    if e.is_seeker {
        assert(p.spec_effective_fee_bps(e.is_seeker) == p.seeker_fee_bps);
    } else {
        assert(p.spec_effective_fee_bps(e.is_seeker) == p.fee_bps);
    }
}

/// Approving a submitted escrow pays the counterparty the amount less the
/// fee at the escrow's rate (the seeker rate for seeker escrows) and the fee
/// to the treasury, and completes the escrow; SOL and token approvals of
/// the same escrow pay the same. Once the creator approves with the right
/// accounts, the approval fails only when the fee cannot be charged.
pub proof fn lemma_approval_pays_amount_less_fee(
    e: Escrow,
    p: PlatformState,
    sol: SettleSol,
    spl: SettleSpl,
)
    ensures
        spec_approve_sol(e, p, sol) matches Ok((e2, pay)) ==> {
            &&& pays_amount_less_fee(e, p, pay)
            &&& e.status == EscrowStatus::Submitted
            &&& e2 == (Escrow { status: EscrowStatus::Completed, ..e })
        },
        spec_approve_spl(e, p, spl) matches Ok((e2, pay)) ==> {
            &&& pays_amount_less_fee(e, p, pay)
            &&& e.status == EscrowStatus::Submitted
            &&& e2 == (Escrow { status: EscrowStatus::Completed, ..e })
        },
        spec_approve_sol(e, p, sol) is Ok && spec_approve_spl(e, p, spl) is Ok
            ==> spec_approve_sol(e, p, sol) == spec_approve_spl(e, p, spl),
        spec_check_settle_sol(e, p, sol) is Ok && e.status == EscrowStatus::Submitted && sol.signer
            == e.creator && e.counterparty == Some(sol.counterparty) ==> ((spec_approve_sol(
            e,
            p,
            sol,
        ) is Ok) <==> fee_chargeable(e, p)),
        spec_check_settle_spl(e, p, spl) is Ok && e.status == EscrowStatus::Submitted && spl.signer
            == e.creator && e.counterparty == Some(spl.counterparty)
            && spl.counterparty_token_account.owner == spl.counterparty ==> ((spec_approve_spl(
            e,
            p,
            spl,
        ) is Ok) <==> fee_chargeable(e, p)),
{
    lemma_pay_counterparty_amounts(e, p);
}

/// A stalled-payment claim pays exactly what an approval of the escrow
/// would: the amount less the fee at the escrow's rate to the counterparty,
/// the fee to the treasury; it succeeds only from the approval deadline on,
/// and once the counterparty claims with the right accounts from then on it
/// fails only when the fee cannot be charged.
pub proof fn lemma_stalled_claim_pays_as_approval(
    e: Escrow,
    p: PlatformState,
    sol: SettleSol,
    spl: SettleSpl,
    now: i64,
)
    ensures
        spec_claim_stalled_sol(e, p, sol, now) matches Ok((e2, pay)) ==> {
            &&& pays_amount_less_fee(e, p, pay)
            &&& now >= e.approval_deadline
            &&& e.status == EscrowStatus::Submitted
            &&& e2 == (Escrow { status: EscrowStatus::Completed, ..e })
        },
        spec_claim_stalled_spl(e, p, spl, now) matches Ok((e2, pay)) ==> {
            &&& pays_amount_less_fee(e, p, pay)
            &&& now >= e.approval_deadline
            &&& e.status == EscrowStatus::Submitted
            &&& e2 == (Escrow { status: EscrowStatus::Completed, ..e })
        },
        spec_claim_stalled_sol(e, p, sol, now) is Ok && spec_approve_sol(
            e,
            p,
            SettleSol { signer: e.creator, ..sol },
        ) is Ok ==> spec_claim_stalled_sol(e, p, sol, now) == spec_approve_sol(
            e,
            p,
            SettleSol { signer: e.creator, ..sol },
        ),
        spec_check_settle_sol(e, p, sol) is Ok && e.status == EscrowStatus::Submitted
            && e.counterparty == Some(sol.signer) && sol.counterparty == sol.signer && now
            >= e.approval_deadline ==> ((spec_claim_stalled_sol(e, p, sol, now) is Ok)
            <==> fee_chargeable(e, p)),
        spec_check_settle_spl(e, p, spl) is Ok && e.status == EscrowStatus::Submitted
            && e.counterparty == Some(spl.signer) && spl.counterparty == spl.signer
            && spl.counterparty_token_account.owner == spl.signer && now >= e.approval_deadline
            ==> ((spec_claim_stalled_spl(e, p, spl, now) is Ok) <==> fee_chargeable(e, p)),
        spec_claim_stalled_spl(e, p, spl, now) is Ok && spec_approve_spl(
            e,
            p,
            SettleSpl { signer: e.creator, ..spl },
        ) is Ok ==> spec_claim_stalled_spl(e, p, spl, now) == spec_approve_spl(
            e,
            p,
            SettleSpl { signer: e.creator, ..spl },
        ),
{
    lemma_pay_counterparty_amounts(e, p);
}

/// When the counterparty wins a dispute, the treasury takes the fee at the
/// escrow's rate (the same fee an approval charges), the counterparty the
/// rest of the amount plus the whole bond, and the creator nothing.
pub proof fn lemma_counterparty_win_pays_amount_less_fee(
    e: Escrow,
    p: PlatformState,
    raiser: Pubkey,
    counterparty: Pubkey,
    sol: ResolveSol,
    spl: ResolveSpl,
)
    ensures
        (spec_compute_distribution(e, p, DisputeWinner::Counterparty, raiser, counterparty) is Ok)
            <==> fee_chargeable(e, p),
        spec_compute_distribution(e, p, DisputeWinner::Counterparty, raiser, counterparty) matches Ok(
            d,
        ) ==> {
            &&& pays_amount_less_fee(
                e,
                p,
                Payout {
                    to_creator: d.creator_payout,
                    to_counterparty: d.counterparty_payout,
                    to_treasury: d.treasury_fee,
                },
            )
            &&& d.bond_to_counterparty == e.dispute_bond
            &&& d.bond_to_creator == 0
            &&& d.treasury_fee == spec_pay_counterparty(e, p)->Ok_0.1.to_treasury
        },
        spec_resolve_sol(e, p, sol, DisputeWinner::Counterparty, raiser) matches Ok((e2, (_, pay)))
            ==> {
            let rate: int = if e.is_seeker {
                p.seeker_fee_bps as int
            } else {
                p.fee_bps as int
            };
            &&& pay.to_creator == 0
            &&& pay.to_treasury == (e.amount * rate) / 10_000
            &&& pay.to_counterparty == e.amount - (e.amount * rate) / 10_000 + e.dispute_bond
            &&& e2 == (Escrow { status: EscrowStatus::Resolved, ..e })
        },
        spec_resolve_spl(e, p, spl, DisputeWinner::Counterparty, raiser) matches Ok((e2, (_, pay)))
            ==> {
            let rate: int = if e.is_seeker {
                p.seeker_fee_bps as int
            } else {
                p.fee_bps as int
            };
            &&& pay.to_creator == 0
            &&& pay.to_treasury == (e.amount * rate) / 10_000
            &&& pay.to_counterparty == e.amount - (e.amount * rate) / 10_000 + e.dispute_bond
            &&& e2 == (Escrow { status: EscrowStatus::Resolved, ..e })
        },
{
    lemma_pay_counterparty_amounts(e, p);
    if e.is_seeker {
        assert(p.spec_effective_fee_bps(e.is_seeker) == p.seeker_fee_bps);
    } else {
        assert(p.spec_effective_fee_bps(e.is_seeker) == p.fee_bps);
    }
}

/// Submitting opens the approval window: the approval deadline becomes
/// exactly `now + approval_window_seconds`, the escrow becomes `Submitted`
/// and nothing else changes. The counterparty of an accepted escrow can
/// submit exactly while `now` is before `completion_deadline +
/// grace_period_seconds` and the new deadline fits in `i64`.
pub proof fn lemma_submission_opens_approval_window(
    e: Escrow,
    p: PlatformState,
    a: EscrowMutation,
    now: i64,
)
    ensures
        spec_submit(e, p, a, now) matches Ok((e2, _)) ==> {
            &&& e2.approval_deadline == now + p.approval_window_seconds
            &&& e2.status == EscrowStatus::Submitted
            &&& e2 == (Escrow {
                approval_deadline: e2.approval_deadline,
                status: EscrowStatus::Submitted,
                ..e
            })
        },
        (spec_submit(e, p, a, now) is Ok) <==> {
            &&& e.status == EscrowStatus::Accepted
            &&& e.counterparty == Some(a.signer)
            &&& i64::MIN <= e.completion_deadline + p.grace_period_seconds <= i64::MAX
            &&& now < e.completion_deadline + p.grace_period_seconds
            &&& i64::MIN <= now + p.approval_window_seconds <= i64::MAX
        },
{
}

/// Creation records its arguments: the new escrow is open, with no
/// counterparty and no deadlines yet, and carries the id, kind, amount,
/// assignment, accept deadline, completion duration, bond and seeker flag it
/// was given, the creating wallet, the asset (the system program for SOL,
/// the mint for tokens), the creation time and the address bumps. It is
/// created exactly when the amount is at least the minimum, the accept
/// deadline is in the future and the completion duration is in range (and,
/// for SOL, the amount covers the vault's rent-exempt minimum).
pub proof fn lemma_creation_records_arguments(
    args: CreateEscrowArgs,
    sol: CreateEscrowSol,
    spl: CreateEscrowSpl,
    now: i64,
    vault_rent_minimum: u64,
)
    ensures
        spec_create_sol(args, sol, now, vault_rent_minimum) matches Ok(e) ==> {
            &&& e.escrow_id == args.escrow_id
            &&& e.kind == args.kind
            &&& e.asset == sol.system_program
            &&& e.amount == args.amount
            &&& e.creator == sol.creator
            &&& e.counterparty is None
            &&& e.assigned_counterparty == args.assigned_counterparty
            &&& e.status == EscrowStatus::Open
            &&& e.accept_deadline == args.accept_deadline
            &&& e.completion_duration_seconds == args.completion_duration_seconds
            &&& e.completion_deadline == 0
            &&& e.approval_deadline == 0
            &&& e.dispute_bond == args.dispute_bond
            &&& e.is_seeker == args.is_seeker
            &&& e.created_at == now
            &&& e.bump == sol.escrow_bump
            &&& e.vault_bump == sol.vault_bump
        },
        spec_create_spl(args, spl, now) matches Ok(e) ==> {
            &&& e.escrow_id == args.escrow_id
            &&& e.kind == args.kind
            &&& e.asset == spl.mint
            &&& e.amount == args.amount
            &&& e.creator == spl.creator
            &&& e.counterparty is None
            &&& e.assigned_counterparty == args.assigned_counterparty
            &&& e.status == EscrowStatus::Open
            &&& e.accept_deadline == args.accept_deadline
            &&& e.completion_duration_seconds == args.completion_duration_seconds
            &&& e.completion_deadline == 0
            &&& e.approval_deadline == 0
            &&& e.dispute_bond == args.dispute_bond
            &&& e.is_seeker == args.is_seeker
            &&& e.created_at == now
            &&& e.bump == spl.escrow_bump
            &&& e.vault_bump == spl.vault_bump
        },
        (spec_create_spl(args, spl, now) is Ok) <==> {
            &&& args.amount >= MIN_ESCROW_AMOUNT
            &&& args.accept_deadline > now
            &&& MIN_COMPLETION_DURATION_SECONDS <= args.completion_duration_seconds
                <= MAX_COMPLETION_DURATION_SECONDS
        },
        (spec_create_sol(args, sol, now, vault_rent_minimum) is Ok) <==> {
            &&& args.amount >= MIN_ESCROW_AMOUNT
            &&& args.accept_deadline > now
            &&& MIN_COMPLETION_DURATION_SECONDS <= args.completion_duration_seconds
                <= MAX_COMPLETION_DURATION_SECONDS
            &&& args.amount >= vault_rent_minimum
        },
{
}

/// Accepting makes the signer the counterparty and starts the clock: the
/// completion deadline becomes exactly `now + completion_duration_seconds`,
/// the escrow becomes `Accepted`, and nothing else changes.
pub proof fn lemma_acceptance_starts_completion_clock(e: Escrow, a: EscrowMutation, now: i64)
    ensures
        spec_accept(e, a, now) matches Ok((e2, _)) ==> {
            &&& e.status == EscrowStatus::Open
            &&& a.signer != e.creator
            &&& now < e.accept_deadline
            &&& e2.completion_deadline == now + e.completion_duration_seconds
            &&& e2 == (Escrow {
                counterparty: Some(a.signer),
                status: EscrowStatus::Accepted,
                completion_deadline: e2.completion_deadline,
                ..e
            })
        },
{
}

/// Declining clears the assignment of an open escrow, and only the assigned
/// wallet can do it; nothing else changes.
pub proof fn lemma_decline_clears_assignment(e: Escrow, a: EscrowMutation)
    ensures
        (spec_decline(e, a) is Ok) <==> (e.status == EscrowStatus::Open
            && e.assigned_counterparty == Some(a.signer)),
        spec_decline(e, a) matches Ok((e2, _)) ==> e2 == (Escrow {
            assigned_counterparty: None,
            ..e
        }),
{
}

/// Disputing takes the agreed bond from a party of an accepted or submitted
/// escrow and marks it `Disputed`; nothing else changes. The dispute starts
/// from the escrow's previous status.
pub proof fn lemma_dispute_takes_agreed_bond(
    e: Escrow,
    raiser: Pubkey,
    bond_amount: u64,
    spl: DisputeSpl,
)
    ensures
        (spec_raise(e, raiser, bond_amount) is Ok) <==> {
            &&& e.counterparty is Some
            &&& raiser == e.creator || e.counterparty == Some(raiser)
            &&& e.status == EscrowStatus::Accepted || e.status == EscrowStatus::Submitted
            &&& bond_amount == e.dispute_bond
        },
        spec_raise(e, raiser, bond_amount) matches Ok((e2, from)) ==> {
            &&& e2 == (Escrow { status: EscrowStatus::Disputed, ..e })
            &&& from == e.status
        },
        spec_raise_spl(e, spl, bond_amount) matches Ok((e2, _)) ==> {
            &&& bond_amount == e.dispute_bond
            &&& e2 == (Escrow { status: EscrowStatus::Disputed, ..e })
        },
{
}

/// Unwinding returns the whole amount to the creator and nothing to anyone
/// else: a cancel of an open escrow (which becomes `Cancelled`), a refund of
/// an open escrow once the accept deadline has come (`Refunded`), and a
/// reclaim of an accepted escrow once `completion_deadline +
/// grace_period_seconds` has come (`Refunded`).
pub proof fn lemma_unwinds_return_amount_to_creator(
    e: Escrow,
    p: PlatformState,
    c_sol: CancelSol,
    c_spl: CancelSpl,
    s_sol: SettleSol,
    s_spl: SettleSpl,
    now: i64,
)
    ensures
        spec_cancel_sol(e, c_sol) matches Ok((e2, pay)) ==> {
            &&& e.status == EscrowStatus::Open
            &&& pay == (Payout { to_creator: e.amount, to_counterparty: 0, to_treasury: 0 })
            &&& e2 == (Escrow { status: EscrowStatus::Cancelled, ..e })
        },
        spec_cancel_spl(e, c_spl) matches Ok((e2, pay)) ==> {
            &&& e.status == EscrowStatus::Open
            &&& pay == (Payout { to_creator: e.amount, to_counterparty: 0, to_treasury: 0 })
            &&& e2 == (Escrow { status: EscrowStatus::Cancelled, ..e })
        },
        spec_refund_expired_sol(e, c_sol, now) matches Ok((e2, pay)) ==> {
            &&& e.status == EscrowStatus::Open
            &&& now >= e.accept_deadline
            &&& pay == (Payout { to_creator: e.amount, to_counterparty: 0, to_treasury: 0 })
            &&& e2 == (Escrow { status: EscrowStatus::Refunded, ..e })
        },
        spec_refund_expired_spl(e, c_spl, now) matches Ok((e2, pay)) ==> {
            &&& e.status == EscrowStatus::Open
            &&& now >= e.accept_deadline
            &&& pay == (Payout { to_creator: e.amount, to_counterparty: 0, to_treasury: 0 })
            &&& e2 == (Escrow { status: EscrowStatus::Refunded, ..e })
        },
        spec_reclaim_sol(e, p, s_sol, now) matches Ok((e2, pay)) ==> {
            &&& e.status == EscrowStatus::Accepted
            &&& now >= e.completion_deadline + p.grace_period_seconds
            &&& pay == (Payout { to_creator: e.amount, to_counterparty: 0, to_treasury: 0 })
            &&& e2 == (Escrow { status: EscrowStatus::Refunded, ..e })
        },
        spec_reclaim_spl(e, p, s_spl, now) matches Ok((e2, pay)) ==> {
            &&& e.status == EscrowStatus::Accepted
            &&& now >= e.completion_deadline + p.grace_period_seconds
            &&& pay == (Payout { to_creator: e.amount, to_counterparty: 0, to_treasury: 0 })
            &&& e2 == (Escrow { status: EscrowStatus::Refunded, ..e })
        },
{
}

} // verus!
