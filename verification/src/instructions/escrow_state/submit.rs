//! `submit_proof`: the counterparty records delivery (the proof hash itself
//! only travels in the event) and opens the approval window.

use vstd::prelude::*;

use crate::errors::TendaError;
use crate::instructions::transition_outcome;
use crate::state::escrow::{Escrow, EscrowStatus};
use crate::state::platform::PlatformState;
use crate::state::pubkey::key_eq;

use super::settlement_accounts::EscrowMutation;

verus! {

/// Submission: the escrow is `Accepted`, the signer is its counterparty,
/// `completion_deadline + grace_period_seconds` fits in `i64` and `now` is
/// before it, and `now + approval_window_seconds` fits in `i64`. The approval
/// deadline becomes `now + approval_window_seconds` and the status
/// `Submitted`.
pub open spec fn spec_submit(e: Escrow, p: PlatformState, a: EscrowMutation, now: i64) -> Result<
    (Escrow, ()),
    TendaError,
> {
    let cutoff = e.completion_deadline + p.grace_period_seconds;
    let approval = now + p.approval_window_seconds;
    if e.status != EscrowStatus::Accepted {
        Err(TendaError::InvalidEscrowStatus)
    } else if e.counterparty is None || a.signer != e.counterparty->0 {
        Err(TendaError::NotCounterparty)
    } else if cutoff > i64::MAX || cutoff < i64::MIN {
        Err(TendaError::ArithmeticOverflow)
    } else if now >= cutoff {
        Err(TendaError::SubmissionWindowClosed)
    } else if approval > i64::MAX || approval < i64::MIN {
        Err(TendaError::ArithmeticOverflow)
    } else {
        Ok(
            (
                Escrow {
                    approval_deadline: approval as i64,
                    status: EscrowStatus::Submitted,
                    ..e
                },
                (),
            ),
        )
    }
}

/// Submit proof of completion at time `now`.
pub fn handler(
    escrow: &mut Escrow,
    platform_state: &PlatformState,
    accounts: &EscrowMutation,
    now: i64,
) -> (r: Result<(), TendaError>)
    ensures
        transition_outcome(
            spec_submit(*old(escrow), *platform_state, *accounts, now),
            r,
            *old(escrow),
            *final(escrow),
        ),
{
    if escrow.status != EscrowStatus::Accepted {
        return Err(TendaError::InvalidEscrowStatus);
    }
    let counterparty = match escrow.counterparty {
        Some(cp) => cp,
        None => {
            return Err(TendaError::NotCounterparty);
        },
    };
    if !key_eq(&accounts.signer, &counterparty) {
        return Err(TendaError::NotCounterparty);
    }
    let submit_cutoff = match escrow.completion_deadline.checked_add(platform_state.grace_period_seconds) {
        Some(t) => t,
        None => {
            return Err(TendaError::ArithmeticOverflow);
        },
    };
    if now >= submit_cutoff {
        return Err(TendaError::SubmissionWindowClosed);
    }
    let approval_deadline = match now.checked_add(platform_state.approval_window_seconds) {
        Some(t) => t,
        None => {
            return Err(TendaError::ArithmeticOverflow);
        },
    };
    escrow.approval_deadline = approval_deadline;
    escrow.status = EscrowStatus::Submitted;
    Ok(())
}

} // verus!
