//! `accept_escrow`: a wallet other than the creator takes an open escrow
//! before its accept deadline (only the assigned wallet, when there is one).

use vstd::prelude::*;

use crate::errors::TendaError;
use crate::instructions::transition_outcome;
use crate::state::escrow::{Escrow, EscrowStatus};
use crate::state::pubkey::key_eq;

use super::settlement_accounts::EscrowMutation;

verus! {

/// Acceptance: the escrow is `Open`, the signer is not the creator, `now` is
/// before the accept deadline, the signer is the assigned counterparty if
/// there is one, and `now + completion_duration_seconds` fits in `i64`.
/// The signer becomes the counterparty, the status `Accepted`, and the
/// completion deadline `now + completion_duration_seconds`.
pub open spec fn spec_accept(e: Escrow, a: EscrowMutation, now: i64) -> Result<(Escrow, ()), TendaError> {
    if e.status != EscrowStatus::Open {
        Err(TendaError::InvalidEscrowStatus)
    } else if a.signer == e.creator {
        Err(TendaError::CreatorCannotAccept)
    } else if now >= e.accept_deadline {
        Err(TendaError::AcceptDeadlinePassed)
    } else if e.assigned_counterparty matches Some(assigned) && a.signer != assigned {
        Err(TendaError::NotAssignedCounterparty)
    } else if now + e.completion_duration_seconds > i64::MAX || now + e.completion_duration_seconds
        < i64::MIN {
        Err(TendaError::ArithmeticOverflow)
    } else {
        Ok(
            (
                Escrow {
                    counterparty: Some(a.signer),
                    status: EscrowStatus::Accepted,
                    completion_deadline: (now + e.completion_duration_seconds) as i64,
                    ..e
                },
                (),
            ),
        )
    }
}

/// Accept an escrow at time `now`.
pub fn handler(escrow: &mut Escrow, accounts: &EscrowMutation, now: i64) -> (r: Result<(), TendaError>)
    ensures
        transition_outcome(spec_accept(*old(escrow), *accounts, now), r, *old(escrow), *final(escrow)),
{
    let signer = accounts.signer;
    if escrow.status != EscrowStatus::Open {
        return Err(TendaError::InvalidEscrowStatus);
    }
    if key_eq(&signer, &escrow.creator) {
        return Err(TendaError::CreatorCannotAccept);
    }
    if now >= escrow.accept_deadline {
        return Err(TendaError::AcceptDeadlinePassed);
    }
    if let Some(assigned) = escrow.assigned_counterparty {
        if !key_eq(&signer, &assigned) {
            return Err(TendaError::NotAssignedCounterparty);
        }
    }
    let completion_deadline = match now.checked_add(escrow.completion_duration_seconds) {
        Some(t) => t,
        None => {
            return Err(TendaError::ArithmeticOverflow);
        },
    };
    escrow.counterparty = Some(signer);
    escrow.status = EscrowStatus::Accepted;
    escrow.completion_deadline = completion_deadline;
    Ok(())
}

} // verus!
