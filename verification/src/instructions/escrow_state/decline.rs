//! `decline_assigned_escrow`: the assigned wallet releases its assignment; the
//! escrow stays `Open` and becomes public.

use vstd::prelude::*;

use crate::errors::TendaError;
use crate::instructions::transition_outcome;
use crate::state::escrow::{Escrow, EscrowStatus};
use crate::state::pubkey::key_eq;

use super::settlement_accounts::EscrowMutation;

verus! {

/// Declining: the escrow is `Open`, it has an assigned counterparty and the
/// signer is that wallet. The assignment is cleared.
pub open spec fn spec_decline(e: Escrow, a: EscrowMutation) -> Result<(Escrow, ()), TendaError> {
    if e.status != EscrowStatus::Open {
        Err(TendaError::InvalidEscrowStatus)
    } else {
        match e.assigned_counterparty {
            None => Err(TendaError::NoAssignedCounterparty),
            Some(assigned) => if a.signer != assigned {
                Err(TendaError::NotAssignedCounterparty)
            } else {
                Ok((Escrow { assigned_counterparty: None, ..e }, ()))
            },
        }
    }
}

/// Decline an assigned escrow.
pub fn handler(escrow: &mut Escrow, accounts: &EscrowMutation) -> (r: Result<(), TendaError>)
    ensures
        transition_outcome(spec_decline(*old(escrow), *accounts), r, *old(escrow), *final(escrow)),
{
    if escrow.status != EscrowStatus::Open {
        return Err(TendaError::InvalidEscrowStatus);
    }
    let assigned = match escrow.assigned_counterparty {
        Some(k) => k,
        None => {
            return Err(TendaError::NoAssignedCounterparty);
        },
    };
    if !key_eq(&accounts.signer, &assigned) {
        return Err(TendaError::NotAssignedCounterparty);
    }
    escrow.assigned_counterparty = None;
    Ok(())
}

} // verus!
