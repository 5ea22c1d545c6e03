use vstd::prelude::*;

use crate::errors::TendaError;
use crate::state::platform::PlatformState;
use crate::state::pubkey::Pubkey;

use super::{check_admin, config_outcome, spec_check_admin, AdminUpdate};

verus! {

/// Replacing the dispute admin: the signer is the protocol admin; the dispute admin becomes
/// `new_admin` and the result is the replaced value.
pub open spec fn spec_set_dispute_admin_handler(p: PlatformState, a: AdminUpdate, new_admin: Pubkey) -> Result<
    (PlatformState, Pubkey),
    TendaError,
> {
    match spec_check_admin(p, a) {
        Err(x) => Err(x),
        Ok(_) => Ok((PlatformState { dispute_admin: new_admin, ..p }, p.dispute_admin)),
    }
}

/// Replace the dispute admin; returns the previous one.
pub fn set_dispute_admin_handler(platform_state: &mut PlatformState, accounts: &AdminUpdate, new_admin: Pubkey) -> (r:
    Result<Pubkey, TendaError>)
    ensures
        config_outcome(
            spec_set_dispute_admin_handler(*old(platform_state), *accounts, new_admin),
            r,
            *old(platform_state),
            *final(platform_state),
        ),
{
    match check_admin(platform_state, accounts) {
        Err(x) => Err(x),
        Ok(()) => {
            let old_value = platform_state.dispute_admin;
            platform_state.dispute_admin = new_admin;
            Ok(old_value)
        },
    }
}

} // verus!
