use vstd::prelude::*;

use crate::errors::TendaError;
use crate::state::platform::PlatformState;
use crate::state::pubkey::Pubkey;

use super::{check_admin, config_outcome, spec_check_admin, AdminUpdate};

verus! {

/// Replacing the treasury: the signer is the protocol admin; the treasury becomes
/// `new_treasury` and the result is the replaced value.
pub open spec fn spec_set_treasury_handler(p: PlatformState, a: AdminUpdate, new_treasury: Pubkey) -> Result<
    (PlatformState, Pubkey),
    TendaError,
> {
    match spec_check_admin(p, a) {
        Err(x) => Err(x),
        Ok(_) => Ok((PlatformState { treasury: new_treasury, ..p }, p.treasury)),
    }
}

/// Replace the treasury; returns the previous one.
pub fn set_treasury_handler(platform_state: &mut PlatformState, accounts: &AdminUpdate, new_treasury: Pubkey) -> (r:
    Result<Pubkey, TendaError>)
    ensures
        config_outcome(
            spec_set_treasury_handler(*old(platform_state), *accounts, new_treasury),
            r,
            *old(platform_state),
            *final(platform_state),
        ),
{
    match check_admin(platform_state, accounts) {
        Err(x) => Err(x),
        Ok(()) => {
            let old_value = platform_state.treasury;
            platform_state.treasury = new_treasury;
            Ok(old_value)
        },
    }
}

} // verus!
