use vstd::prelude::*;

use crate::errors::TendaError;
use crate::state::platform::PlatformState;
use crate::state::pubkey::Pubkey;

use super::{check_admin, config_outcome, spec_check_admin, AdminUpdate};

verus! {

/// Replacing the protocol admin: the signer is the protocol admin; the protocol admin becomes
/// `new_admin` and the result is the replaced value.
pub open spec fn spec_set_protocol_admin_handler(p: PlatformState, a: AdminUpdate, new_admin: Pubkey) -> Result<
    (PlatformState, Pubkey),
    TendaError,
> {
    match spec_check_admin(p, a) {
        Err(x) => Err(x),
        Ok(_) => Ok((PlatformState { protocol_admin: new_admin, ..p }, p.protocol_admin)),
    }
}

/// Replace the protocol admin; returns the previous one.
pub fn set_protocol_admin_handler(platform_state: &mut PlatformState, accounts: &AdminUpdate, new_admin: Pubkey) -> (r:
    Result<Pubkey, TendaError>)
    ensures
        config_outcome(
            spec_set_protocol_admin_handler(*old(platform_state), *accounts, new_admin),
            r,
            *old(platform_state),
            *final(platform_state),
        ),
{
    match check_admin(platform_state, accounts) {
        Err(x) => Err(x),
        Ok(()) => {
            let old_value = platform_state.protocol_admin;
            platform_state.protocol_admin = new_admin;
            Ok(old_value)
        },
    }
}

} // verus!
