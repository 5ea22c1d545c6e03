use vstd::prelude::*;

use crate::errors::TendaError;
use crate::state::platform::PlatformState;

use super::initialize_platform::{validate_grace, spec_validate_grace};
use super::{check_admin, config_outcome, spec_check_admin, AdminUpdate};

verus! {

/// Changing the grace period: the signer is the protocol admin and `seconds` is
/// within range; the grace period becomes `seconds` and the result is the replaced
/// value.
pub open spec fn spec_set_grace_period_handler(p: PlatformState, a: AdminUpdate, seconds: i64) -> Result<
    (PlatformState, i64),
    TendaError,
> {
    match spec_check_admin(p, a) {
        Err(x) => Err(x),
        Ok(_) => match spec_validate_grace(seconds) {
            Err(x) => Err(x),
            Ok(_) => Ok((PlatformState { grace_period_seconds: seconds, ..p }, p.grace_period_seconds)),
        },
    }
}

/// Change the grace period; returns the previous value.
pub fn set_grace_period_handler(platform_state: &mut PlatformState, accounts: &AdminUpdate, seconds: i64) -> (r: Result<
    i64,
    TendaError,
>)
    ensures
        config_outcome(
            spec_set_grace_period_handler(*old(platform_state), *accounts, seconds),
            r,
            *old(platform_state),
            *final(platform_state),
        ),
{
    match check_admin(platform_state, accounts) {
        Err(x) => {
            return Err(x);
        },
        Ok(()) => {},
    }
    match validate_grace(seconds) {
        Err(x) => {
            return Err(x);
        },
        Ok(()) => {},
    }
    let old_value = platform_state.grace_period_seconds;
    platform_state.grace_period_seconds = seconds;
    Ok(old_value)
}

} // verus!
