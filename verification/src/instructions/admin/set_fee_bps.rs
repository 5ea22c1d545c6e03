use vstd::prelude::*;

use crate::errors::TendaError;
use crate::state::platform::PlatformState;

use super::initialize_platform::{spec_validate_fee_bps, validate_fee_bps};
use super::{check_admin, config_outcome, spec_check_admin, AdminUpdate};

verus! {

/// Changing the fees: the signer is the protocol admin and the pair
/// validates; both fees are replaced and the result is the replaced pair
/// `(fee_bps, seeker_fee_bps)`.
pub open spec fn spec_set_fee_bps_handler(
    p: PlatformState,
    a: AdminUpdate,
    fee_bps: u16,
    seeker_fee_bps: u16,
) -> Result<(PlatformState, (u16, u16)), TendaError> {
    match spec_check_admin(p, a) {
        Err(x) => Err(x),
        Ok(_) => match spec_validate_fee_bps(fee_bps, seeker_fee_bps) {
            Err(x) => Err(x),
            Ok(_) => Ok(
                (
                    PlatformState { fee_bps, seeker_fee_bps, ..p },
                    (p.fee_bps, p.seeker_fee_bps),
                ),
            ),
        },
    }
}

/// Change the standard and seeker fees; returns the previous pair.
pub fn set_fee_bps_handler(
    platform_state: &mut PlatformState,
    accounts: &AdminUpdate,
    fee_bps: u16,
    seeker_fee_bps: u16,
) -> (r: Result<(u16, u16), TendaError>)
    ensures
        config_outcome(
            spec_set_fee_bps_handler(*old(platform_state), *accounts, fee_bps, seeker_fee_bps),
            r,
            *old(platform_state),
            *final(platform_state),
        ),
{
    match check_admin(platform_state, accounts) {
        Err(x) => {
            return Err(x);
        },
        Ok(()) => {},
    }
    match validate_fee_bps(fee_bps, seeker_fee_bps) {
        Err(x) => {
            return Err(x);
        },
        Ok(()) => {},
    }
    let old_fee = platform_state.fee_bps;
    let old_seeker = platform_state.seeker_fee_bps;
    platform_state.fee_bps = fee_bps;
    platform_state.seeker_fee_bps = seeker_fee_bps;
    Ok((old_fee, old_seeker))
}

} // verus!
