//! Platform configuration instructions.
//!
//! Every `set_*` is gated on `protocol_admin`. `dispute_admin` only resolves
//! disputes and never changes configuration; it is rotated through
//! `set_dispute_admin` by the protocol admin.

pub mod close_legacy_platform;
pub mod initialize_platform;
pub mod set_approval_window;
pub mod set_dispute_admin;
pub mod set_fee_bps;
pub mod set_grace_period;
pub mod set_protocol_admin;
pub mod set_treasury;

pub use close_legacy_platform::close_legacy_platform_handler;
pub use initialize_platform::{initialize_platform_handler, InitializePlatformArgs};
pub use set_approval_window::set_approval_window_handler;
pub use set_dispute_admin::set_dispute_admin_handler;
pub use set_fee_bps::set_fee_bps_handler;
pub use set_grace_period::set_grace_period_handler;
pub use set_protocol_admin::set_protocol_admin_handler;
pub use set_treasury::set_treasury_handler;

use vstd::prelude::*;

use crate::errors::TendaError;
use crate::instructions::require;
use crate::state::platform::PlatformState;
use crate::state::pubkey::{key_eq, Pubkey};

verus! {

/// Accounts of a configuration change: the signing protocol admin.
#[derive(Clone, Copy, Debug, PartialEq, Eq)]
pub struct AdminUpdate {
    pub protocol_admin: Pubkey,
}

/// The signer must be the platform's current protocol admin.
pub open spec fn spec_check_admin(p: PlatformState, a: AdminUpdate) -> Result<(), TendaError> {
    require(a.protocol_admin == p.protocol_admin, TendaError::NotProtocolAdmin)
}

/// Checks that the signer is the platform's protocol admin.
pub fn check_admin(platform_state: &PlatformState, accounts: &AdminUpdate) -> (r: Result<
    (),
    TendaError,
>)
    ensures
        r == spec_check_admin(*platform_state, *accounts),
{
    if !key_eq(&accounts.protocol_admin, &platform_state.protocol_admin) {
        return Err(TendaError::NotProtocolAdmin);
    }
    Ok(())
}

/// How a configuration handler relates to its specification: on success it
/// returns the specified value (the replaced setting) and leaves the
/// specified configuration; on failure it returns the specified error and
/// leaves the configuration as it was.
pub open spec fn config_outcome<T>(
    expected: Result<(PlatformState, T), TendaError>,
    r: Result<T, TendaError>,
    before: PlatformState,
    after: PlatformState,
) -> bool {
    match expected {
        Ok((p, v)) => r == Ok::<T, TendaError>(v) && after == p,
        Err(x) => r == Err::<T, TendaError>(x) && after == before,
    }
}

} // verus!
