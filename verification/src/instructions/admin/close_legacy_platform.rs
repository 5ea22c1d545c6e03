//! Closing a stale platform account of an older layout at the platform
//! address, so that initialization can create it anew.
//!
//! The one guard that matters is the size: an account of the current layout
//! is exactly `PLATFORM_STATE_LEN` bytes and can never be closed this way,
//! whoever signs. The instruction is permissionless; draining and
//! reassigning the account is the caller's work.

use vstd::prelude::*;

use crate::errors::TendaError;
use crate::instructions::require;
use crate::state::platform::PLATFORM_STATE_LEN;

verus! {

/// The account at the platform address, as the rule sees it.
#[derive(Clone, Copy, Debug, PartialEq, Eq)]
pub struct CloseLegacyPlatform {
    /// Whether this program owns the account.
    pub owned_by_program: bool,
    /// The account's data length in bytes.
    pub data_len: usize,
}

/// The account may be closed only when this program owns it and its size is
/// not that of the current layout; otherwise `PlatformLayoutCurrent`.
pub open spec fn spec_close_legacy_platform(a: CloseLegacyPlatform) -> Result<(), TendaError> {
    require(a.owned_by_program && a.data_len != PLATFORM_STATE_LEN, TendaError::PlatformLayoutCurrent)
}

/// Decide whether the account at the platform address may be closed.
pub fn close_legacy_platform_handler(accounts: &CloseLegacyPlatform) -> (r: Result<(), TendaError>)
    ensures
        r == spec_close_legacy_platform(*accounts),
{
    if !accounts.owned_by_program {
        return Err(TendaError::PlatformLayoutCurrent);
    }
    if accounts.data_len == PLATFORM_STATE_LEN {
        return Err(TendaError::PlatformLayoutCurrent);
    }
    Ok(())
}

} // verus!
