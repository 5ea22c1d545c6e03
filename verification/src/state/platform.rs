use vstd::prelude::*;

use crate::constants::{
    MAX_APPROVAL_WINDOW_SECONDS, MAX_GRACE_PERIOD_SECONDS, MAX_PLATFORM_FEE_BPS,
    MIN_APPROVAL_WINDOW_SECONDS, MIN_GRACE_PERIOD_SECONDS,
};
use crate::state::pubkey::Pubkey;

verus! {

/// Singleton platform configuration.
///
/// `protocol_admin` changes configuration; `dispute_admin` only resolves
/// disputes.
#[derive(Clone, Copy, Debug, PartialEq, Eq)]
pub struct PlatformState {
    pub protocol_admin: Pubkey,
    pub dispute_admin: Pubkey,
    pub treasury: Pubkey,
    pub fee_bps: u16,
    pub seeker_fee_bps: u16,
    pub approval_window_seconds: i64,
    pub grace_period_seconds: i64,
    /// Analytics only; never gates logic.
    pub total_volume: u64,
    pub bump: u8,
}

/// Size in bytes of a platform account of the current layout
/// (discriminator, three keys, two fees, three 8-byte fields, bump).
pub const PLATFORM_STATE_LEN: usize = 8 + 32 * 3 + 2 * 2 + 8 * 3 + 1;

/// The configuration invariant: fee within the cap, seeker fee no larger
/// than the standard fee, windows within their ranges.
pub open spec fn platform_wf(p: PlatformState) -> bool {
    &&& p.fee_bps <= MAX_PLATFORM_FEE_BPS
    &&& p.seeker_fee_bps <= p.fee_bps
    &&& MIN_APPROVAL_WINDOW_SECONDS <= p.approval_window_seconds <= MAX_APPROVAL_WINDOW_SECONDS
    &&& MIN_GRACE_PERIOD_SECONDS <= p.grace_period_seconds <= MAX_GRACE_PERIOD_SECONDS
}

impl PlatformState {
    /// The fee rate that applies to an escrow.
    pub open spec fn spec_effective_fee_bps(&self, is_seeker: bool) -> u16 {
        if is_seeker {
            self.seeker_fee_bps
        } else {
            self.fee_bps
        }
    }

    /// The seeker rate for seeker escrows, the standard rate otherwise.
    pub fn effective_fee_bps(&self, is_seeker: bool) -> (r: u16)
        ensures
            r == self.spec_effective_fee_bps(is_seeker),
    {
        if is_seeker {
            self.seeker_fee_bps
        } else {
            self.fee_bps
        }
    }
}

} // verus!
