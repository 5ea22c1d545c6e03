use vstd::prelude::*;

use crate::constants::{
    MAX_APPROVAL_WINDOW_SECONDS, MAX_GRACE_PERIOD_SECONDS, MAX_PLATFORM_FEE_BPS,
    MIN_APPROVAL_WINDOW_SECONDS, MIN_GRACE_PERIOD_SECONDS,
};
use crate::errors::TendaError;
use crate::state::platform::PlatformState;
use crate::state::pubkey::Pubkey;

verus! {

/// Initial platform configuration.
#[derive(Clone, Copy, Debug, PartialEq, Eq)]
pub struct InitializePlatformArgs {
    pub protocol_admin: Pubkey,
    pub dispute_admin: Pubkey,
    pub treasury: Pubkey,
    pub fee_bps: u16,
    pub seeker_fee_bps: u16,
    pub approval_window_seconds: i64,
    pub grace_period_seconds: i64,
}

/// Accounts of initialization, as the rules see them: the bump of the new
/// platform address.
#[derive(Clone, Copy, Debug, PartialEq, Eq)]
pub struct InitializePlatform {
    pub bump: u8,
}

/// Fee validation: the fee within the cap (`PlatformFeeTooHigh`), then the
/// seeker fee no larger than the fee (`SeekerFeeExceedsStandardFee`).
pub open spec fn spec_validate_fee_bps(fee_bps: u16, seeker_fee_bps: u16) -> Result<(), TendaError> {
    if fee_bps > MAX_PLATFORM_FEE_BPS {
        Err(TendaError::PlatformFeeTooHigh)
    } else if seeker_fee_bps > fee_bps {
        Err(TendaError::SeekerFeeExceedsStandardFee)
    } else {
        Ok(())
    }
}

/// Approval-window validation: within `[MIN, MAX]`.
pub open spec fn spec_validate_window(seconds: i64) -> Result<(), TendaError> {
    if MIN_APPROVAL_WINDOW_SECONDS <= seconds <= MAX_APPROVAL_WINDOW_SECONDS {
        Ok(())
    } else {
        Err(TendaError::ApprovalWindowOutOfRange)
    }
}

/// Grace-period validation: within `[MIN, MAX]`.
pub open spec fn spec_validate_grace(seconds: i64) -> Result<(), TendaError> {
    if MIN_GRACE_PERIOD_SECONDS <= seconds <= MAX_GRACE_PERIOD_SECONDS {
        Ok(())
    } else {
        Err(TendaError::GracePeriodOutOfRange)
    }
}

/// Validates a fee pair.
pub fn validate_fee_bps(fee_bps: u16, seeker_fee_bps: u16) -> (r: Result<(), TendaError>)
    ensures
        r == spec_validate_fee_bps(fee_bps, seeker_fee_bps),
{
    if !(fee_bps <= MAX_PLATFORM_FEE_BPS) {
        return Err(TendaError::PlatformFeeTooHigh);
    }
    if !(seeker_fee_bps <= fee_bps) {
        return Err(TendaError::SeekerFeeExceedsStandardFee);
    }
    Ok(())
}

/// Validates an approval window.
pub fn validate_window(seconds: i64) -> (r: Result<(), TendaError>)
    ensures
        r == spec_validate_window(seconds),
{
    if !(MIN_APPROVAL_WINDOW_SECONDS <= seconds && seconds <= MAX_APPROVAL_WINDOW_SECONDS) {
        return Err(TendaError::ApprovalWindowOutOfRange);
    }
    Ok(())
}

/// Validates a grace period.
pub fn validate_grace(seconds: i64) -> (r: Result<(), TendaError>)
    ensures
        r == spec_validate_grace(seconds),
{
    if !(MIN_GRACE_PERIOD_SECONDS <= seconds && seconds <= MAX_GRACE_PERIOD_SECONDS) {
        return Err(TendaError::GracePeriodOutOfRange);
    }
    Ok(())
}

/// Initialization: fees, then window, then grace validate; the platform holds
/// the arguments, a zero volume and the bump.
pub open spec fn spec_initialize_platform(args: InitializePlatformArgs, a: InitializePlatform) -> Result<
    PlatformState,
    TendaError,
> {
    match spec_validate_fee_bps(args.fee_bps, args.seeker_fee_bps) {
        Err(x) => Err(x),
        Ok(_) => match spec_validate_window(args.approval_window_seconds) {
            Err(x) => Err(x),
            Ok(_) => match spec_validate_grace(args.grace_period_seconds) {
                Err(x) => Err(x),
                Ok(_) => Ok(
                    PlatformState {
                        protocol_admin: args.protocol_admin,
                        dispute_admin: args.dispute_admin,
                        treasury: args.treasury,
                        fee_bps: args.fee_bps,
                        seeker_fee_bps: args.seeker_fee_bps,
                        approval_window_seconds: args.approval_window_seconds,
                        grace_period_seconds: args.grace_period_seconds,
                        total_volume: 0,
                        bump: a.bump,
                    },
                ),
            },
        },
    }
}

/// Set up the platform configuration.
pub fn initialize_platform_handler(args: &InitializePlatformArgs, accounts: &InitializePlatform) -> (r:
    Result<PlatformState, TendaError>)
    ensures
        r == spec_initialize_platform(*args, *accounts),
{
    match validate_fee_bps(args.fee_bps, args.seeker_fee_bps) {
        Err(x) => {
            return Err(x);
        },
        Ok(()) => {},
    }
    match validate_window(args.approval_window_seconds) {
        Err(x) => {
            return Err(x);
        },
        Ok(()) => {},
    }
    match validate_grace(args.grace_period_seconds) {
        Err(x) => {
            return Err(x);
        },
        Ok(()) => {},
    }
    Ok(
        PlatformState {
            protocol_admin: args.protocol_admin,
            dispute_admin: args.dispute_admin,
            treasury: args.treasury,
            fee_bps: args.fee_bps,
            seeker_fee_bps: args.seeker_fee_bps,
            approval_window_seconds: args.approval_window_seconds,
            grace_period_seconds: args.grace_period_seconds,
            total_volume: 0,
            bump: accounts.bump,
        },
    )
}

} // verus!
