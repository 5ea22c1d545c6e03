//! Laws of the platform configuration.

use vstd::prelude::*;

use crate::constants::MAX_PLATFORM_FEE_BPS;
use crate::errors::TendaError;
use crate::instructions::admin::initialize_platform::{
    spec_initialize_platform, InitializePlatform, InitializePlatformArgs,
};
use crate::instructions::admin::set_approval_window::spec_set_approval_window_handler;
use crate::instructions::admin::set_dispute_admin::spec_set_dispute_admin_handler;
use crate::instructions::admin::set_fee_bps::spec_set_fee_bps_handler;
use crate::instructions::admin::set_grace_period::spec_set_grace_period_handler;
use crate::instructions::admin::set_protocol_admin::spec_set_protocol_admin_handler;
use crate::instructions::admin::set_treasury::spec_set_treasury_handler;
use crate::instructions::admin::AdminUpdate;
use crate::state::platform::{platform_wf, PlatformState};
use crate::state::pubkey::Pubkey;

verus! {

/// A configuration change, with its new value(s).
pub enum ConfigChange {
    ProtocolAdmin { new_admin: Pubkey },
    DisputeAdmin { new_admin: Pubkey },
    Treasury { new_treasury: Pubkey },
    FeeBps { fee_bps: u16, seeker_fee_bps: u16 },
    ApprovalWindow { seconds: i64 },
    GracePeriod { seconds: i64 },
}

/// The configuration after a change, or its error.
pub open spec fn spec_config_step(p: PlatformState, a: AdminUpdate, c: ConfigChange) -> Result<
    PlatformState,
    TendaError,
> {
    let r = match c {
        ConfigChange::ProtocolAdmin { new_admin } => match spec_set_protocol_admin_handler(
            p,
            a,
            new_admin,
        ) {
            Ok((q, _)) => Ok(q),
            Err(x) => Err(x),
        },
        ConfigChange::DisputeAdmin { new_admin } => match spec_set_dispute_admin_handler(
            p,
            a,
            new_admin,
        ) {
            Ok((q, _)) => Ok(q),
            Err(x) => Err(x),
        },
        ConfigChange::Treasury { new_treasury } => match spec_set_treasury_handler(
            p,
            a,
            new_treasury,
        ) {
            Ok((q, _)) => Ok(q),
            Err(x) => Err(x),
        },
        ConfigChange::FeeBps { fee_bps, seeker_fee_bps } => match spec_set_fee_bps_handler(
            p,
            a,
            fee_bps,
            seeker_fee_bps,
        ) {
            Ok((q, _)) => Ok(q),
            Err(x) => Err(x),
        },
        ConfigChange::ApprovalWindow { seconds } => match spec_set_approval_window_handler(
            p,
            a,
            seconds,
        ) {
            Ok((q, _)) => Ok(q),
            Err(x) => Err(x),
        },
        ConfigChange::GracePeriod { seconds } => match spec_set_grace_period_handler(p, a, seconds) {
            Ok((q, _)) => Ok(q),
            Err(x) => Err(x),
        },
    };
    r
}

/// An initialized platform satisfies the configuration invariant.
pub proof fn lemma_initialized_platform_wf(args: InitializePlatformArgs, a: InitializePlatform)
    ensures
        spec_initialize_platform(args, a) matches Ok(p) ==> platform_wf(p),
{
}

/// Every configuration change keeps the configuration invariant.
pub proof fn lemma_config_change_preserves_wf(p: PlatformState, a: AdminUpdate, c: ConfigChange)
    requires
        platform_wf(p),
    ensures
        spec_config_step(p, a, c) matches Ok(q) ==> platform_wf(q),
{
}

/// Only the protocol admin changes the configuration: any other signer is
/// refused with `NotProtocolAdmin`.
pub proof fn lemma_only_protocol_admin_configures(p: PlatformState, a: AdminUpdate, c: ConfigChange)
    requires
        a.protocol_admin != p.protocol_admin,
    ensures
        spec_config_step(p, a, c) == Err::<PlatformState, TendaError>(TendaError::NotProtocolAdmin),
{
}

/// A change never touches the volume counter or the bump, and
/// changes nothing but its own setting(s).
pub proof fn lemma_config_change_is_local(p: PlatformState, a: AdminUpdate, c: ConfigChange)
    requires
        spec_config_step(p, a, c) is Ok,
    ensures
        ({
            let q = spec_config_step(p, a, c)->Ok_0;
            &&& q.total_volume == p.total_volume
            &&& q.bump == p.bump
            &&& (!(c is ProtocolAdmin) ==> q.protocol_admin == p.protocol_admin)
            &&& (!(c is DisputeAdmin) ==> q.dispute_admin == p.dispute_admin)
            &&& (!(c is Treasury) ==> q.treasury == p.treasury)
            &&& (!(c is FeeBps) ==> q.fee_bps == p.fee_bps && q.seeker_fee_bps == p.seeker_fee_bps)
            &&& (!(c is ApprovalWindow) ==> q.approval_window_seconds == p.approval_window_seconds)
            &&& (!(c is GracePeriod) ==> q.grace_period_seconds == p.grace_period_seconds)
        }),
{
}

/// Under a well-formed configuration a seeker escrow never pays a higher
/// rate than a standard one, and no rate exceeds the cap.
pub proof fn lemma_seeker_rate_no_higher(p: PlatformState)
    requires
        platform_wf(p),
    ensures
        p.spec_effective_fee_bps(true) <= p.spec_effective_fee_bps(false),
        p.spec_effective_fee_bps(false) <= MAX_PLATFORM_FEE_BPS,
{
}

} // verus!
