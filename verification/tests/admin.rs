use tenda_escrow::errors::TendaError;
use tenda_escrow::instructions::admin::close_legacy_platform::{
    close_legacy_platform_handler, CloseLegacyPlatform,
};
use tenda_escrow::instructions::admin::initialize_platform::{
    initialize_platform_handler, validate_fee_bps, validate_grace, validate_window,
    InitializePlatform, InitializePlatformArgs,
};
use tenda_escrow::instructions::admin::{
    set_approval_window_handler, set_dispute_admin_handler, set_fee_bps_handler,
    set_grace_period_handler, set_protocol_admin_handler, set_treasury_handler, AdminUpdate,
};
use tenda_escrow::state::platform::{PlatformState, PLATFORM_STATE_LEN};
use tenda_escrow::state::pubkey::Pubkey;

fn key(n: u8) -> Pubkey {
    Pubkey::new_from_array([n; 32])
}

fn init_args() -> InitializePlatformArgs {
    InitializePlatformArgs {
        protocol_admin: key(1),
        dispute_admin: key(2),
        treasury: key(3),
        fee_bps: 200,
        seeker_fee_bps: 100,
        approval_window_seconds: 86_400,
        grace_period_seconds: 86_400,
    }
}

fn platform() -> PlatformState {
    initialize_platform_handler(&init_args(), &InitializePlatform { bump: 250 }).unwrap()
}

#[test]
fn initialize_stores_config() {
    let p = platform();
    assert_eq!(p.protocol_admin, key(1));
    assert_eq!(p.dispute_admin, key(2));
    assert_eq!(p.treasury, key(3));
    assert_eq!(p.fee_bps, 200);
    assert_eq!(p.seeker_fee_bps, 100);
    assert_eq!(p.total_volume, 0);
    assert_eq!(p.bump, 250);
    assert_eq!(p.effective_fee_bps(true), 100);
    assert_eq!(p.effective_fee_bps(false), 200);
}

#[test]
fn initialize_validation() {
    let b = InitializePlatform { bump: 0 };
    let mut a = init_args();
    a.fee_bps = 1_001;
    assert_eq!(initialize_platform_handler(&a, &b), Err(TendaError::PlatformFeeTooHigh));
    let mut a = init_args();
    a.seeker_fee_bps = 201;
    assert_eq!(initialize_platform_handler(&a, &b), Err(TendaError::SeekerFeeExceedsStandardFee));
    let mut a = init_args();
    a.approval_window_seconds = 3_599;
    assert_eq!(initialize_platform_handler(&a, &b), Err(TendaError::ApprovalWindowOutOfRange));
    let mut a = init_args();
    a.grace_period_seconds = -1;
    assert_eq!(initialize_platform_handler(&a, &b), Err(TendaError::GracePeriodOutOfRange));
}

#[test]
fn validation_bounds() {
    assert_eq!(validate_fee_bps(1_000, 1_000), Ok(()));
    assert_eq!(validate_fee_bps(1_001, 0), Err(TendaError::PlatformFeeTooHigh));
    assert_eq!(validate_window(3_600), Ok(()));
    assert_eq!(validate_window(30 * 24 * 3_600), Ok(()));
    assert_eq!(validate_window(30 * 24 * 3_600 + 1), Err(TendaError::ApprovalWindowOutOfRange));
    assert_eq!(validate_grace(0), Ok(()));
    assert_eq!(validate_grace(14 * 24 * 3_600), Ok(()));
    assert_eq!(validate_grace(14 * 24 * 3_600 + 1), Err(TendaError::GracePeriodOutOfRange));
}

#[test]
fn setters_return_old_values() {
    let mut p = platform();
    let admin = AdminUpdate { protocol_admin: key(1) };
    assert_eq!(set_fee_bps_handler(&mut p, &admin, 300, 0), Ok((200, 100)));
    assert_eq!((p.fee_bps, p.seeker_fee_bps), (300, 0));
    assert_eq!(set_approval_window_handler(&mut p, &admin, 7_200), Ok(86_400));
    assert_eq!(p.approval_window_seconds, 7_200);
    assert_eq!(set_grace_period_handler(&mut p, &admin, 0), Ok(86_400));
    assert_eq!(p.grace_period_seconds, 0);
    assert_eq!(set_treasury_handler(&mut p, &admin, key(9)), Ok(key(3)));
    assert_eq!(p.treasury, key(9));
    assert_eq!(set_dispute_admin_handler(&mut p, &admin, key(8)), Ok(key(2)));
    assert_eq!(p.dispute_admin, key(8));
    assert_eq!(set_protocol_admin_handler(&mut p, &admin, key(7)), Ok(key(1)));
    assert_eq!(p.protocol_admin, key(7));
    // the old admin is no longer accepted
    assert_eq!(set_treasury_handler(&mut p, &admin, key(3)), Err(TendaError::NotProtocolAdmin));
}

#[test]
fn setters_refuse_non_admin_and_bad_values() {
    let mut p = platform();
    let before = p;
    let dispute_admin = AdminUpdate { protocol_admin: key(2) };
    assert_eq!(set_fee_bps_handler(&mut p, &dispute_admin, 100, 0), Err(TendaError::NotProtocolAdmin));
    let admin = AdminUpdate { protocol_admin: key(1) };
    assert_eq!(set_fee_bps_handler(&mut p, &admin, 100, 101), Err(TendaError::SeekerFeeExceedsStandardFee));
    assert_eq!(set_approval_window_handler(&mut p, &admin, 0), Err(TendaError::ApprovalWindowOutOfRange));
    assert_eq!(set_grace_period_handler(&mut p, &admin, -5), Err(TendaError::GracePeriodOutOfRange));
    assert_eq!(p, before);
}

#[test]
fn legacy_platform_close_guard() {
    assert_eq!(PLATFORM_STATE_LEN, 133);
    assert_eq!(
        close_legacy_platform_handler(&CloseLegacyPlatform { owned_by_program: true, data_len: 133 }),
        Err(TendaError::PlatformLayoutCurrent)
    );
    assert_eq!(
        close_legacy_platform_handler(&CloseLegacyPlatform { owned_by_program: false, data_len: 90 }),
        Err(TendaError::PlatformLayoutCurrent)
    );
    assert_eq!(close_legacy_platform_handler(&CloseLegacyPlatform { owned_by_program: true, data_len: 90 }), Ok(()));
}
