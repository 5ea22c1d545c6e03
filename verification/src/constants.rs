use vstd::prelude::*;

verus! {

/// Hard ceiling on platform fee, in basis points (10%).
pub const MAX_PLATFORM_FEE_BPS: u16 = 1_000;

/// Minimum `approval_window_seconds` (1 hour).
pub const MIN_APPROVAL_WINDOW_SECONDS: i64 = 3_600;

/// Maximum `approval_window_seconds` (30 days).
pub const MAX_APPROVAL_WINDOW_SECONDS: i64 = 30 * 24 * 3_600;

/// Minimum `grace_period_seconds`; 0 means submission closes exactly at the
/// completion deadline.
pub const MIN_GRACE_PERIOD_SECONDS: i64 = 0;

/// Maximum `grace_period_seconds` (14 days).
pub const MAX_GRACE_PERIOD_SECONDS: i64 = 14 * 24 * 3_600;

/// Minimum completion duration (1 hour).
pub const MIN_COMPLETION_DURATION_SECONDS: i64 = 3_600;

/// Maximum completion duration (180 days).
pub const MAX_COMPLETION_DURATION_SECONDS: i64 = 180 * 24 * 3_600;

/// Minimum escrow amount (1 lamport / 1 token unit).
pub const MIN_ESCROW_AMOUNT: u64 = 1;

/// Basis-point denominator: 10_000 bps == 100%.
pub const BPS_DENOMINATOR: u64 = 10_000;

} // verus!
