use vstd::prelude::*;

use crate::constants::BPS_DENOMINATOR;
use crate::errors::TendaError;

verus! {

/// Platform fee of a payment at `fee_bps` basis points, computed in 128-bit
/// arithmetic (which cannot overflow for these operand widths), rounded down,
/// and narrowed to 64 bits by truncation.
pub fn calculate_platform_fee(payment_amount: u64, fee_bps: u16) -> (r: Result<u64, TendaError>)
    ensures
        r == Ok::<u64, TendaError>(((payment_amount * fee_bps) / 10_000int) as u64),
{
    let amount: u128 = payment_amount as u128;
    let bps: u128 = fee_bps as u128;
    assert(amount * bps <= u64::MAX * u16::MAX) by (nonlinear_arith)
        requires
            amount <= u64::MAX,
            bps <= u16::MAX,
    ;
    let product: u128 = match amount.checked_mul(bps) {
        Some(p) => p,
        None => {
            return Err(TendaError::ArithmeticOverflow);
        },
    };
    let fee: u128 = product / (BPS_DENOMINATOR as u128);
    Ok(fee as u64)
}

} // verus!
