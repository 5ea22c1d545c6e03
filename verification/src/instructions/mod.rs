//! Instruction handlers. Each submodule owns one instruction's rules; the
//! `*_sol` / `*_spl` pairs differ only in which token-account checks run
//! before the shared rules.

pub mod admin;
pub mod dispute;
pub mod escrow_create;
pub mod escrow_state;
pub mod user;
pub mod vault;

use vstd::prelude::*;

use crate::errors::TendaError;
use crate::state::escrow::Escrow;

verus! {

/// How a handler that may change an escrow relates to its specification:
/// on success it returns the specified value and leaves the specified
/// escrow; on failure it returns the specified error and leaves the escrow
/// as it was.
pub open spec fn transition_outcome<T>(
    expected: Result<(Escrow, T), TendaError>,
    r: Result<T, TendaError>,
    before: Escrow,
    after: Escrow,
) -> bool {
    match expected {
        Ok((e, v)) => r == Ok::<T, TendaError>(v) && after == e,
        Err(x) => r == Err::<T, TendaError>(x) && after == before,
    }
}

/// `Ok` when `cond` holds, else the given error.
pub open spec fn require(cond: bool, err: TendaError) -> Result<(), TendaError> {
    if cond {
        Ok(())
    } else {
        Err(err)
    }
}

} // verus!
