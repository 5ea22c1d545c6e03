//! Escrow creation and the creator-initiated unwinds (cancel, refund after
//! the accept deadline). SOL and token paths differ only in which accounts
//! they check.

pub mod cancel;
pub mod create_sol;
pub mod create_spl;
pub mod refund_expired;
pub mod shared;

pub use cancel::{CancelSol, CancelSpl};
pub use create_sol::CreateEscrowSol;
pub use create_spl::CreateEscrowSpl;
pub use shared::CreateEscrowArgs;
