//! Dispute lifecycle.
//!
//! Bond economics:
//!   * Raiser wins  -> bond refunded to the raiser, escrow distributed per winner.
//!   * Raiser loses -> bond forfeited to the other party (not the treasury).
//!   * Split        -> bond refunded to the raiser, principal split in halves.

pub mod raise;
pub mod resolve;

pub use raise::{DisputeSol, DisputeSpl};
pub use resolve::{Distribution, ResolveSol, ResolveSpl};
