//! State transitions that move an escrow forward.
//!
//! - `accept` / `decline` / `submit` change state only (no funds).
//! - `approve` / `claim_stalled` settle to the counterparty with a platform fee.
//! - `reclaim` refunds the creator when the counterparty went silent past grace.

pub mod accept;
pub mod approve;
pub mod claim_stalled;
pub mod decline;
pub mod reclaim;
pub mod settlement_accounts;
pub mod submit;

pub use settlement_accounts::{
    compute_fee, EscrowMutation, Payout, SettleSol, SettleSpl, TokenAccountKeys,
};
