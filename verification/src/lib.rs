//! Tenda escrow: the rules of a single-escrow payment program, as verified
//! state transitions.
//!
//! Every instruction of the program is a function from the accounts it reads
//! (held here as plain values) to either an error of [`errors::TendaError`]
//! or the new account state together with the funds that must move. The
//! Solana runtime work itself (clock reads, transfers, events) is done by the
//! caller around these functions.

pub mod configuration;
pub mod constants;
pub mod errors;
pub mod instructions;
pub mod lifecycle;
pub mod outcomes;
pub mod state;
pub mod utils;
