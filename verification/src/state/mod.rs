//! Account state: escrows, the platform singleton and user ledgers.

pub mod escrow;
pub mod platform;
pub mod pubkey;
pub mod user;

pub use escrow::{DisputeWinner, Escrow, EscrowKind, EscrowStatus};
pub use platform::PlatformState;
pub use pubkey::Pubkey;
pub use user::UserAccount;
