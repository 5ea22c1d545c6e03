//! User ledger instructions: opening a ledger, the gas-subsidy airdrop
//! (single and batched) and withdrawing.

pub mod airdrop_gas_subsidy;
pub mod batch_airdrop_gas_subsidy;
pub mod create_user_account;
pub mod withdraw_earnings;
