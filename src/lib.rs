//! Staking-rewards ledger: record model, authorization checks, reward accrual
//! and the decisions behind the two ledger operations.
pub mod accounts;
pub mod claim_rewards;
pub mod create_central_state;
pub mod error;
pub mod rewards;
pub mod solana;
pub mod state;
