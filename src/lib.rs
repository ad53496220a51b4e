//! Accounting for a pooled escrow vault: simple-interest accrual, and the
//! initialize, deposit and withdraw transitions over a depositor's position
//! and the vault's running total of principal.

pub mod conservation;
pub mod error;
pub mod instructions;
pub mod interest;
pub mod state;

pub use error::VaultError;
pub use instructions::{deposit, initialize_vault, withdraw, Deposit, InitializeVault, Withdraw};
pub use interest::calculate_yield;
pub use state::{Identity, Position, VaultState};
