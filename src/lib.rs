//! A hashed-timelock escrow ledger.
//!
//! Value is locked under a commitment (the hash of a secret). Whoever presents
//! the commitment may claim it once; after the timelock has run out, anyone may
//! send an unclaimed deposit back to the account that funded it.

mod contract;
mod deposits;
pub mod laws;
mod types;

pub use contract::{opened, timelock_expired, Contract, STORAGE_COST, TIMELOCK_DURATION};
pub use deposits::Deposits;
pub use types::{DepositInfo, EscrowError, Transfer};
