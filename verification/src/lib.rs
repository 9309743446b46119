//! Bonding-curve market maker for a token-launch platform.
//!
//! The crate is the pricing and state-machine core: reserve bookkeeping,
//! cost and proceeds computation, fee extraction, completion-threshold
//! detection, and the create/buy/sell/withdraw lifecycle, all in checked
//! integer arithmetic. The surrounding ledger (account storage, signature
//! checks, token transfers, the clock) is an external collaborator: every
//! handler takes plain values for what the ledger proved and returns the
//! transfer requests the ledger must perform atomically.

pub mod account;
pub mod error;
pub mod events;
pub mod instructions;
pub mod lifecycle;
pub mod pricing;
pub mod requests;
pub mod state;
