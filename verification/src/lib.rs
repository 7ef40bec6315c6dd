//! A hash-time-locked escrow engine for cross-chain atomic swaps.
//!
//! A creator locks an amount of a token under a SHA-256 commitment and a
//! deadline. Before the deadline, whoever reveals the secret behind the
//! commitment releases the funds to the beneficiary; from the deadline on,
//! anyone may send them back to the creator. Each escrow pays out once.

pub mod commitment;
pub mod creator;
pub mod engine;
pub mod guarantees;
pub mod history;
pub mod ledger;
pub mod record;
pub mod resolver;
pub mod store;
pub mod taker;
pub mod transition;
