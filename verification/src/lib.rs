//! A small betting contract: the house keeps a balance, each player has a
//! recorded balance, and a bet of `token_amount` moves five percent of it
//! between the house and the player, depending on the outcome.
//!
//! The library holds the contract's decisions and their proofs. The host
//! side (storage, the address checker, the bank querier, serialisation)
//! hands the library plain values and stores what comes back.

pub mod contract;
pub mod error;
pub mod laws;
pub mod msg;
pub mod query;
pub mod ratio;
pub mod response;
pub mod state;
pub mod text;
