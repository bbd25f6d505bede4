//! The messages the contract accepts and the answers to its queries.

use vstd::prelude::*;

verus! {

/// Sets up the contract with the house balance `balance`.
#[derive(Debug, Clone, Copy, PartialEq, Eq, Structural)]
pub struct InstantiateMsg {
    pub balance: u128,
}

/// The calls that change the contract's state.
#[derive(Debug, Clone, Copy, PartialEq, Eq, Structural)]
pub enum ExecuteMsg {
    /// A bet of `token_amount`; `is_success` tells whether the player won.
    Gambled { token_amount: u128, is_success: bool },
}

/// The questions the contract answers.
#[derive(Debug, PartialEq, Eq)]
pub enum QueryMsg {
    /// The house's configuration.
    Config {},
    /// The balance recorded for `user`.
    UserBalance { user: String },
    /// The bank balance of `address` in the stake denomination.
    GetBalance { address: String },
}

/// The answer to `QueryMsg::Config`.
#[derive(Debug, Clone, Copy, PartialEq, Eq, Structural)]
pub struct ConfigResponse {
    pub balance: u128,
}

/// The answer to `QueryMsg::UserBalance`.
#[derive(Debug, PartialEq, Eq)]
pub struct UserBalanceResponse {
    pub user: String,
    pub balance: u128,
}

/// The answer to `QueryMsg::GetBalance`.
#[derive(Debug, Clone, Copy, PartialEq, Eq, Structural)]
pub struct GetBalanceResponse {
    pub balance: u128,
}

} // verus!
