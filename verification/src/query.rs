//! Answers to queries. The host performs the reads that a query plan names
//! (storage, the bank) and the functions here turn what was read into the
//! answer.

use vstd::prelude::*;
use vstd::string::*;

use crate::contract::stake_denom;
use crate::msg::{ConfigResponse, GetBalanceResponse, QueryMsg, UserBalanceResponse};
use crate::response::Coin;
use crate::state::Config;

verus! {

/// A request to the bank for the balance of `address` in `denom`.
#[derive(Debug, PartialEq, Eq)]
pub struct BalanceRequest {
    pub address: String,
    pub denom: String,
}

/// What must be read to answer a query.
#[derive(Debug, PartialEq, Eq)]
pub enum QueryPlan {
    /// Load the house's configuration, then answer with `query_config`.
    LoadConfig,
    /// Check `user` as an address, load its recorded balance, then answer
    /// with `query_user_balance`.
    LoadUserBalance { user: String },
    /// Ask the bank, then answer with `query_balance`.
    AskBank { request: BalanceRequest },
}

/// The answer to a configuration query, given the loaded configuration.
pub open spec fn config_answer(config: Config) -> ConfigResponse {
    ConfigResponse { balance: config.balance }
}

/// The balance that a user-balance query reports for a recorded balance:
/// zero where nothing is recorded.
pub open spec fn recorded_or_zero(recorded: Option<u128>) -> u128 {
    match recorded {
        Some(b) => b,
        None => 0,
    }
}

/// The bank request for the balance of `address` in the stake denomination.
pub fn balance_request(address: String) -> (r: BalanceRequest)
    ensures
        r.address@ == address@,
        r.denom@ == stake_denom(),
{
    BalanceRequest { address, denom: String::from_str("ustars") }
}

/// Decides what a query reads.
pub fn query(msg: &QueryMsg) -> (plan: QueryPlan)
    ensures
        match msg {
            QueryMsg::Config {} => plan is LoadConfig,
            QueryMsg::UserBalance { user } => plan matches QueryPlan::LoadUserBalance { user: u }
                && u@ == user@,
            QueryMsg::GetBalance { address } => plan matches QueryPlan::AskBank { request }
                && request.address@ == address@ && request.denom@ == stake_denom(),
        },
{
    match msg {
        QueryMsg::Config {} => QueryPlan::LoadConfig,
        QueryMsg::UserBalance { user } => QueryPlan::LoadUserBalance { user: user.clone() },
        QueryMsg::GetBalance { address } => QueryPlan::AskBank {
            request: balance_request(address.clone()),
        },
    }
}

/// Answers a configuration query from the loaded configuration.
pub fn query_config(config: &Config) -> (r: ConfigResponse)
    ensures
        r == config_answer(*config),
{
    ConfigResponse { balance: config.balance }
}

/// Answers a user-balance query for `user`, given the balance recorded for
/// it (`None` where nothing is recorded).
pub fn query_user_balance(user: String, recorded: Option<u128>) -> (r: UserBalanceResponse)
    ensures
        r.user@ == user@,
        r.balance == recorded_or_zero(recorded),
{
    let balance = match recorded {
        Some(b) => b,
        None => 0,
    };
    UserBalanceResponse { user, balance }
}

/// Answers a bank-balance query from the coin the bank reported.
pub fn query_balance(bank_balance: &Coin) -> (r: GetBalanceResponse)
    ensures
        r.balance == bank_balance.amount,
{
    GetBalanceResponse { balance: bank_balance.amount }
}

} // verus!
