//! The contract's entry points: instantiation and bets.

use vstd::prelude::*;
use vstd::string::*;

use crate::error::ContractError;
use crate::msg::{ExecuteMsg, InstantiateMsg};
use crate::ratio::{reward_for, reward_of};
use crate::response::{
    attr, coins, BankMsg, BankMsgView, Coin, CoinView, MessageInfo, Response, ResponseView,
};
use crate::state::Config;
use crate::text::{amount_to_string, decimal};

verus! {

/// The denomination that bets are made and paid in.
pub open spec fn stake_denom() -> Seq<char> {
    "ustars"@
}

/// The coins of `funds` in denomination `denom`, in their order.
pub open spec fn coins_of_denom(funds: Seq<Coin>, denom: Seq<char>) -> Seq<Coin>
    decreases funds.len(),
{
    if funds.len() == 0 {
        Seq::empty()
    } else {
        let rest = coins_of_denom(funds.drop_last(), denom);
        if funds.last().denom@ == denom {
            rest.push(funds.last())
        } else {
            rest
        }
    }
}

/// Whether a player sent stake along with a bet: the first coin of the
/// stake denomination among `funds` exists and is not zero.
pub open spec fn stake_sent(funds: Seq<Coin>) -> bool {
    let sent = coins_of_denom(funds, stake_denom());
    sent.len() > 0 && sent[0].amount > 0
}

/// Why a bet is refused, if it is. `house` is the house balance and
/// `player` the player's balance as the bank reports it when the bet comes.
pub open spec fn gamble_refusal(
    house: u128,
    player: u128,
    funds: Seq<Coin>,
    token_amount: u128,
    is_success: bool,
) -> Option<ContractError> {
    let reward = reward_of(token_amount);
    if is_success {
        if house <= reward {
            Some(ContractError::InsufficientAdminFunds)
        } else {
            None
        }
    } else {
        if player <= reward || !stake_sent(funds) {
            Some(ContractError::InsufficientFunds)
        } else {
            None
        }
    }
}

/// The house balance after a bet that was not refused.
pub open spec fn house_after(house: u128, token_amount: u128, is_success: bool) -> int {
    if is_success {
        house - reward_of(token_amount)
    } else {
        house + reward_of(token_amount)
    }
}

/// The player's recorded balance after a bet that was not refused.
pub open spec fn player_after(player: u128, token_amount: u128, is_success: bool) -> int {
    if is_success {
        player + reward_of(token_amount)
    } else {
        player - reward_of(token_amount)
    }
}

/// The inputs on which a bet that is not refused would overflow a balance
/// (the original arithmetic panics there).
pub open spec fn gamble_overflows(
    house: u128,
    player: u128,
    funds: Seq<Coin>,
    token_amount: u128,
    is_success: bool,
) -> bool {
    &&& gamble_refusal(house, player, funds, token_amount, is_success) is None
    &&& (house_after(house, token_amount, is_success) > u128::MAX
        || player_after(player, token_amount, is_success) > u128::MAX)
}

/// The response to a won bet: the reward is sent to the player.
pub open spec fn win_response(player: Seq<char>, reward: int, new_balance: int) -> ResponseView {
    ResponseView {
        messages: seq![
            BankMsgView::Send {
                to_address: player,
                amount: seq![CoinView { denom: stake_denom(), amount: reward as u128 }],
            },
        ],
        attributes: seq![
            attr("action"@, "withdraw_loose"@),
            attr("reciever"@, player),
            attr("amount"@, decimal(new_balance as nat)),
        ],
    }
}

/// The response to a lost bet: nothing is sent.
pub open spec fn loss_response(player: Seq<char>, new_balance: int) -> ResponseView {
    ResponseView {
        messages: Seq::empty(),
        attributes: seq![
            attr("action"@, "deposit_win"@),
            attr("winner"@, player),
            attr("amount"@, decimal(new_balance as nat)),
        ],
    }
}

/// The response to an instantiation.
pub open spec fn instantiate_response(balance: u128) -> ResponseView {
    ResponseView {
        messages: Seq::empty(),
        attributes: seq![attr("action"@, "instantiate"@), attr("balance"@, decimal(balance as nat))],
    }
}

/// What a bet that was not refused leaves behind: the house's new state,
/// the player's new recorded balance, and the response.
#[derive(Debug, PartialEq, Eq)]
pub struct GambleOutcome {
    pub config: Config,
    pub player_balance: u128,
    pub response: Response,
}

/// Sets up the contract: the house starts with `msg.balance`.
pub fn instantiate(msg: &InstantiateMsg) -> (res: (Config, Response))
    ensures
        res.0.balance == msg.balance,
        res.1@ == instantiate_response(msg.balance),
{
    let config = Config { balance: msg.balance };
    let response = Response::new()
        .add_attribute("action", String::from_str("instantiate"))
        .add_attribute("balance", amount_to_string(config.balance));
    assert(response@.messages =~= instantiate_response(msg.balance).messages);
    assert(response@.attributes =~= instantiate_response(msg.balance).attributes);
    (config, response)
}

/// The coins of `funds` in denomination `denom`, in their order.
pub fn coins_of(funds: &Vec<Coin>, denom: &String) -> (sent: Vec<Coin>)
    ensures
        sent@ == coins_of_denom(funds@, denom@),
{
    let mut sent: Vec<Coin> = Vec::new();
    let n = funds.len();
    for i in 0..n
        invariant
            n == funds@.len(),
            sent@ == coins_of_denom(funds@.take(i as int), denom@),
    {
        assert(funds@.take(i + 1).drop_last() =~= funds@.take(i as int));
        assert(funds@.take(i + 1).last() == funds@[i as int]);
        if funds[i].denom == *denom {
            sent.push(funds[i].clone());
        }
    }
    assert(funds@.take(n as int) =~= funds@);
    sent
}

/// Whether `funds` carry stake: the first coin of the stake denomination
/// exists and is not zero.
pub fn stake_was_sent(funds: &Vec<Coin>) -> (sent: bool)
    ensures
        sent == stake_sent(funds@),
{
    let stake = coins_of(funds, &String::from_str("ustars"));
    stake.len() > 0 && stake[0].amount > 0
}

/// Whether settling this bet would overflow a balance, which
/// `execute_gambled` does not accept (the original arithmetic panics there).
pub fn bet_would_overflow(
    config: &Config,
    info: &MessageInfo,
    player_balance: u128,
    token_amount: u128,
    is_success: bool,
) -> (overflows: bool)
    ensures
        overflows == gamble_overflows(config.balance, player_balance, info.funds@, token_amount, is_success),
        is_success ==> (overflows <==> (config.balance > reward_of(token_amount)
            && player_balance + reward_of(token_amount) > u128::MAX)),
        !is_success ==> (overflows <==> (player_balance > reward_of(token_amount)
            && stake_sent(info.funds@)
            && config.balance + reward_of(token_amount) > u128::MAX)),
{
    let reward = reward_for(token_amount);
    if is_success {
        config.balance > reward && player_balance > u128::MAX - reward
    } else {
        player_balance > reward && stake_was_sent(&info.funds) && config.balance > u128::MAX - reward
    }
}

/// Settles a bet of `token_amount` made by `info.sender`. `config` is the
/// house's state and `player_balance` the player's balance as the bank
/// reported it when the bet came in (it becomes the player's recorded
/// balance). A win pays five percent of the stake from the house to the
/// player; a loss moves it from the player's record to the house.
pub fn execute_gambled(
    config: &Config,
    info: &MessageInfo,
    player_balance: u128,
    token_amount: u128,
    is_success: bool,
) -> (res: Result<GambleOutcome, ContractError>)
    requires
        !gamble_overflows(config.balance, player_balance, info.funds@, token_amount, is_success),
    ensures
        res is Err <==> gamble_refusal(
            config.balance,
            player_balance,
            info.funds@,
            token_amount,
            is_success,
        ) is Some,
        res matches Err(e) ==> gamble_refusal(
            config.balance,
            player_balance,
            info.funds@,
            token_amount,
            is_success,
        ) == Some(e),
        res matches Ok(out) ==> {
            &&& out.config.balance == house_after(config.balance, token_amount, is_success)
            &&& out.player_balance == player_after(player_balance, token_amount, is_success)
            &&& out.response@ == if is_success {
                win_response(info.sender@, reward_of(token_amount), out.player_balance as int)
            } else {
                loss_response(info.sender@, out.player_balance as int)
            }
            // what one side gains, the other loses
            &&& out.config.balance + out.player_balance == config.balance + player_balance
        },
        // a won bet is refused only when the house cannot pay the reward,
        // whatever the player's balance and funds
        is_success ==> (res is Err <==> config.balance <= reward_of(token_amount)),
        is_success ==> (res matches Err(e) ==> e == ContractError::InsufficientAdminFunds),
        // a lost bet is refused only when the player's balance does not exceed
        // the reward or no stake was sent, whatever the house balance
        !is_success ==> (res is Err <==> (player_balance <= reward_of(token_amount)
            || !stake_sent(info.funds@))),
        !is_success ==> (res matches Err(e) ==> e == ContractError::InsufficientFunds),
        res matches Ok(out) ==> is_success ==> {
            &&& out.config.balance == config.balance - reward_of(token_amount)
            &&& out.player_balance == player_balance + reward_of(token_amount)
        },
        res matches Ok(out) ==> !is_success ==> {
            &&& out.config.balance == config.balance + reward_of(token_amount)
            &&& out.player_balance == player_balance - reward_of(token_amount)
        },
{
    let reward = reward_for(token_amount);
    let player = info.sender.clone();
    if is_success {
        if config.balance <= reward {
            return Err(ContractError::InsufficientAdminFunds);
        }
        let msgs = vec![BankMsg::Send { to_address: player.clone(), amount: coins(reward, "ustars") }];
        let new_config = Config { balance: config.balance - reward };
        let user_bal = player_balance + reward;
        let response = Response::new()
            .add_messages(msgs)
            .add_attribute("action", String::from_str("withdraw_loose"))
            .add_attribute("reciever", player)
            .add_attribute("amount", amount_to_string(user_bal));
        let ghost expected = win_response(info.sender@, reward_of(token_amount), user_bal as int);
        assert(response@.messages =~= expected.messages);
        assert(response@.attributes =~= expected.attributes);
        Ok(GambleOutcome { config: new_config, player_balance: user_bal, response })
    } else {
        if player_balance <= reward {
            return Err(ContractError::InsufficientFunds);
        }
        let sent_funds = coins_of(&info.funds, &String::from_str("ustars"));
        if sent_funds.len() == 0 || sent_funds[0].amount == 0 {
            return Err(ContractError::InsufficientFunds);
        }
        let new_config = Config { balance: config.balance + reward };
        let user_bal = player_balance - reward;
        let response = Response::new()
            .add_attribute("action", String::from_str("deposit_win"))
            .add_attribute("winner", player)
            .add_attribute("amount", amount_to_string(user_bal));
        let ghost expected = loss_response(info.sender@, user_bal as int);
        assert(response@.messages =~= expected.messages);
        assert(response@.attributes =~= expected.attributes);
        Ok(GambleOutcome { config: new_config, player_balance: user_bal, response })
    }
}

/// Runs an execute message: every message is a bet (see `execute_gambled`).
pub fn execute(
    config: &Config,
    info: &MessageInfo,
    player_balance: u128,
    msg: &ExecuteMsg,
) -> (res: Result<GambleOutcome, ContractError>)
    requires
        match msg {
            ExecuteMsg::Gambled { token_amount, is_success } => !gamble_overflows(
                config.balance,
                player_balance,
                info.funds@,
                *token_amount,
                *is_success,
            ),
        },
    ensures
        match msg {
            ExecuteMsg::Gambled { token_amount, is_success } => {
                let refusal = gamble_refusal(
                    config.balance,
                    player_balance,
                    info.funds@,
                    *token_amount,
                    *is_success,
                );
                &&& res is Err <==> refusal is Some
                &&& res matches Err(e) ==> refusal == Some(e)
                &&& res matches Ok(out) ==> {
                    &&& out.config.balance == house_after(config.balance, *token_amount, *is_success)
                    &&& out.player_balance == player_after(player_balance, *token_amount, *is_success)
                    &&& out.response@ == if *is_success {
                        win_response(info.sender@, reward_of(*token_amount), out.player_balance as int)
                    } else {
                        loss_response(info.sender@, out.player_balance as int)
                    }
                }
                &&& *is_success ==> (res is Err <==> config.balance <= reward_of(*token_amount))
                &&& *is_success ==> (res matches Err(e) ==> e == ContractError::InsufficientAdminFunds)
                &&& !*is_success ==> (res is Err <==> (player_balance <= reward_of(*token_amount)
                    || !stake_sent(info.funds@)))
                &&& !*is_success ==> (res matches Err(e) ==> e == ContractError::InsufficientFunds)
            },
        },
{
    match msg {
        ExecuteMsg::Gambled { token_amount, is_success } => execute_gambled(
            config,
            info,
            player_balance,
            *token_amount,
            *is_success,
        ),
    }
}

} // verus!
