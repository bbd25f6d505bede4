use gambling::contract::{coins_of, execute, execute_gambled, instantiate, GambleOutcome};
use gambling::error::ContractError;
use gambling::msg::{ExecuteMsg, InstantiateMsg};
use gambling::response::{Attribute, BankMsg, Coin, MessageInfo};
use gambling::state::Config;

fn coin(amount: u128, denom: &str) -> Coin {
    Coin { denom: denom.to_string(), amount }
}

fn info(sender: &str, funds: Vec<Coin>) -> MessageInfo {
    MessageInfo { sender: sender.to_string(), funds }
}

fn attribute(key: &str, value: &str) -> Attribute {
    Attribute { key: key.to_string(), value: value.to_string() }
}

#[test]
fn test_initialize() {
    let _ = instantiate(&InstantiateMsg { balance: 100 });
}

#[test]
fn test_gambled() {
    // the bank holds 7000 ustars for "creater" and 1000 for "player"
    let (config, _res) = instantiate(&InstantiateMsg { balance: 7000 });
    let info = info("player", vec![coin(100, "ustars")]);
    let msg = ExecuteMsg::Gambled { token_amount: 100, is_success: false };
    let player_bank_balance = 1000;
    let res = execute(&config, &info, player_bank_balance, &msg).unwrap();
    assert_eq!("player", res.response.attributes[1].value);
    assert_eq!("995", res.response.attributes[2].value);
}

#[test]
fn instantiate_reports_the_balance() {
    let (config, res) = instantiate(&InstantiateMsg { balance: 7000 });
    assert_eq!(config, Config { balance: 7000 });
    assert!(res.messages.is_empty());
    assert_eq!(
        res.attributes,
        vec![attribute("action", "instantiate"), attribute("balance", "7000")]
    );
}

#[test]
fn lost_bet_moves_reward_to_house() {
    let config = Config { balance: 7000 };
    let out = execute_gambled(&config, &info("player", vec![coin(100, "ustars")]), 1000, 100, false)
        .unwrap();
    assert_eq!(out.config, Config { balance: 7005 });
    assert_eq!(out.player_balance, 995);
    assert!(out.response.messages.is_empty());
    assert_eq!(
        out.response.attributes,
        vec![
            attribute("action", "deposit_win"),
            attribute("winner", "player"),
            attribute("amount", "995"),
        ]
    );
}

#[test]
fn won_bet_pays_reward_to_player() {
    let config = Config { balance: 7000 };
    let out = execute_gambled(&config, &info("player", vec![]), 1000, 100, true).unwrap();
    assert_eq!(out.config, Config { balance: 6995 });
    assert_eq!(out.player_balance, 1005);
    assert_eq!(
        out.response.messages,
        vec![BankMsg::Send { to_address: "player".to_string(), amount: vec![coin(5, "ustars")] }]
    );
    assert_eq!(
        out.response.attributes,
        vec![
            attribute("action", "withdraw_loose"),
            attribute("reciever", "player"),
            attribute("amount", "1005"),
        ]
    );
}

#[test]
fn win_refused_when_house_cannot_pay() {
    let res = execute_gambled(&Config { balance: 5 }, &info("player", vec![]), 1000, 100, true);
    assert_eq!(res, Err(ContractError::InsufficientAdminFunds));
    let res = execute_gambled(&Config { balance: 6 }, &info("player", vec![]), 1000, 100, true);
    assert_eq!(res.unwrap().config, Config { balance: 1 });
}

#[test]
fn loss_refused_when_player_balance_too_small() {
    let funds = vec![coin(100, "ustars")];
    let res = execute_gambled(&Config { balance: 7000 }, &info("player", funds.clone()), 5, 100, false);
    assert_eq!(res, Err(ContractError::InsufficientFunds));
    let res = execute_gambled(&Config { balance: 7000 }, &info("player", funds), 6, 100, false);
    assert_eq!(res.unwrap().player_balance, 1);
}

#[test]
fn loss_refused_without_stake() {
    let config = Config { balance: 7000 };
    let no_funds = execute_gambled(&config, &info("player", vec![]), 1000, 100, false);
    assert_eq!(no_funds, Err(ContractError::InsufficientFunds));
    let other_denom = execute_gambled(&config, &info("player", vec![coin(100, "uatom")]), 1000, 100, false);
    assert_eq!(other_denom, Err(ContractError::InsufficientFunds));
    // only the first stake coin counts
    let first_zero = execute_gambled(
        &config,
        &info("player", vec![coin(0, "ustars"), coin(100, "ustars")]),
        1000,
        100,
        false,
    );
    assert_eq!(first_zero, Err(ContractError::InsufficientFunds));
    let after_other = execute_gambled(
        &config,
        &info("player", vec![coin(0, "uatom"), coin(1, "ustars")]),
        1000,
        100,
        false,
    );
    assert_eq!(after_other.unwrap().config, Config { balance: 7005 });
}

#[test]
fn small_bets_move_nothing() {
    let config = Config { balance: 7000 };
    let out: GambleOutcome =
        execute_gambled(&config, &info("player", vec![coin(1, "ustars")]), 1000, 19, false).unwrap();
    assert_eq!(out.config, config);
    assert_eq!(out.player_balance, 1000);
}

#[test]
fn bets_conserve_the_total() {
    let config = Config { balance: 123_456 };
    for (token, win) in [(0u128, true), (20, true), (999, false), (4000, true), (77_777, false)] {
        let out = execute_gambled(&config, &info("p", vec![coin(1, "ustars")]), 50_000, token, win)
            .unwrap();
        assert_eq!(out.config.balance + out.player_balance, 123_456 + 50_000);
    }
}

#[test]
fn coins_are_filtered_by_denom_in_order() {
    let funds = vec![coin(1, "a"), coin(2, "b"), coin(3, "a"), coin(4, "c")];
    assert_eq!(coins_of(&funds, &"a".to_string()), vec![coin(1, "a"), coin(3, "a")]);
    assert_eq!(coins_of(&funds, &"d".to_string()), vec![]);
}

#[test]
fn error_messages() {
    assert_eq!(ContractError::InsufficientAdminFunds.message(), "Insufficient Admin Funds");
    assert_eq!(ContractError::InsufficientFunds.message(), "Insufficient Funds");
}
