use gambling::contract::{execute_gambled, instantiate};
use gambling::msg::{ConfigResponse, GetBalanceResponse, InstantiateMsg, QueryMsg};
use gambling::query::{query, query_balance, query_config, query_user_balance, BalanceRequest, QueryPlan};
use gambling::ratio::reward_for;
use gambling::response::{coins, Coin, MessageInfo, Response};
use gambling::state::Config;
use gambling::text::amount_to_string;

#[test]
fn reward_is_five_percent_rounded_down() {
    assert_eq!(reward_for(100), 5);
    assert_eq!(reward_for(0), 0);
    assert_eq!(reward_for(19), 0);
    assert_eq!(reward_for(20), 1);
    assert_eq!(reward_for(39), 1);
    assert_eq!(reward_for(1_000_000), 50_000);
    assert_eq!(reward_for(u128::MAX), u128::MAX / 20);
}

#[test]
fn amounts_render_in_decimal() {
    assert_eq!(amount_to_string(0), "0");
    assert_eq!(amount_to_string(7), "7");
    assert_eq!(amount_to_string(10), "10");
    assert_eq!(amount_to_string(995), "995");
    assert_eq!(amount_to_string(u128::MAX), u128::MAX.to_string());
}

#[test]
fn response_builder_keeps_order() {
    let r = Response::new()
        .add_attribute("a", "1".to_string())
        .add_attribute("b", "2".to_string());
    assert_eq!(r.attributes.len(), 2);
    assert_eq!(r.attributes[0].key, "a");
    assert_eq!(r.attributes[1].value, "2");
    assert_eq!(coins(5, "ustars"), vec![Coin { denom: "ustars".to_string(), amount: 5 }]);
}

#[test]
fn query_plans() {
    assert_eq!(query(&QueryMsg::Config {}), QueryPlan::LoadConfig);
    assert_eq!(
        query(&QueryMsg::UserBalance { user: "alice".to_string() }),
        QueryPlan::LoadUserBalance { user: "alice".to_string() }
    );
    assert_eq!(
        query(&QueryMsg::GetBalance { address: "bob".to_string() }),
        QueryPlan::AskBank {
            request: BalanceRequest { address: "bob".to_string(), denom: "ustars".to_string() }
        }
    );
}

#[test]
fn query_answers() {
    assert_eq!(query_config(&Config { balance: 42 }), ConfigResponse { balance: 42 });
    let r = query_user_balance("alice".to_string(), Some(995));
    assert_eq!((r.user.as_str(), r.balance), ("alice", 995));
    let r = query_user_balance("bob".to_string(), None);
    assert_eq!((r.user.as_str(), r.balance), ("bob", 0));
    assert_eq!(
        query_balance(&Coin { denom: "ustars".to_string(), amount: 1000 }),
        GetBalanceResponse { balance: 1000 }
    );
}

#[test]
fn queries_read_back_what_calls_stored() {
    let (config, _) = instantiate(&InstantiateMsg { balance: 7000 });
    assert_eq!(query_config(&config), ConfigResponse { balance: 7000 });
    let info = MessageInfo {
        sender: "player".to_string(),
        funds: vec![Coin { denom: "ustars".to_string(), amount: 100 }],
    };
    let out = execute_gambled(&config, &info, 1000, 100, false).unwrap();
    assert_eq!(query_config(&out.config), ConfigResponse { balance: 7005 });
    assert_eq!(query_user_balance("player".to_string(), Some(out.player_balance)).balance, 995);
}
