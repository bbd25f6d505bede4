//! Properties of the contract that span several calls or every bet.

use vstd::prelude::*;

use crate::contract::{coins_of_denom, gamble_refusal, house_after, player_after, stake_denom, stake_sent};
use crate::error::ContractError;
use crate::msg::{ConfigResponse, InstantiateMsg};
use crate::query::{config_answer, recorded_or_zero};
use crate::ratio::reward_of;
use crate::response::Coin;
use crate::state::Config;

verus! {

/// A bet that is not refused moves its reward from one side to the other:
/// a win from the house to the player, a loss from the player to the house,
/// so the two together hold as much after the bet as before it, and the
/// reward moved never exceeds the stake.
pub proof fn lemma_bet_moves_reward(
    house: u128,
    player: u128,
    funds: Seq<Coin>,
    token_amount: u128,
    is_success: bool,
)
    requires
        gamble_refusal(house, player, funds, token_amount, is_success) is None,
    ensures
        house_after(house, token_amount, is_success) + player_after(player, token_amount, is_success)
            == house + player,
        is_success ==> player_after(player, token_amount, is_success) == player + reward_of(token_amount),
        !is_success ==> house_after(house, token_amount, is_success) == house + reward_of(token_amount),
        0 <= reward_of(token_amount) <= token_amount,
{
    assert(0 <= reward_of(token_amount) <= token_amount) by (nonlinear_arith)
        requires reward_of(token_amount) == token_amount * 5 / 100int;
}

/// The side that pays a bet keeps a positive balance: a won bet leaves the
/// house with more than nothing, a lost bet leaves the player's record with
/// more than nothing.
pub proof fn lemma_payer_stays_positive(
    house: u128,
    player: u128,
    funds: Seq<Coin>,
    token_amount: u128,
    is_success: bool,
)
    requires
        gamble_refusal(house, player, funds, token_amount, is_success) is None,
    ensures
        is_success ==> house_after(house, token_amount, is_success) > 0,
        !is_success ==> player_after(player, token_amount, is_success) > 0,
{
}

/// Querying the configuration after an instantiation that stored `stored`
/// answers the balance the instantiation was given.
pub proof fn lemma_config_query_after_instantiate(msg: InstantiateMsg, stored: Config)
    requires
        stored.balance == msg.balance,
    ensures
        config_answer(stored) == (ConfigResponse { balance: msg.balance }),
{
}

/// After a bet that was not refused, the configuration query answers the
/// house's new balance and the user-balance query answers the player's new
/// recorded balance.
pub proof fn lemma_queries_after_bet(
    house: u128,
    player: u128,
    funds: Seq<Coin>,
    token_amount: u128,
    is_success: bool,
    stored: Config,
    recorded: u128,
)
    requires
        gamble_refusal(house, player, funds, token_amount, is_success) is None,
        stored.balance == house_after(house, token_amount, is_success),
        recorded == player_after(player, token_amount, is_success),
    ensures
        config_answer(stored).balance == house_after(house, token_amount, is_success),
        recorded_or_zero(Some(recorded)) == player_after(player, token_amount, is_success),
{
}

/// A won bet is refused exactly when the house balance does not exceed the
/// reward, and then for want of house funds; the player's balance and the
/// funds sent play no part in it.
pub proof fn lemma_win_refused_only_for_house_funds(
    house: u128,
    player: u128,
    funds: Seq<Coin>,
    token_amount: u128,
)
    ensures
        gamble_refusal(house, player, funds, token_amount, true) is Some <==> house <= reward_of(
            token_amount,
        ),
        house <= reward_of(token_amount) ==> gamble_refusal(house, player, funds, token_amount, true)
            == Some(ContractError::InsufficientAdminFunds),
        forall|other_player: u128, other_funds: Seq<Coin>|
            #[trigger] gamble_refusal(house, other_player, other_funds, token_amount, true)
                == gamble_refusal(house, player, funds, token_amount, true),
{
}

/// A lost bet is refused exactly when the player's balance does not exceed
/// the reward or no positive stake was sent, and then for want of player
/// funds; the house balance plays no part in it.
pub proof fn lemma_loss_refused_only_for_player_funds(
    house: u128,
    player: u128,
    funds: Seq<Coin>,
    token_amount: u128,
)
    ensures
        gamble_refusal(house, player, funds, token_amount, false) is Some <==> (player <= reward_of(
            token_amount,
        ) || !stake_sent(funds)),
        gamble_refusal(house, player, funds, token_amount, false) is Some ==> gamble_refusal(
            house,
            player,
            funds,
            token_amount,
            false,
        ) == Some(ContractError::InsufficientFunds),
        forall|other_house: u128|
            #[trigger] gamble_refusal(other_house, player, funds, token_amount, false)
                == gamble_refusal(house, player, funds, token_amount, false),
{
}

/// The reward is the stake divided by twenty, rounded down.
pub proof fn lemma_reward_is_a_twentieth(token_amount: u128)
    ensures
        reward_of(token_amount) * 20 <= token_amount < reward_of(token_amount) * 20 + 20,
{
    let t = token_amount as int;
    vstd::arithmetic::div_mod::lemma_fundamental_div_mod(t * 5, 100);
    let q = t * 5 / 100;
    let r = t * 5 % 100;
    assert(q * 20 <= t < q * 20 + 20) by (nonlinear_arith)
        requires
            t * 5 == 100 * q + r,
            0 <= r < 100;
}

/// The coins of a denomination are those of `funds` with that denomination:
/// each one is a coin of `funds` of that denomination, and a coin of that
/// denomination at position `i` comes after those before `i`.
proof fn lemma_coins_of_denom_first(funds: Seq<Coin>, denom: Seq<char>)
    ensures
        coins_of_denom(funds, denom).len() > 0 <==> exists|i: int|
            0 <= i < funds.len() && #[trigger] funds[i].denom@ == denom,
        coins_of_denom(funds, denom).len() > 0 ==> exists|i: int|
            0 <= i < funds.len() && #[trigger] funds[i].denom@ == denom
            && coins_of_denom(funds, denom)[0] == funds[i]
            && forall|j: int| 0 <= j < i ==> funds[j].denom@ != denom,
    decreases funds.len(),
{
    if funds.len() > 0 {
        let init = funds.drop_last();
        lemma_coins_of_denom_first(init, denom);
        let n = funds.len() - 1;
        if coins_of_denom(init, denom).len() > 0 {
            let i = choose|i: int|
                0 <= i < init.len() && #[trigger] init[i].denom@ == denom
                && coins_of_denom(init, denom)[0] == init[i]
                && forall|j: int| 0 <= j < i ==> init[j].denom@ != denom;
            assert(funds[i] == init[i]);
            assert forall|j: int| 0 <= j < i implies funds[j].denom@ != denom by {
                assert(funds[j] == init[j]);
            }
        } else {
            assert forall|j: int| 0 <= j < n implies funds[j].denom@ != denom by {
                assert(funds[j] == init[j]);
                if init[j].denom@ == denom {
                    assert(exists|i: int| 0 <= i < init.len() && #[trigger] init[i].denom@ == denom);
                }
            }
            if funds[n].denom@ == denom {
                assert(coins_of_denom(funds, denom) == coins_of_denom(init, denom).push(funds[n]));
            }
        }
        if exists|i: int| 0 <= i < funds.len() && #[trigger] funds[i].denom@ == denom {
            let i = choose|i: int| 0 <= i < funds.len() && #[trigger] funds[i].denom@ == denom;
            if i < n {
                assert(init[i] == funds[i]);
            }
        }
    }
}

/// Stake was sent exactly when the first coin of the stake denomination
/// among the funds exists and is not zero.
pub proof fn lemma_stake_sent_is_first_stake_coin(funds: Seq<Coin>)
    ensures
        stake_sent(funds) <==> exists|i: int|
            0 <= i < funds.len() && #[trigger] funds[i].denom@ == stake_denom()
            && funds[i].amount > 0
            && forall|j: int| 0 <= j < i ==> funds[j].denom@ != stake_denom(),
{
    lemma_coins_of_denom_first(funds, stake_denom());
    if exists|i: int|
        0 <= i < funds.len() && #[trigger] funds[i].denom@ == stake_denom()
        && funds[i].amount > 0
        && forall|j: int| 0 <= j < i ==> funds[j].denom@ != stake_denom()
    {
        let i = choose|i: int|
            0 <= i < funds.len() && #[trigger] funds[i].denom@ == stake_denom()
            && funds[i].amount > 0
            && forall|j: int| 0 <= j < i ==> funds[j].denom@ != stake_denom();
        let k = choose|k: int|
            0 <= k < funds.len() && #[trigger] funds[k].denom@ == stake_denom()
            && coins_of_denom(funds, stake_denom())[0] == funds[k]
            && forall|j: int| 0 <= j < k ==> funds[j].denom@ != stake_denom();
        if k < i {
            assert(funds[k].denom@ != stake_denom());
        } else if i < k {
            assert(funds[i].denom@ != stake_denom());
        }
    }
}

} // verus!
