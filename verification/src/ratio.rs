//! Fractions of amounts, computed with `cosmwasm_std::Decimal`.
//!
//! A `Decimal` is a fixed-point number with eighteen decimal places; the
//! library handles one by its atomics, the integer `value * 10^18`.

use cosmwasm_std::{Decimal, Uint128};
use vstd::prelude::*;

verus! {

/// The number of atomics in one whole `Decimal`.
pub const DECIMAL_FRACTIONAL: u128 = 1_000_000_000_000_000_000u128;

/// The share of a bet that is won or lost, in percent.
pub const REWARD_PERCENT: u128 = 5;

/// The base that `REWARD_PERCENT` is a share of.
pub const PERCENT_BASE: u128 = 100;

/// The atomics of `numerator / denominator`, rounded down.
pub open spec fn ratio_atomics(numerator: u128, denominator: u128) -> int {
    numerator * DECIMAL_FRACTIONAL / (denominator as int)
}

/// `amount` times the decimal with the given atomics, rounded down.
pub open spec fn mul_floor(amount: u128, atomics: u128) -> int {
    amount * atomics / (DECIMAL_FRACTIONAL as int)
}

/// What a bet of `token_amount` wins or loses: five percent of it, rounded down.
pub open spec fn reward_of(token_amount: u128) -> int {
    token_amount * REWARD_PERCENT / (PERCENT_BASE as int)
}

/// Calls `cosmwasm_std::Decimal::from_ratio(numerator, denominator)` and
/// returns the atomics of the result. In cosmwasm-std the result is
/// `numerator * 10^18 / denominator`, rounded down (computed in 256 bits);
/// it panics on a zero denominator or when the result does not fit in 128
/// bits, which `requires` leaves out.
#[verifier::external_body]
fn decimal_from_ratio(numerator: u128, denominator: u128) -> (atomics: u128)
    requires
        denominator != 0,
        ratio_atomics(numerator, denominator) <= u128::MAX,
    ensures
        atomics == ratio_atomics(numerator, denominator),
{
    Decimal::from_ratio(numerator, denominator).atomics().u128()
}

/// Calls `Uint128 * Decimal` from cosmwasm-std on `amount` and the decimal
/// whose atomics are given. In cosmwasm-std the product is 0 when either
/// side is 0 and `amount * atomics / 10^18`, rounded down, otherwise; it
/// panics when that does not fit in 128 bits, which `requires` leaves out.
#[verifier::external_body]
fn uint_mul_decimal(amount: u128, atomics: u128) -> (product: u128)
    requires
        mul_floor(amount, atomics) <= u128::MAX,
    ensures
        product == mul_floor(amount, atomics),
{
    (Uint128::new(amount) * Decimal::raw(atomics)).u128()
}

proof fn lemma_share_of_whole(t: u128, q: int, r: int)
    requires
        t * 5 == q * 100 + r,
        0 <= r < 100,
    ensures
        t * 50_000_000_000_000_000int == q * 1_000_000_000_000_000_000int + r * 10_000_000_000_000_000int,
        0 <= r * 10_000_000_000_000_000int < 1_000_000_000_000_000_000int,
{
    assert(t * 50_000_000_000_000_000int == (t * 5) * 10_000_000_000_000_000int) by (nonlinear_arith);
    assert(q * 100 * 10_000_000_000_000_000int == q * 1_000_000_000_000_000_000int) by (nonlinear_arith);
    assert((q * 100 + r) * 10_000_000_000_000_000int
        == q * 100 * 10_000_000_000_000_000int + r * 10_000_000_000_000_000int) by (nonlinear_arith);
    assert(0 <= r * 10_000_000_000_000_000int < 1_000_000_000_000_000_000int) by (nonlinear_arith)
        requires 0 <= r < 100;
}

/// The reward of a bet: `token_amount * Decimal::from_ratio(5, 100)`.
pub fn reward_for(token_amount: u128) -> (reward: u128)
    ensures
        reward == reward_of(token_amount),
        reward <= token_amount,
{
    proof {
        vstd::arithmetic::div_mod::lemma_fundamental_div_mod_converse_div(
            5_000_000_000_000_000_000int,
            100,
            50_000_000_000_000_000int,
            0,
        );
    }
    assert(ratio_atomics(REWARD_PERCENT, PERCENT_BASE) == 50_000_000_000_000_000);
    let share = decimal_from_ratio(REWARD_PERCENT, PERCENT_BASE);
    proof {
        let t = token_amount as int;
        let q = t * 5 / 100;
        let r = t * 5 % 100;
        vstd::arithmetic::div_mod::lemma_fundamental_div_mod(t * 5, 100);
        lemma_share_of_whole(token_amount, q, r);
        vstd::arithmetic::div_mod::lemma_fundamental_div_mod_converse_div(
            t * 50_000_000_000_000_000int,
            1_000_000_000_000_000_000int,
            q,
            r * 10_000_000_000_000_000int,
        );
        assert(mul_floor(token_amount, share) == q);
        assert(q <= t);
    }
    uint_mul_decimal(token_amount, share)
}

} // verus!
