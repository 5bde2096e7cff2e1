//! Proactive Market Making Algorithm
//!
//! Every computation here goes through precise numbers.  Converting one back
//! to a whole number panics where the rounded value does not fit in 128 bits,
//! so each function states what it gives as an outcome: `None` where it
//! would panic, else what it returns; and each asks of its caller that the
//! outcome is not a panic.

use vstd::prelude::*;

use crate::curve::calculator::{
    lemma_precise_new_fits, DynPack, SwapWithoutFeesResult, TradeDirection,
    INITIAL_SWAP_POOL_AMOUNT,
};
use crate::curve::math::{
    fits, precise_ceiling, precise_div, precise_mul, precise_sqrt, precise_to_imprecise,
    precise_to_imprecise_fits, pv, PreciseNumber, PRECISE_ONE,
};
use crate::error::{ProgramError, SwapError};
use crate::packing::{
    le_u32, le_u64, lemma_le_u32_roundtrip, lemma_le_u64_roundtrip, overwrite, read_le_u32,
    read_le_u64, read_u32, read_u64, write_u32, write_u64, IsInitialized, Pack,
};

verus! {

const BILLION: u128 = 1_000_000_000;

/// The raw precise value of a whole number.
pub open spec fn whole(x: u128) -> nat {
    (x * PRECISE_ONE) as nat
}

/// Precise division of two values, if both are there.
pub open spec fn odiv(a: Option<nat>, b: Option<nat>) -> Option<nat> {
    match (a, b) {
        (Some(x), Some(y)) => precise_div(x, y),
        _ => None,
    }
}

/// Precise multiplication of two values, if both are there.
pub open spec fn omul(a: Option<nat>, b: Option<nat>) -> Option<nat> {
    match (a, b) {
        (Some(x), Some(y)) => precise_mul(x, y),
        _ => None,
    }
}

/// The sum of two values, if both are there and it fits.
pub open spec fn oadd(a: Option<nat>, b: Option<nat>) -> Option<nat> {
    match (a, b) {
        (Some(x), Some(y)) => fits(x + y as int),
        _ => None,
    }
}

/// The difference of two values, if both are there and it is not negative.
pub open spec fn osub(a: Option<nat>, b: Option<nat>) -> Option<nat> {
    match (a, b) {
        (Some(x), Some(y)) => fits(x - y),
        _ => None,
    }
}

/// The square root of a value, if it is there.
pub open spec fn osqrt(a: Option<nat>) -> Option<nat> {
    match a {
        Some(x) => precise_sqrt(x),
        None => None,
    }
}

/// A value rounded up to a whole number, if it is there.
pub open spec fn oceil(a: Option<nat>) -> Option<nat> {
    match a {
        Some(x) => precise_ceiling(x),
        None => None,
    }
}

/// A value rounded down to a whole number, if it is there.
pub open spec fn ofloor(a: Option<nat>) -> Option<nat> {
    match a {
        Some(x) => Some(((x / (PRECISE_ONE as nat)) * PRECISE_ONE) as nat),
        None => None,
    }
}

/// The outcome of converting a value back to a whole number: no value gives
/// no number; a value that rounds to more than 128 bits panics (`None`).
pub open spec fn imprecise(a: Option<nat>) -> Option<Option<u128>> {
    match a {
        None => Some(None),
        Some(x) => if precise_to_imprecise_fits(x) {
            Some(precise_to_imprecise(x))
        } else {
            None
        },
    }
}

/// The outcome of going on with `f` from the number an outcome gives: a
/// panic stays a panic, no number stays no number.
pub open spec fn bind(o: Option<Option<u128>>, f: spec_fn(u128) -> Option<Option<u128>>) -> Option<
    Option<u128>,
> {
    match o {
        None => None,
        Some(None) => Some(None),
        Some(Some(x)) => f(x),
    }
}

/// The liquidity parameter, given in parts per billion, as a precise
/// fraction.
pub open spec fn liquidity(liquidity_parameter_ppb: u128) -> Option<nat> {
    precise_div(whole(liquidity_parameter_ppb), whole(1_000_000_000))
}

/// The precise value of the liquidity parameter.
fn liquidity_parameter(liquidity_parameter_ppb: u128) -> (r: Option<PreciseNumber>)
    ensures
        pv(r) == liquidity(liquidity_parameter_ppb),
{
    proof {
        lemma_precise_new_fits(liquidity_parameter_ppb);
        lemma_precise_new_fits(BILLION);
    }
    PreciseNumber::new(liquidity_parameter_ppb)?.checked_div(&PreciseNumber::new(BILLION)?)
}

/// The precise value of a whole number.
fn precise(value: u128) -> (r: PreciseNumber)
    ensures
        r.value@ == whole(value),
{
    proof {
        lemma_precise_new_fits(value);
    }
    PreciseNumber::new(value).unwrap()
}

/// `R`, how far the pool stands from its equilibrium: below the base
/// target, `1 - k + (B_0/B)^2 * k`; else below the quote target,
/// `1/(1 - k + (Q_0/Q)^2 * k)`; else one.
#[verifier::opaque]
pub open spec fn spec_calculate_r(
    base_amount: u128,
    base_regression_target: u128,
    quote_amount: u128,
    quote_regression_target: u128,
    liquidity_parameter_ppb: u128,
) -> Option<nat> {
    let k = liquidity(liquidity_parameter_ppb);
    let one = Some(whole(1));
    if k is None {
        None
    } else if whole(base_amount) < whole(base_regression_target) {
        let ratio = odiv(Some(whole(base_regression_target)), Some(whole(base_amount)));
        oadd(osub(one, k), omul(omul(ratio, ratio), k))
    } else if whole(quote_amount) < whole(quote_regression_target) {
        let ratio = odiv(Some(whole(quote_regression_target)), Some(whole(quote_amount)));
        odiv(one, oadd(osub(one, k), omul(omul(ratio, ratio), k)))
    } else {
        one
    }
}

/// Method to calculate the parameter R which determines where we are from the
/// equilibrium point where the current supply is equal to the initial supply.
pub fn calculate_r(
    base_amount: u128,
    base_regression_target: u128,
    quote_amount: u128,
    quote_regression_target: u128,
    liquidity_parameter_ppb: u128,
) -> (r: Option<PreciseNumber>)
    ensures
        pv(r) == spec_calculate_r(
            base_amount,
            base_regression_target,
            quote_amount,
            quote_regression_target,
            liquidity_parameter_ppb,
        ),
{
    proof {
        reveal(spec_calculate_r);
    }
    let base_amount = precise(base_amount);
    let base_regression_target = precise(base_regression_target);
    let quote_amount = precise(quote_amount);
    let quote_regression_target = precise(quote_regression_target);
    let liquidity_parameter = liquidity_parameter(liquidity_parameter_ppb)?;

    if base_amount.less_than(&base_regression_target) {
        // R = 1 - k + (B_0/B)^2 * k
        let ratio = base_regression_target.checked_div(&base_amount)?;
        let ratio_squared = ratio.checked_mul(&ratio)?;

        precise(1).checked_sub(&liquidity_parameter)?.checked_add(
            &ratio_squared.checked_mul(&liquidity_parameter)?,
        )
    } else if quote_amount.less_than(&quote_regression_target) {
        // R = 1/(1 - k + (Q_0/Q)^2 * k)
        let ratio = quote_regression_target.checked_div(&quote_amount)?;
        let ratio_squared = ratio.checked_mul(&ratio)?;

        precise(1).checked_div(
            &precise(1).checked_sub(&liquidity_parameter)?.checked_add(
                &ratio_squared.checked_mul(&liquidity_parameter)?,
            )?,
        )
    } else {
        Some(precise(1))
    }
}

/// The precise value of the integral before it is made a whole number.
pub open spec fn spec_general_integral_value(
    token_regression_target: u128,
    token_balance_1: u128,
    token_balance_2: u128,
    mid_price: u128,
    liquidity_parameter_ppb: u128,
) -> Option<nat> {
    let k = liquidity(liquidity_parameter_ppb);
    let target = Some(whole(token_regression_target));
    let fair_amount = omul(
        Some(whole(mid_price)),
        osub(Some(whole(token_balance_1)), Some(whole(token_balance_2))),
    );
    let penalty_factor = oceil(
        odiv(odiv(omul(target, target), Some(whole(token_balance_1))), Some(whole(token_balance_2))),
    );
    let penalty = omul(k, penalty_factor);
    omul(fair_amount, oadd(osub(Some(whole(1)), k), penalty))
}

/// The average price of moving a balance from `B_1` to `B_2`:
/// `i * (B_1 - B_2) * (1 - k + k * ceil(B_0^2 / (B_1 * B_2)))`, as a whole
/// number.
#[verifier::opaque]
pub open spec fn spec_general_integral(
    token_regression_target: u128,
    token_balance_1: u128,
    token_balance_2: u128,
    mid_price: u128,
    liquidity_parameter_ppb: u128,
) -> Option<Option<u128>> {
    imprecise(
        spec_general_integral_value(
            token_regression_target,
            token_balance_1,
            token_balance_2,
            mid_price,
            liquidity_parameter_ppb,
        ),
    )
}

/// Method to calculate the average transaction price which is the integral of
/// the marginal price.
pub fn general_integral(
    token_regression_target: u128,
    token_balance_1: u128,
    token_balance_2: u128,
    mid_price: u128,
    liquidity_parameter_ppb: u128,
) -> (r: Option<u128>)
    requires
        spec_general_integral(
            token_regression_target,
            token_balance_1,
            token_balance_2,
            mid_price,
            liquidity_parameter_ppb,
        ) is Some,
    ensures
        Some(r) == spec_general_integral(
            token_regression_target,
            token_balance_1,
            token_balance_2,
            mid_price,
            liquidity_parameter_ppb,
        ),
{
    match try_general_integral(token_regression_target, token_balance_1, token_balance_2, mid_price, liquidity_parameter_ppb) {
        Some(r) => r,
        None => None,
    }
}

/// The precise root of the trade's quadratic, rounded to a whole number's
/// precision, before it is made a whole number.
pub open spec fn spec_solve_quadratic_function_for_trade_value(
    quote_regression_target: u128,
    quote_balance_1: u128,
    mid_price_mul_delta_base: u128,
    delta_b_sign: bool,
    liquidity_parameter_ppb: u128,
) -> Option<nat> {
    let k = liquidity(liquidity_parameter_ppb);
    let one = Some(whole(1));
    let target = Some(whole(quote_regression_target));
    let balance = Some(whole(quote_balance_1));
    let delta = Some(whole(mid_price_mul_delta_base));
    let b_factor = odiv(omul(omul(k, target), target), balance);
    let b = omul(osub(one, k), balance);
    let b_factor = if delta_b_sign {
        b_factor
    } else {
        oadd(b_factor, delta)
    };
    let b = if delta_b_sign {
        oadd(b, delta)
    } else {
        b
    };
    match (b, b_factor) {
        (Some(b), Some(b_factor)) => {
            let minus_b_sign = b >= b_factor;
            let b = if minus_b_sign {
                (b - b_factor) as nat
            } else {
                (b_factor - b) as nat
            };
            let four_a_c = omul(omul(osub(one, k), Some(whole(4))), omul(omul(k, target), target));
            let square_root = osqrt(oadd(omul(Some(b), Some(b)), four_a_c));
            let denominator = omul(osub(one, k), Some(whole(2)));
            let numerator = if minus_b_sign {
                oadd(Some(b), square_root)
            } else {
                osub(square_root, Some(b))
            };
            if delta_b_sign {
                ofloor(odiv(numerator, denominator))
            } else {
                oceil(odiv(numerator, denominator))
            }
        },
        _ => None,
    }
}

/// The new quote balance of a trade, the root of
/// `(1 - k) * Q_2^2 + (k * Q_0^2 / Q_1 - Q_1 + k * Q_1 - i * dB) * Q_2 - k * Q_0^2 = 0`
/// by the quadratic formula, rounded down when the base balance grows
/// (`delta_b_sign`) and up otherwise.
#[verifier::opaque]
pub open spec fn spec_solve_quadratic_function_for_trade(
    quote_regression_target: u128,
    quote_balance_1: u128,
    mid_price_mul_delta_base: u128,
    delta_b_sign: bool,
    liquidity_parameter_ppb: u128,
) -> Option<Option<u128>> {
    imprecise(spec_solve_quadratic_function_for_trade_value(quote_regression_target, quote_balance_1, mid_price_mul_delta_base, delta_b_sign, liquidity_parameter_ppb))
}

/// Method to calculate the price when there is a shortage of quote tokens and
/// only the number of base tokens to buy or sell are given.
#[verifier::spinoff_prover]
#[verifier::rlimit(40)]
pub fn solve_quadratic_function_for_trade(
    quote_regression_target: u128,
    quote_balance_1: u128,
    mid_price_mul_delta_base: u128,
    delta_b_sign: bool,
    liquidity_parameter_ppb: u128,
) -> (r: Option<u128>)
    requires
        spec_solve_quadratic_function_for_trade(
            quote_regression_target,
            quote_balance_1,
            mid_price_mul_delta_base,
            delta_b_sign,
            liquidity_parameter_ppb,
        ) is Some,
    ensures
        Some(r) == spec_solve_quadratic_function_for_trade(
            quote_regression_target,
            quote_balance_1,
            mid_price_mul_delta_base,
            delta_b_sign,
            liquidity_parameter_ppb,
        ),
{
    match try_solve_quadratic_function_for_trade(quote_regression_target, quote_balance_1, mid_price_mul_delta_base, delta_b_sign, liquidity_parameter_ppb) {
        Some(r) => r,
        None => None,
    }
}

/// The precise new target before it is made a whole number.
pub open spec fn spec_solve_quadratic_function_for_target_value(
    token_balance_1: u128,
    liquidity_parameter_ppb: u128,
    fair_amount: u128,
) -> Option<nat> {
    let k = liquidity(liquidity_parameter_ppb);
    let one = Some(whole(1));
    let balance = Some(whole(token_balance_1));
    let inner = oceil(odiv(omul(omul(k, Some(whole(fair_amount))), Some(whole(4))), balance));
    let square_root = osqrt(oadd(inner, one));
    let premium = oceil(odiv(osub(square_root, one), omul(k, Some(whole(2)))));
    omul(balance, oadd(one, premium))
}

/// The new target of a balance once the fair amount is paid in:
/// `B_1 * (1 + ceil(ceil(sqrt(1 + ceil(4 * k * dQ / B_1))) - 1) / 2k))`, as a
/// whole number.
#[verifier::opaque]
pub open spec fn spec_solve_quadratic_function_for_target(
    token_balance_1: u128,
    liquidity_parameter_ppb: u128,
    fair_amount: u128,
) -> Option<Option<u128>> {
    imprecise(spec_solve_quadratic_function_for_target_value(token_balance_1, liquidity_parameter_ppb, fair_amount))
}

/// Method to calculate the regression target at a certain oracle price.
pub fn solve_quadratic_function_for_target(
    token_balance_1: u128,
    liquidity_parameter_ppb: u128,
    fair_amount: u128,
) -> (r: Option<u128>)
    requires
        spec_solve_quadratic_function_for_target(
            token_balance_1,
            liquidity_parameter_ppb,
            fair_amount,
        ) is Some,
    ensures
        Some(r) == spec_solve_quadratic_function_for_target(
            token_balance_1,
            liquidity_parameter_ppb,
            fair_amount,
        ),
{
    match try_solve_quadratic_function_for_target(token_balance_1, liquidity_parameter_ppb, fair_amount) {
        Some(r) => r,
        None => None,
    }
}

/// Helper method to integrate when R is > 1.
pub fn r_above_integrate(
    mid_price: u128,
    liquidity_parameter_ppb: u128,
    base_regression_target: u128,
    base_balance_1: u128,
    base_balance_2: u128,
) -> (r: Option<u128>)
    requires
        spec_general_integral(
            base_regression_target,
            base_balance_1,
            base_balance_2,
            mid_price,
            liquidity_parameter_ppb,
        ) is Some,
    ensures
        Some(r) == spec_general_integral(
            base_regression_target,
            base_balance_1,
            base_balance_2,
            mid_price,
            liquidity_parameter_ppb,
        ),
{
    general_integral(
        base_regression_target,
        base_balance_1,
        base_balance_2,
        mid_price,
        liquidity_parameter_ppb,
    )
}

/// The quote tokens received for selling `amount` base tokens at
/// equilibrium: the quote target less the quote balance that the trade
/// leaves.
#[verifier::opaque]
pub open spec fn spec_r_one_sell_base_token(
    mid_price: u128,
    liquidity_parameter_ppb: u128,
    amount: u128,
    target_quote_amount: u128,
) -> Option<Option<u128>> {
    bind(
        imprecise(omul(Some(whole(mid_price)), Some(whole(amount)))),
        |delta: u128|
            bind(
                spec_solve_quadratic_function_for_trade(
                    target_quote_amount,
                    target_quote_amount,
                    delta,
                    false,
                    liquidity_parameter_ppb,
                ),
                |quote_balance_2: u128|
                    imprecise(
                        osub(Some(whole(target_quote_amount)), Some(whole(quote_balance_2))),
                    ),
            ),
    )
}

/// Method to calculate the number of quote tokens to trade for amount base
/// tokens at equilibrium.
pub fn r_one_sell_base_token(
    mid_price: u128,
    liquidity_parameter_ppb: u128,
    amount: u128,
    target_quote_amount: u128,
) -> (r: Option<u128>)
    requires
        spec_r_one_sell_base_token(mid_price, liquidity_parameter_ppb, amount, target_quote_amount)
            is Some,
    ensures
        Some(r) == spec_r_one_sell_base_token(
            mid_price,
            liquidity_parameter_ppb,
            amount,
            target_quote_amount,
        ),
{
    match try_r_one_sell_base_token(mid_price, liquidity_parameter_ppb, amount, target_quote_amount) {
        Some(r) => r,
        None => None,
    }
}

/// The quote tokens paid for buying `amount` base tokens at equilibrium:
/// none for more than the base target, else the integral from the target
/// down to what is left.
#[verifier::opaque]
pub open spec fn spec_r_one_buy_base_token(
    mid_price: u128,
    liquidity_parameter_ppb: u128,
    amount: u128,
    target_base_amount: u128,
) -> Option<Option<u128>> {
    if amount > target_base_amount {
        Some(None)
    } else {
        bind(
            imprecise(osub(Some(whole(target_base_amount)), Some(whole(amount)))),
            |base_balance_2: u128|
                spec_general_integral(
                    target_base_amount,
                    target_base_amount,
                    base_balance_2,
                    mid_price,
                    liquidity_parameter_ppb,
                ),
        )
    }
}

/// Method to calculate the number of quote tokens to trade for amount base
/// tokens at equilibrium.
pub fn r_one_buy_base_token(
    mid_price: u128,
    liquidity_parameter_ppb: u128,
    amount: u128,
    target_base_amount: u128,
) -> (r: Option<u128>)
    requires
        spec_r_one_buy_base_token(mid_price, liquidity_parameter_ppb, amount, target_base_amount)
            is Some,
    ensures
        Some(r) == spec_r_one_buy_base_token(
            mid_price,
            liquidity_parameter_ppb,
            amount,
            target_base_amount,
        ),
{
    match try_r_one_buy_base_token(mid_price, liquidity_parameter_ppb, amount, target_base_amount) {
        Some(r) => r,
        None => None,
    }
}

/// The quote tokens received for selling `amount` base tokens when R < 1:
/// the quote balance less the one the trade leaves.
#[verifier::opaque]
pub open spec fn spec_r_below_sell_base_token(
    mid_price: u128,
    liquidity_parameter_ppb: u128,
    amount: u128,
    quote_balance: u128,
    target_quote_amount: u128,
) -> Option<Option<u128>> {
    bind(
        imprecise(omul(Some(whole(mid_price)), Some(whole(amount)))),
        |delta: u128|
            bind(
                spec_solve_quadratic_function_for_trade(
                    target_quote_amount,
                    quote_balance,
                    delta,
                    false,
                    liquidity_parameter_ppb,
                ),
                |quote_balance_2: u128|
                    imprecise(osub(Some(whole(quote_balance)), Some(whole(quote_balance_2)))),
            ),
    )
}

/// Method to calculate the number of quote tokens to trade for amount base
/// tokens when R < 1.
pub fn r_below_sell_base_token(
    mid_price: u128,
    liquidity_parameter_ppb: u128,
    amount: u128,
    quote_balance: u128,
    target_quote_amount: u128,
) -> (r: Option<u128>)
    requires
        spec_r_below_sell_base_token(
            mid_price,
            liquidity_parameter_ppb,
            amount,
            quote_balance,
            target_quote_amount,
        ) is Some,
    ensures
        Some(r) == spec_r_below_sell_base_token(
            mid_price,
            liquidity_parameter_ppb,
            amount,
            quote_balance,
            target_quote_amount,
        ),
{
    match try_r_below_sell_base_token(mid_price, liquidity_parameter_ppb, amount, quote_balance, target_quote_amount) {
        Some(r) => r,
        None => None,
    }
}

/// The quote tokens paid for buying `amount` base tokens when R < 1: the
/// quote balance the trade needs, from the price rounded up, less the one
/// there is.
#[verifier::opaque]
pub open spec fn spec_r_below_buy_base_token(
    mid_price: u128,
    liquidity_parameter_ppb: u128,
    amount: u128,
    quote_balance: u128,
    target_quote_amount: u128,
) -> Option<Option<u128>> {
    bind(
        imprecise(oceil(omul(Some(whole(mid_price)), Some(whole(amount))))),
        |delta: u128|
            bind(
                spec_solve_quadratic_function_for_trade(
                    target_quote_amount,
                    quote_balance,
                    delta,
                    true,
                    liquidity_parameter_ppb,
                ),
                |quote_balance_2: u128|
                    imprecise(osub(Some(whole(quote_balance_2)), Some(whole(quote_balance)))),
            ),
    )
}

/// Method to calculate the number of quote tokens to trade for amount base
/// tokens when R < 1.
pub fn r_below_buy_base_token(
    mid_price: u128,
    liquidity_parameter_ppb: u128,
    amount: u128,
    quote_balance: u128,
    target_quote_amount: u128,
) -> (r: Option<u128>)
    requires
        spec_r_below_buy_base_token(
            mid_price,
            liquidity_parameter_ppb,
            amount,
            quote_balance,
            target_quote_amount,
        ) is Some,
    ensures
        Some(r) == spec_r_below_buy_base_token(
            mid_price,
            liquidity_parameter_ppb,
            amount,
            quote_balance,
            target_quote_amount,
        ),
{
    match try_r_below_buy_base_token(mid_price, liquidity_parameter_ppb, amount, quote_balance, target_quote_amount) {
        Some(r) => r,
        None => None,
    }
}

/// The quote tokens to pay to bring the pool back to equilibrium when
/// R < 1: the new quote target for the excess base at the mid price, less
/// the quote balance.
#[verifier::opaque]
pub open spec fn spec_r_below_back_to_one(
    mid_price: u128,
    base_balance: u128,
    target_base_amount: u128,
    quote_balance: u128,
    liquidity_parameter_ppb: u128,
) -> Option<Option<u128>> {
    let sparse_base = osub(Some(whole(base_balance)), Some(whole(target_base_amount)));
    let fair_amount = omul(sparse_base, Some(whole(mid_price)));
    if fair_amount is None {
        Some(None)
    } else {
        bind(
            imprecise(fair_amount),
            |fair: u128|
                bind(
                    spec_solve_quadratic_function_for_target(
                        quote_balance,
                        liquidity_parameter_ppb,
                        fair,
                    ),
                    |new_target_quote: u128|
                        imprecise(
                            osub(Some(whole(new_target_quote)), Some(whole(quote_balance))),
                        ),
                ),
        )
    }
}

/// Method to calculate the number of quote tokens to trade for amount base
/// tokens when R < 1.
pub fn r_below_back_to_one(
    mid_price: u128,
    base_balance: u128,
    target_base_amount: u128,
    quote_balance: u128,
    liquidity_parameter_ppb: u128,
) -> (r: Option<u128>)
    requires
        spec_r_below_back_to_one(
            mid_price,
            base_balance,
            target_base_amount,
            quote_balance,
            liquidity_parameter_ppb,
        ) is Some,
    ensures
        Some(r) == spec_r_below_back_to_one(
            mid_price,
            base_balance,
            target_base_amount,
            quote_balance,
            liquidity_parameter_ppb,
        ),
{
    match try_r_below_back_to_one(mid_price, base_balance, target_base_amount, quote_balance, liquidity_parameter_ppb) {
        Some(r) => r,
        None => None,
    }
}

/// The quote tokens received for selling `amount` base tokens when R > 1:
/// the integral from the base balance grown by the amount.
#[verifier::opaque]
pub open spec fn spec_r_above_sell_base_token(
    mid_price: u128,
    liquidity_parameter_ppb: u128,
    amount: u128,
    base_balance: u128,
    target_base_amount: u128,
) -> Option<Option<u128>> {
    bind(
        imprecise(oadd(Some(whole(base_balance)), Some(whole(amount)))),
        |base_balance_1: u128|
            spec_general_integral(
                target_base_amount,
                base_balance_1,
                base_balance,
                mid_price,
                liquidity_parameter_ppb,
            ),
    )
}

/// Method to calculate the number of quote tokens to trade for amount base
/// tokens when R > 1.
pub fn r_above_sell_base_token(
    mid_price: u128,
    liquidity_parameter_ppb: u128,
    amount: u128,
    base_balance: u128,
    target_base_amount: u128,
) -> (r: Option<u128>)
    requires
        spec_r_above_sell_base_token(
            mid_price,
            liquidity_parameter_ppb,
            amount,
            base_balance,
            target_base_amount,
        ) is Some,
    ensures
        Some(r) == spec_r_above_sell_base_token(
            mid_price,
            liquidity_parameter_ppb,
            amount,
            base_balance,
            target_base_amount,
        ),
{
    match try_r_above_sell_base_token(mid_price, liquidity_parameter_ppb, amount, base_balance, target_base_amount) {
        Some(r) => r,
        None => None,
    }
}

/// The quote tokens paid for buying `amount` base tokens when R > 1: none
/// for more than the base balance, else the integral from the balance down
/// to what is left.
#[verifier::opaque]
pub open spec fn spec_r_above_buy_base_token(
    mid_price: u128,
    liquidity_parameter_ppb: u128,
    amount: u128,
    base_balance: u128,
    target_base_amount: u128,
) -> Option<Option<u128>> {
    if amount > base_balance {
        Some(None)
    } else {
        bind(
            imprecise(osub(Some(whole(base_balance)), Some(whole(amount)))),
            |base_balance_2: u128|
                spec_general_integral(
                    target_base_amount,
                    base_balance,
                    base_balance_2,
                    mid_price,
                    liquidity_parameter_ppb,
                ),
        )
    }
}

/// Method to calculate the number of quote tokens to trade for amount base
/// tokens when R > 1.
pub fn r_above_buy_base_token(
    mid_price: u128,
    liquidity_parameter_ppb: u128,
    amount: u128,
    base_balance: u128,
    target_base_amount: u128,
) -> (r: Option<u128>)
    requires
        spec_r_above_buy_base_token(
            mid_price,
            liquidity_parameter_ppb,
            amount,
            base_balance,
            target_base_amount,
        ) is Some,
    ensures
        Some(r) == spec_r_above_buy_base_token(
            mid_price,
            liquidity_parameter_ppb,
            amount,
            base_balance,
            target_base_amount,
        ),
{
    match try_r_above_buy_base_token(mid_price, liquidity_parameter_ppb, amount, base_balance, target_base_amount) {
        Some(r) => r,
        None => None,
    }
}

/// The base tokens to pay to bring the pool back to equilibrium when R > 1:
/// the new base target for the excess quote at the mid price, rounded down,
/// less the base balance.
#[verifier::opaque]
pub open spec fn spec_r_above_back_to_one(
    mid_price: u128,
    quote_balance: u128,
    target_quote_amount: u128,
    base_balance: u128,
    liquidity_parameter_ppb: u128,
) -> Option<Option<u128>> {
    let sparse_quote = osub(Some(whole(quote_balance)), Some(whole(target_quote_amount)));
    let fair_amount = ofloor(odiv(sparse_quote, Some(whole(mid_price))));
    if fair_amount is None {
        Some(None)
    } else {
        bind(
            imprecise(fair_amount),
            |fair: u128|
                bind(
                    spec_solve_quadratic_function_for_target(
                        base_balance,
                        liquidity_parameter_ppb,
                        fair,
                    ),
                    |new_target_base: u128|
                        imprecise(osub(Some(whole(new_target_base)), Some(whole(base_balance)))),
                ),
        )
    }
}

/// Method to calculate the number of quote tokens to trade for amount base
/// tokens when R > 1.
pub fn r_above_back_to_one(
    mid_price: u128,
    quote_balance: u128,
    target_quote_amount: u128,
    base_balance: u128,
    liquidity_parameter_ppb: u128,
) -> (r: Option<u128>)
    requires
        spec_r_above_back_to_one(
            mid_price,
            quote_balance,
            target_quote_amount,
            base_balance,
            liquidity_parameter_ppb,
        ) is Some,
    ensures
        Some(r) == spec_r_above_back_to_one(
            mid_price,
            quote_balance,
            target_quote_amount,
            base_balance,
            liquidity_parameter_ppb,
        ),
{
    match try_r_above_back_to_one(mid_price, quote_balance, target_quote_amount, base_balance, liquidity_parameter_ppb) {
        Some(r) => r,
        None => None,
    }
}

/// The base and quote targets the pool moves back to: the given ones at
/// equilibrium; with R < 1, the quote balance grows by what brings it back;
/// with R > 1, the base balance does.
#[verifier::opaque]
pub open spec fn spec_get_expected_target(
    mid_price: u128,
    base_balance: u128,
    quote_balance: u128,
    target_base_amount: u128,
    target_quote_amount: u128,
    liquidity_parameter_ppb: u128,
) -> Option<Option<(u128, u128)>> {
    match spec_calculate_r(
        base_balance,
        target_base_amount,
        quote_balance,
        target_quote_amount,
        liquidity_parameter_ppb,
    ) {
        None => Some(None),
        Some(r) => if r == whole(1) {
            Some(Some((target_base_amount, target_quote_amount)))
        } else if r < whole(1) {
            match spec_r_below_back_to_one(
                mid_price,
                base_balance,
                target_base_amount,
                quote_balance,
                liquidity_parameter_ppb,
            ) {
                None => None,
                Some(None) => Some(None),
                Some(Some(pay_quote_token)) => match imprecise(
                    oadd(Some(whole(quote_balance)), Some(whole(pay_quote_token))),
                ) {
                    None => None,
                    Some(None) => Some(None),
                    Some(Some(quote)) => Some(Some((target_base_amount, quote))),
                },
            }
        } else {
            match spec_r_above_back_to_one(
                mid_price,
                base_balance,
                target_base_amount,
                quote_balance,
                liquidity_parameter_ppb,
            ) {
                None => None,
                Some(None) => Some(None),
                Some(Some(pay_base_token)) => match imprecise(
                    oadd(Some(whole(base_balance)), Some(whole(pay_base_token))),
                ) {
                    None => None,
                    Some(None) => Some(None),
                    Some(Some(base)) => Some(Some((base, target_quote_amount))),
                },
            }
        },
    }
}

/// Calculate base and quote target tokens.
pub fn get_expected_target(
    mid_price: u128,
    base_balance: u128,
    quote_balance: u128,
    target_base_amount: u128,
    target_quote_amount: u128,
    liquidity_parameter_ppb: u128,
) -> (r: Option<(u128, u128)>)
    requires
        spec_get_expected_target(
            mid_price,
            base_balance,
            quote_balance,
            target_base_amount,
            target_quote_amount,
            liquidity_parameter_ppb,
        ) is Some,
    ensures
        Some(r) == spec_get_expected_target(
            mid_price,
            base_balance,
            quote_balance,
            target_base_amount,
            target_quote_amount,
            liquidity_parameter_ppb,
        ),
{
    match try_get_expected_target(mid_price, base_balance, quote_balance, target_base_amount, target_quote_amount, liquidity_parameter_ppb) {
        Some(r) => r,
        None => None,
    }
}

/// The quote tokens received for selling `amount` base tokens: at
/// equilibrium along the curve from the quote target; with R < 1 along the
/// integral, up to what brings the pool back, and beyond it from
/// equilibrium; with R > 1 from the quote balance.
#[verifier::opaque]
pub open spec fn spec_query_sell_base_token(
    mid_price: u128,
    base_balance: u128,
    quote_balance: u128,
    target_base_amount: u128,
    target_quote_amount: u128,
    liquidity_parameter_ppb: u128,
    amount: u128,
) -> Option<Option<u128>> {
    match spec_get_expected_target(
        mid_price,
        base_balance,
        quote_balance,
        target_base_amount,
        target_quote_amount,
        liquidity_parameter_ppb,
    ) {
        None => None,
        Some(None) => Some(None),
        Some(Some((new_base_target, new_quote_target))) => match spec_calculate_r(
            base_balance,
            target_base_amount,
            quote_balance,
            target_quote_amount,
            liquidity_parameter_ppb,
        ) {
            None => Some(None),
            Some(r) => if r == whole(1) {
                spec_r_one_sell_base_token(
                    mid_price,
                    liquidity_parameter_ppb,
                    amount,
                    new_quote_target,
                )
            } else if r < whole(1) {
                bind(
                    imprecise(osub(Some(whole(new_base_target)), Some(whole(base_balance)))),
                    |pay_base: u128|
                        bind(
                            imprecise(
                                osub(Some(whole(quote_balance)), Some(whole(new_quote_target))),
                            ),
                            |receive_quote: u128|
                                if amount < pay_base {
                                    bind(
                                        spec_r_above_sell_base_token(
                                            mid_price,
                                            liquidity_parameter_ppb,
                                            amount,
                                            base_balance,
                                            target_base_amount,
                                        ),
                                        |received: u128|
                                            Some(
                                                Some(
                                                    if received > receive_quote {
                                                        receive_quote
                                                    } else {
                                                        received
                                                    },
                                                ),
                                            ),
                                    )
                                } else if amount == pay_base {
                                    Some(Some(receive_quote))
                                } else {
                                    bind(
                                        imprecise(
                                            osub(Some(whole(amount)), Some(whole(pay_base))),
                                        ),
                                        |rest: u128|
                                            bind(
                                                spec_r_one_sell_base_token(
                                                    mid_price,
                                                    liquidity_parameter_ppb,
                                                    rest,
                                                    new_quote_target,
                                                ),
                                                |more: u128|
                                                    imprecise(
                                                        oadd(
                                                            Some(whole(receive_quote)),
                                                            Some(whole(more)),
                                                        ),
                                                    ),
                                            ),
                                    )
                                },
                        ),
                )
            } else {
                spec_r_below_sell_base_token(
                    mid_price,
                    liquidity_parameter_ppb,
                    amount,
                    quote_balance,
                    new_quote_target,
                )
            },
        },
    }
}

/// Query the sell price for base token.
pub fn query_sell_base_token(
    mid_price: u128,
    base_balance: u128,
    quote_balance: u128,
    target_base_amount: u128,
    target_quote_amount: u128,
    liquidity_parameter_ppb: u128,
    amount: u128,
) -> (r: Option<u128>)
    requires
        spec_query_sell_base_token(
            mid_price,
            base_balance,
            quote_balance,
            target_base_amount,
            target_quote_amount,
            liquidity_parameter_ppb,
            amount,
        ) is Some,
    ensures
        Some(r) == spec_query_sell_base_token(
            mid_price,
            base_balance,
            quote_balance,
            target_base_amount,
            target_quote_amount,
            liquidity_parameter_ppb,
            amount,
        ),
{
    match try_query_sell_base_token(mid_price, base_balance, quote_balance, target_base_amount, target_quote_amount, liquidity_parameter_ppb, amount) {
        Some(r) => r,
        None => None,
    }
}

/// The quote tokens paid for buying `amount` base tokens: at equilibrium
/// along the integral from the base target; with R < 1 along the curve up
/// to what brings the pool back, and beyond it from equilibrium; with R > 1
/// along the integral from the base balance.
#[verifier::opaque]
pub open spec fn spec_query_buy_base_token(
    mid_price: u128,
    base_balance: u128,
    quote_balance: u128,
    target_base_amount: u128,
    target_quote_amount: u128,
    liquidity_parameter_ppb: u128,
    amount: u128,
) -> Option<Option<u128>> {
    match spec_get_expected_target(
        mid_price,
        base_balance,
        quote_balance,
        target_base_amount,
        target_quote_amount,
        liquidity_parameter_ppb,
    ) {
        None => None,
        Some(None) => Some(None),
        Some(Some((new_base_target, new_quote_target))) => match spec_calculate_r(
            base_balance,
            target_base_amount,
            quote_balance,
            target_quote_amount,
            liquidity_parameter_ppb,
        ) {
            None => Some(None),
            Some(r) => if r == whole(1) {
                spec_r_one_buy_base_token(mid_price, liquidity_parameter_ppb, amount, new_base_target)
            } else if r < whole(1) {
                bind(
                    imprecise(osub(Some(whole(new_quote_target)), Some(whole(quote_balance)))),
                    |pay_quote: u128|
                        bind(
                            imprecise(
                                osub(Some(whole(base_balance)), Some(whole(new_base_target))),
                            ),
                            |receive_base: u128|
                                if amount < receive_base {
                                    spec_r_below_buy_base_token(
                                        mid_price,
                                        liquidity_parameter_ppb,
                                        amount,
                                        quote_balance,
                                        new_quote_target,
                                    )
                                } else if amount == receive_base {
                                    Some(Some(pay_quote))
                                } else {
                                    bind(
                                        imprecise(
                                            osub(Some(whole(amount)), Some(whole(receive_base))),
                                        ),
                                        |rest: u128|
                                            bind(
                                                spec_r_one_buy_base_token(
                                                    mid_price,
                                                    liquidity_parameter_ppb,
                                                    rest,
                                                    new_base_target,
                                                ),
                                                |more: u128|
                                                    imprecise(
                                                        oadd(
                                                            Some(whole(pay_quote)),
                                                            Some(whole(more)),
                                                        ),
                                                    ),
                                            ),
                                    )
                                },
                        ),
                )
            } else {
                spec_r_above_buy_base_token(
                    mid_price,
                    liquidity_parameter_ppb,
                    amount,
                    base_balance,
                    new_base_target,
                )
            },
        },
    }
}

/// Query the buy price for base token.
pub fn query_buy_base_token(
    mid_price: u128,
    base_balance: u128,
    quote_balance: u128,
    target_base_amount: u128,
    target_quote_amount: u128,
    liquidity_parameter_ppb: u128,
    amount: u128,
) -> (r: Option<u128>)
    requires
        spec_query_buy_base_token(
            mid_price,
            base_balance,
            quote_balance,
            target_base_amount,
            target_quote_amount,
            liquidity_parameter_ppb,
            amount,
        ) is Some,
    ensures
        Some(r) == spec_query_buy_base_token(
            mid_price,
            base_balance,
            quote_balance,
            target_base_amount,
            target_quote_amount,
            liquidity_parameter_ppb,
            amount,
        ),
{
    match try_query_buy_base_token(mid_price, base_balance, quote_balance, target_base_amount, target_quote_amount, liquidity_parameter_ppb, amount) {
        Some(r) => r,
        None => None,
    }
}

/// An implementation of the Proactive Market Maker algorithm as a curve
#[derive(Clone, Copy, Debug, PartialEq, Eq, Structural)]
pub struct PMMCurve {
    /// The mid price of the buy/sell requests.
    pub mid_price: u64,
    /// The liquidity parameter gives the flexibility to handle different market
    /// situations. It's akin to the slope in the depth chart. Parts per million.
    pub liquidity_parameter_ppb: u32,
    /// The initial number of base tokens in the inventory.
    pub base_regression_target: u64,
    /// The initial number of quote tokens in the inventory.
    pub quote_regression_target: u64,
}

/// The outcome of a swap on the curve: selling base tokens (A) for quote
/// tokens, or buying base tokens with quote tokens; the source amount is
/// what is swapped.
pub open spec fn spec_pmm_swap(
    curve: PMMCurve,
    source_amount: u128,
    swap_source_amount: u128,
    swap_destination_amount: u128,
    trade_direction: TradeDirection,
) -> Option<Option<SwapWithoutFeesResult>> {
    let quote = match trade_direction {
        TradeDirection::AtoB => spec_query_sell_base_token(
            curve.mid_price as u128,
            swap_source_amount,
            swap_destination_amount,
            curve.base_regression_target as u128,
            curve.quote_regression_target as u128,
            curve.liquidity_parameter_ppb as u128,
            source_amount,
        ),
        TradeDirection::BtoA => spec_query_buy_base_token(
            curve.mid_price as u128,
            swap_destination_amount,
            swap_source_amount,
            curve.base_regression_target as u128,
            curve.quote_regression_target as u128,
            curve.liquidity_parameter_ppb as u128,
            source_amount,
        ),
    };
    match quote {
        None => None,
        Some(None) => Some(None),
        Some(Some(destination_amount_swapped)) => Some(
            Some(
                SwapWithoutFeesResult {
                    source_amount_swapped: source_amount,
                    destination_amount_swapped,
                },
            ),
        ),
    }
}

/// The normalized value of a pool: `sqrt(k * A * B) + (1 - k) * (A + B) / 2`.
pub open spec fn spec_pmm_normalized_value(
    liquidity_parameter_ppb: u32,
    swap_token_a_amount: u128,
    swap_token_b_amount: u128,
) -> Option<nat> {
    let k = liquidity(liquidity_parameter_ppb as u128);
    let a = Some(whole(swap_token_a_amount));
    let b = Some(whole(swap_token_b_amount));
    oadd(
        osqrt(omul(k, omul(a, b))),
        omul(osub(Some(whole(1)), k), odiv(oadd(a, b), Some(whole(2)))),
    )
}

/// The bytes of a packed curve.
pub open spec fn pmm_bytes(curve: PMMCurve) -> Seq<u8> {
    le_u64(curve.mid_price) + le_u32(curve.liquidity_parameter_ppb) + le_u64(
        curve.base_regression_target,
    ) + le_u64(curve.quote_regression_target)
}

impl PMMCurve {
    /// Size of the packed curve
    pub const LEN: usize = 32;

    /// Calculate how much destination token will be provided given an amount
    /// of source token.
    pub fn swap_without_fees(
        &self,
        source_amount: u128,
        swap_source_amount: u128,
        swap_destination_amount: u128,
        trade_direction: TradeDirection,
    ) -> (r: Option<SwapWithoutFeesResult>)
        requires
            spec_pmm_swap(
                *self,
                source_amount,
                swap_source_amount,
                swap_destination_amount,
                trade_direction,
            ) is Some,
        ensures
            Some(r) == spec_pmm_swap(
                *self,
                source_amount,
                swap_source_amount,
                swap_destination_amount,
                trade_direction,
            ),
    {
        match self.try_swap_without_fees(source_amount, swap_source_amount, swap_destination_amount, trade_direction) {
            Some(r) => r,
            None => None,
        }
    }

    /// The outcome of a swap on the curve, or `None` where a conversion
    /// along the way would leave 128 bits.
    pub fn try_swap_without_fees(
        &self,
        source_amount: u128,
        swap_source_amount: u128,
        swap_destination_amount: u128,
        trade_direction: TradeDirection,
    ) -> (r: Option<Option<SwapWithoutFeesResult>>)
        ensures
            r == spec_pmm_swap(
                *self,
                source_amount,
                swap_source_amount,
                swap_destination_amount,
                trade_direction,
            ),
    {
        let quote = match trade_direction {
            TradeDirection::AtoB => try_query_sell_base_token(
                self.mid_price as u128,
                swap_source_amount,
                swap_destination_amount,
                self.base_regression_target as u128,
                self.quote_regression_target as u128,
                self.liquidity_parameter_ppb as u128,
                source_amount,
            ),
            TradeDirection::BtoA => try_query_buy_base_token(
                self.mid_price as u128,
                swap_destination_amount,
                swap_source_amount,
                self.base_regression_target as u128,
                self.quote_regression_target as u128,
                self.liquidity_parameter_ppb as u128,
                source_amount,
            ),
        };
        match quote {
            None => None,
            Some(None) => Some(None),
            Some(Some(destination_amount_swapped)) => Some(
                Some(
                    SwapWithoutFeesResult {
                        source_amount_swapped: source_amount,
                        destination_amount_swapped,
                    },
                ),
            ),
        }
    }

    /// Get the supply for a new pool: a fixed initial supply
    pub fn new_pool_supply(&self) -> (r: u128)
        ensures
            r == INITIAL_SWAP_POOL_AMOUNT,
    {
        INITIAL_SWAP_POOL_AMOUNT
    }

    /// Validate that the given curve has no invalid parameters: the
    /// liquidity parameter is at most one
    pub fn validate(&self) -> (r: Result<(), SwapError>)
        ensures
            self.liquidity_parameter_ppb > 1_000_000_000 ==> r == Err::<(), SwapError>(
                SwapError::InvalidCurve,
            ),
            self.liquidity_parameter_ppb <= 1_000_000_000 ==> r is Ok,
    {
        if self.liquidity_parameter_ppb as u128 > BILLION {
            Err(SwapError::InvalidCurve)
        } else {
            Ok(())
        }
    }

    /// Validate the given supply on initialization: both sides must hold
    /// tokens.
    pub fn validate_supply(&self, token_a_amount: u64, token_b_amount: u64) -> (r: Result<
        (),
        SwapError,
    >)
        ensures
            token_a_amount == 0 || token_b_amount == 0 ==> r == Err::<(), SwapError>(
                SwapError::EmptySupply,
            ),
            token_a_amount != 0 && token_b_amount != 0 ==> r is Ok,
    {
        if token_a_amount == 0 {
            return Err(SwapError::EmptySupply);
        }
        if token_b_amount == 0 {
            return Err(SwapError::EmptySupply);
        }
        Ok(())
    }

    /// Deposits are allowed on this curve.
    pub fn allows_deposits(&self) -> (r: bool)
        ensures
            r,
    {
        true
    }

    /// Calculates the total normalized value of the curve given the liquidity
    /// parameters.
    pub fn normalized_value(&self, swap_token_a_amount: u128, swap_token_b_amount: u128) -> (r:
        Option<PreciseNumber>)
        ensures
            pv(r) == spec_pmm_normalized_value(
                self.liquidity_parameter_ppb,
                swap_token_a_amount,
                swap_token_b_amount,
            ),
    {
        let swap_token_a_amount = precise(swap_token_a_amount);
        let swap_token_b_amount = precise(swap_token_b_amount);
        let liquidity_parameter = liquidity_parameter(self.liquidity_parameter_ppb as u128)?;

        liquidity_parameter.checked_mul(
            &swap_token_a_amount.checked_mul(&swap_token_b_amount)?,
        )?.sqrt()?.checked_add(
            &precise(1).checked_sub(&liquidity_parameter)?.checked_mul(
                &swap_token_a_amount.checked_add(&swap_token_b_amount)?.checked_div(&precise(2))?,
            )?,
        )
    }

    fn pack_fields(&self, output: &mut [u8])
        requires
            old(output)@.len() >= 32,
        ensures
            final(output)@ == overwrite(old(output)@, 0, pmm_bytes(*self)),
            final(output)@.len() == old(output)@.len(),
    {
        let ghost start = output@;
        write_u64(output, 0, self.mid_price);
        write_u32(output, 8, self.liquidity_parameter_ppb);
        write_u64(output, 12, self.base_regression_target);
        write_u64(output, 20, self.quote_regression_target);
        proof {
            lemma_le_u64_roundtrip(self.mid_price);
            lemma_le_u32_roundtrip(self.liquidity_parameter_ppb);
            lemma_le_u64_roundtrip(self.base_regression_target);
            lemma_le_u64_roundtrip(self.quote_regression_target);
            assert(output@ =~= overwrite(start, 0, pmm_bytes(*self)));
        }
    }
}

impl Default for PMMCurve {
    fn default() -> (r: Self)
        ensures
            r == (PMMCurve {
                mid_price: 0,
                liquidity_parameter_ppb: 0,
                base_regression_target: 0,
                quote_regression_target: 0,
            }),
    {
        PMMCurve {
            mid_price: 0,
            liquidity_parameter_ppb: 0,
            base_regression_target: 0,
            quote_regression_target: 0,
        }
    }
}

impl IsInitialized for PMMCurve {
    open spec fn spec_is_initialized(&self) -> bool {
        true
    }

    fn is_initialized(&self) -> (b: bool) {
        true
    }
}

impl Pack for PMMCurve {
    open spec fn spec_packable(&self) -> bool {
        true
    }

    open spec fn spec_len() -> nat {
        32
    }

    open spec fn spec_pack_into(&self, dst: Seq<u8>) -> Seq<u8> {
        overwrite(dst, 0, pmm_bytes(*self))
    }

    open spec fn spec_unpack_from_slice(src: Seq<u8>) -> Result<Self, ProgramError> {
        Ok(
            PMMCurve {
                mid_price: read_le_u64(src, 0),
                liquidity_parameter_ppb: read_le_u32(src, 8),
                base_regression_target: read_le_u64(src, 12),
                quote_regression_target: read_le_u64(src, 20),
            },
        )
    }

    fn get_packed_len() -> (n: usize) {
        32
    }

    fn pack_into_slice(&self, output: &mut [u8]) {
        self.pack_fields(output);
    }

    fn unpack_from_slice(input: &[u8]) -> (r: Result<PMMCurve, ProgramError>) {
        Ok(
            Self {
                mid_price: read_u64(input, 0),
                liquidity_parameter_ppb: read_u32(input, 8),
                base_regression_target: read_u64(input, 12),
                quote_regression_target: read_u64(input, 20),
            },
        )
    }
}

impl DynPack for PMMCurve {
    open spec fn spec_dyn_len(&self) -> nat {
        32
    }

    open spec fn spec_dyn_pack_into(&self, dst: Seq<u8>) -> Seq<u8> {
        overwrite(dst, 0, pmm_bytes(*self))
    }

    fn pack_into_slice(&self, output: &mut [u8]) {
        self.pack_fields(output);
    }
}

/// Packing a market maker curve and unpacking the bytes gives the curve
/// back.
pub proof fn lemma_pmm_curve_pack_roundtrip(curve: PMMCurve, dst: Seq<u8>)
    requires
        dst.len() >= 32,
    ensures
        PMMCurve::spec_unpack_from_slice(curve.spec_pack_into(dst)) == Ok::<PMMCurve, ProgramError>(
            curve,
        ),
{
    lemma_le_u64_roundtrip(curve.mid_price);
    lemma_le_u32_roundtrip(curve.liquidity_parameter_ppb);
    lemma_le_u64_roundtrip(curve.base_regression_target);
    lemma_le_u64_roundtrip(curve.quote_regression_target);
    let w = curve.spec_pack_into(dst);
    assert(w.subrange(0, 8) =~= le_u64(curve.mid_price));
    assert(w.subrange(8, 12) =~= le_u32(curve.liquidity_parameter_ppb));
    assert(w.subrange(12, 20) =~= le_u64(curve.base_regression_target));
    assert(w.subrange(20, 28) =~= le_u64(curve.quote_regression_target));
}


/// Any liquidity parameter in parts per billion has a precise value.
proof fn lemma_liquidity_defined(liquidity_parameter_ppb: u128)
    ensures
        liquidity(liquidity_parameter_ppb) is Some,
{
    let a = whole(liquidity_parameter_ppb);
    let top = crate::curve::math::u256_max();
    let half = crate::curve::math::precise_rounding();
    let w = crate::curve::math::word();
    assert(a * PRECISE_ONE + half <= top) by (nonlinear_arith)
        requires
            a == liquidity_parameter_ppb * PRECISE_ONE,
            liquidity_parameter_ppb <= u128::MAX,
            PRECISE_ONE == 1_000_000_000_000u128,
            half == 500_000_000_000nat,
            top == w * w * w * w - 1,
            w == 0x1_0000_0000_0000_0000,
    ;
}

/// At equilibrium, where both balances stand at their targets, selling base
/// tokens is the sell at equilibrium from the quote target.
pub proof fn lemma_query_sell_at_equilibrium(
    mid_price: u128,
    target_base_amount: u128,
    target_quote_amount: u128,
    liquidity_parameter_ppb: u128,
    amount: u128,
)
    ensures
        spec_query_sell_base_token(
            mid_price,
            target_base_amount,
            target_quote_amount,
            target_base_amount,
            target_quote_amount,
            liquidity_parameter_ppb,
            amount,
        ) == spec_r_one_sell_base_token(
            mid_price,
            liquidity_parameter_ppb,
            amount,
            target_quote_amount,
        ),
{
    lemma_liquidity_defined(liquidity_parameter_ppb);
    reveal(spec_calculate_r);
    reveal(spec_get_expected_target);
    reveal(spec_query_sell_base_token);
    assert(spec_calculate_r(
        target_base_amount,
        target_base_amount,
        target_quote_amount,
        target_quote_amount,
        liquidity_parameter_ppb,
    ) == Some(whole(1)));
}


/// The outcome of making a precise value a whole number: no value gives no
/// number; a value beyond 128 bits is refused (`None`), where the
/// conversion would not return.
fn convert(value: Option<PreciseNumber>) -> (r: Option<Option<u128>>)
    ensures
        r == imprecise(pv(value)),
{
    match value {
        None => Some(None),
        Some(v) => if v.fits_imprecise() {
            Some(v.to_imprecise())
        } else {
            None
        },
    }
}

/// Goes on from an outcome: its number, or the outcome to stop with.
fn proceed(o: Option<Option<u128>>) -> (r: Result<u128, Option<Option<u128>>>)
    ensures
        match o {
            Some(Some(x)) => r == Ok::<u128, Option<Option<u128>>>(x),
            _ => r == Err::<u128, Option<Option<u128>>>(o),
        },
{
    match o {
        Some(Some(x)) => Ok(x),
        _ => Err(o),
    }
}

/// The precise value of the integral, before it is made a whole number.
fn general_integral_value(
    token_regression_target: u128,
    token_balance_1: u128,
    token_balance_2: u128,
    mid_price: u128,
    liquidity_parameter_ppb: u128,
) -> (r: Option<PreciseNumber>)
    ensures
        pv(r) == spec_general_integral_value(
            token_regression_target,
            token_balance_1,
            token_balance_2,
            mid_price,
            liquidity_parameter_ppb,
        ),
{
    proof {
        reveal(spec_general_integral_value);
    }
    // i * (1 - k + k * ((B_0)^2 / (B_1 * B_2)))
    let base_regression_target = precise(token_regression_target);
    let base_balance_1 = precise(token_balance_1);
    let base_balance_2 = precise(token_balance_2);
    let mid_price = precise(mid_price);
    let liquidity_parameter = liquidity_parameter(liquidity_parameter_ppb)?;

    let fair_amount = mid_price.checked_mul(&base_balance_1.checked_sub(&base_balance_2)?)?;
    let penalty_factor = base_regression_target.checked_mul(&base_regression_target)?.checked_div(
        &base_balance_1,
    )?.checked_div(&base_balance_2)?.ceiling()?;
    let penalty = liquidity_parameter.checked_mul(&penalty_factor)?;

    let value = fair_amount.checked_mul(
        &precise(1).checked_sub(&liquidity_parameter)?.checked_add(&penalty)?,
    )?;
    Some(value)
}

/// The integral of the marginal price, or `None` where making it a whole
/// number would leave 128 bits.
pub fn try_general_integral(
    token_regression_target: u128,
    token_balance_1: u128,
    token_balance_2: u128,
    mid_price: u128,
    liquidity_parameter_ppb: u128,
) -> (r: Option<Option<u128>>)
    ensures
        r == spec_general_integral(
            token_regression_target,
            token_balance_1,
            token_balance_2,
            mid_price,
            liquidity_parameter_ppb,
        ),
{
    proof {
        reveal(spec_general_integral);
    }
    convert(
        general_integral_value(
            token_regression_target,
            token_balance_1,
            token_balance_2,
            mid_price,
            liquidity_parameter_ppb,
        ),
    )
}

/// The precise root of the trade's quadratic, before it is made a whole
/// number.
#[verifier::spinoff_prover]
#[verifier::rlimit(40)]
fn solve_quadratic_function_for_trade_value(
    quote_regression_target: u128,
    quote_balance_1: u128,
    mid_price_mul_delta_base: u128,
    delta_b_sign: bool,
    liquidity_parameter_ppb: u128,
) -> (r: Option<PreciseNumber>)
    ensures
        pv(r) == spec_solve_quadratic_function_for_trade_value(
            quote_regression_target,
            quote_balance_1,
            mid_price_mul_delta_base,
            delta_b_sign,
            liquidity_parameter_ppb,
        ),
{
    proof {
        reveal(spec_solve_quadratic_function_for_trade_value);
    }
    // General Quadratic Equation Formula on this Equation:
    // (1 - k) * (Q_2)^2 + (((k * (Q_0)^2) / Q_1)) - Q_1 + k * Q_1 - i * dB) * (Q_2)^2
    let quote_regression_target = precise(quote_regression_target);
    let quote_balance_1 = precise(quote_balance_1);
    let mid_price_mul_delta_base = precise(mid_price_mul_delta_base);
    let liquidity_parameter = liquidity_parameter(liquidity_parameter_ppb)?;

    let mut b_factor = liquidity_parameter.checked_mul(&quote_regression_target)?.checked_mul(
        &quote_regression_target,
    )?.checked_div(&quote_balance_1)?;
    let mut b = precise(1).checked_sub(&liquidity_parameter)?.checked_mul(&quote_balance_1)?;

    if delta_b_sign {
        b = b.checked_add(&mid_price_mul_delta_base)?;
    } else {
        b_factor = b_factor.checked_add(&mid_price_mul_delta_base)?;
    }

    let minus_b_sign = b.greater_than_or_equal(&b_factor);
    let b = if minus_b_sign {
        b.checked_sub(&b_factor)?
    } else {
        b_factor.checked_sub(&b)?
    };

    let square_root = precise(1).checked_sub(&liquidity_parameter)?.checked_mul(
        &precise(4),
    )?.checked_mul(
        &liquidity_parameter.checked_mul(&quote_regression_target)?.checked_mul(
            &quote_regression_target,
        )?,
    )?;
    let square_root = b.checked_mul(&b)?.checked_add(&square_root)?.sqrt()?;

    let denominator = precise(1).checked_sub(&liquidity_parameter)?.checked_mul(&precise(2))?;

    let numerator = if minus_b_sign {
        b.checked_add(&square_root)?
    } else {
        square_root.checked_sub(&b)?
    };

    if delta_b_sign {
        numerator.checked_div(&denominator)?.floor()
    } else {
        numerator.checked_div(&denominator)?.ceiling()
    }
}

/// The new quote balance of a trade, or `None` where making it a whole
/// number would leave 128 bits.
pub fn try_solve_quadratic_function_for_trade(
    quote_regression_target: u128,
    quote_balance_1: u128,
    mid_price_mul_delta_base: u128,
    delta_b_sign: bool,
    liquidity_parameter_ppb: u128,
) -> (r: Option<Option<u128>>)
    ensures
        r == spec_solve_quadratic_function_for_trade(
            quote_regression_target,
            quote_balance_1,
            mid_price_mul_delta_base,
            delta_b_sign,
            liquidity_parameter_ppb,
        ),
{
    proof {
        reveal(spec_solve_quadratic_function_for_trade);
    }
    convert(
        solve_quadratic_function_for_trade_value(
            quote_regression_target,
            quote_balance_1,
            mid_price_mul_delta_base,
            delta_b_sign,
            liquidity_parameter_ppb,
        ),
    )
}

/// The precise new target, before it is made a whole number.
fn solve_quadratic_function_for_target_value(
    token_balance_1: u128,
    liquidity_parameter_ppb: u128,
    fair_amount: u128,
) -> (r: Option<PreciseNumber>)
    ensures
        pv(r) == spec_solve_quadratic_function_for_target_value(
            token_balance_1,
            liquidity_parameter_ppb,
            fair_amount,
        ),
{
    proof {
        reveal(spec_solve_quadratic_function_for_target_value);
    }
    // B_0 = B_1 + B_1 * ((sqrt(1 + (4 * k * dQ / B_1 * i)) - 1) / 2 * k)
    let token_balance_1 = precise(token_balance_1);
    let liquidity_parameter = liquidity_parameter(liquidity_parameter_ppb)?;
    let fair_amount = precise(fair_amount);

    let sqrt = liquidity_parameter.checked_mul(&fair_amount)?.checked_mul(&precise(4))?.checked_div(
        &token_balance_1,
    )?.ceiling()?;
    let sqrt = sqrt.checked_add(&precise(1))?.sqrt()?;
    let premium = sqrt.checked_sub(&precise(1))?.checked_div(
        &liquidity_parameter.checked_mul(&precise(2))?,
    )?.ceiling()?;

    let value = token_balance_1.checked_mul(&precise(1).checked_add(&premium)?)?;
    Some(value)
}

/// The regression target at a price, or `None` where making it a whole
/// number would leave 128 bits.
pub fn try_solve_quadratic_function_for_target(
    token_balance_1: u128,
    liquidity_parameter_ppb: u128,
    fair_amount: u128,
) -> (r: Option<Option<u128>>)
    ensures
        r == spec_solve_quadratic_function_for_target(
            token_balance_1,
            liquidity_parameter_ppb,
            fair_amount,
        ),
{
    proof {
        reveal(spec_solve_quadratic_function_for_target);
    }
    convert(solve_quadratic_function_for_target_value(token_balance_1, liquidity_parameter_ppb, fair_amount))
}

/// The quote tokens received for selling `amount` base tokens at
/// equilibrium, or `None` where a conversion would leave 128 bits.
pub fn try_r_one_sell_base_token(
    mid_price: u128,
    liquidity_parameter_ppb: u128,
    amount: u128,
    target_quote_amount: u128,
) -> (r: Option<Option<u128>>)
    ensures
        r == spec_r_one_sell_base_token(mid_price, liquidity_parameter_ppb, amount, target_quote_amount),
{
    proof {
        reveal(spec_r_one_sell_base_token);
    }
    let delta = match proceed(convert(precise(mid_price).checked_mul(&precise(amount)))) {
        Ok(x) => x,
        Err(stop) => {
            return stop;
        },
    };
    let quote_balance_2 = match proceed(
        try_solve_quadratic_function_for_trade(
            target_quote_amount,
            target_quote_amount,
            delta,
            false,
            liquidity_parameter_ppb,
        ),
    ) {
        Ok(x) => x,
        Err(stop) => {
            return stop;
        },
    };
    convert(precise(target_quote_amount).checked_sub(&precise(quote_balance_2)))
}

/// The quote tokens paid for buying `amount` base tokens at equilibrium,
/// or `None` where a conversion would leave 128 bits.
pub fn try_r_one_buy_base_token(
    mid_price: u128,
    liquidity_parameter_ppb: u128,
    amount: u128,
    target_base_amount: u128,
) -> (r: Option<Option<u128>>)
    ensures
        r == spec_r_one_buy_base_token(mid_price, liquidity_parameter_ppb, amount, target_base_amount),
{
    proof {
        reveal(spec_r_one_buy_base_token);
    }
    if amount > target_base_amount {
        return Some(None);
    }
    let base_balance_2 = match proceed(
        convert(precise(target_base_amount).checked_sub(&precise(amount))),
    ) {
        Ok(x) => x,
        Err(stop) => {
            return stop;
        },
    };
    try_general_integral(
        target_base_amount,
        target_base_amount,
        base_balance_2,
        mid_price,
        liquidity_parameter_ppb,
    )
}

/// The quote tokens received for selling `amount` base tokens when R < 1,
/// or `None` where a conversion would leave 128 bits.
pub fn try_r_below_sell_base_token(
    mid_price: u128,
    liquidity_parameter_ppb: u128,
    amount: u128,
    quote_balance: u128,
    target_quote_amount: u128,
) -> (r: Option<Option<u128>>)
    ensures
        r == spec_r_below_sell_base_token(
            mid_price,
            liquidity_parameter_ppb,
            amount,
            quote_balance,
            target_quote_amount,
        ),
{
    proof {
        reveal(spec_r_below_sell_base_token);
    }
    let delta = match proceed(convert(precise(mid_price).checked_mul(&precise(amount)))) {
        Ok(x) => x,
        Err(stop) => {
            return stop;
        },
    };
    let quote_balance_2 = match proceed(
        try_solve_quadratic_function_for_trade(
            target_quote_amount,
            quote_balance,
            delta,
            false,
            liquidity_parameter_ppb,
        ),
    ) {
        Ok(x) => x,
        Err(stop) => {
            return stop;
        },
    };
    convert(precise(quote_balance).checked_sub(&precise(quote_balance_2)))
}

/// The quote tokens paid for buying `amount` base tokens when R < 1, or
/// `None` where a conversion would leave 128 bits.
pub fn try_r_below_buy_base_token(
    mid_price: u128,
    liquidity_parameter_ppb: u128,
    amount: u128,
    quote_balance: u128,
    target_quote_amount: u128,
) -> (r: Option<Option<u128>>)
    ensures
        r == spec_r_below_buy_base_token(
            mid_price,
            liquidity_parameter_ppb,
            amount,
            quote_balance,
            target_quote_amount,
        ),
{
    proof {
        reveal(spec_r_below_buy_base_token);
    }
    let delta_value = match precise(mid_price).checked_mul(&precise(amount)) {
        Some(product) => product.ceiling(),
        None => None,
    };
    let delta = match proceed(convert(delta_value)) {
        Ok(x) => x,
        Err(stop) => {
            return stop;
        },
    };
    let quote_balance_2 = match proceed(
        try_solve_quadratic_function_for_trade(
            target_quote_amount,
            quote_balance,
            delta,
            true,
            liquidity_parameter_ppb,
        ),
    ) {
        Ok(x) => x,
        Err(stop) => {
            return stop;
        },
    };
    convert(precise(quote_balance_2).checked_sub(&precise(quote_balance)))
}

/// The quote tokens that bring a pool with R < 1 back to equilibrium, or
/// `None` where a conversion would leave 128 bits.
pub fn try_r_below_back_to_one(
    mid_price: u128,
    base_balance: u128,
    target_base_amount: u128,
    quote_balance: u128,
    liquidity_parameter_ppb: u128,
) -> (r: Option<Option<u128>>)
    ensures
        r == spec_r_below_back_to_one(
            mid_price,
            base_balance,
            target_base_amount,
            quote_balance,
            liquidity_parameter_ppb,
        ),
{
    proof {
        reveal(spec_r_below_back_to_one);
    }
    let fair_amount = match precise(base_balance).checked_sub(&precise(target_base_amount)) {
        Some(sparse_base) => sparse_base.checked_mul(&precise(mid_price)),
        None => None,
    };
    let fair = match proceed(convert(fair_amount)) {
        Ok(x) => x,
        Err(stop) => {
            return stop;
        },
    };
    let new_target_quote = match proceed(
        try_solve_quadratic_function_for_target(quote_balance, liquidity_parameter_ppb, fair),
    ) {
        Ok(x) => x,
        Err(stop) => {
            return stop;
        },
    };
    convert(precise(new_target_quote).checked_sub(&precise(quote_balance)))
}

/// The quote tokens received for selling `amount` base tokens when R > 1,
/// or `None` where a conversion would leave 128 bits.
pub fn try_r_above_sell_base_token(
    mid_price: u128,
    liquidity_parameter_ppb: u128,
    amount: u128,
    base_balance: u128,
    target_base_amount: u128,
) -> (r: Option<Option<u128>>)
    ensures
        r == spec_r_above_sell_base_token(
            mid_price,
            liquidity_parameter_ppb,
            amount,
            base_balance,
            target_base_amount,
        ),
{
    proof {
        reveal(spec_r_above_sell_base_token);
    }
    let base_balance_1 = match proceed(
        convert(precise(base_balance).checked_add(&precise(amount))),
    ) {
        Ok(x) => x,
        Err(stop) => {
            return stop;
        },
    };
    try_general_integral(
        target_base_amount,
        base_balance_1,
        base_balance,
        mid_price,
        liquidity_parameter_ppb,
    )
}

/// The quote tokens paid for buying `amount` base tokens when R > 1, or
/// `None` where a conversion would leave 128 bits.
pub fn try_r_above_buy_base_token(
    mid_price: u128,
    liquidity_parameter_ppb: u128,
    amount: u128,
    base_balance: u128,
    target_base_amount: u128,
) -> (r: Option<Option<u128>>)
    ensures
        r == spec_r_above_buy_base_token(
            mid_price,
            liquidity_parameter_ppb,
            amount,
            base_balance,
            target_base_amount,
        ),
{
    proof {
        reveal(spec_r_above_buy_base_token);
    }
    if amount > base_balance {
        return Some(None);
    }
    let base_balance_2 = match proceed(
        convert(precise(base_balance).checked_sub(&precise(amount))),
    ) {
        Ok(x) => x,
        Err(stop) => {
            return stop;
        },
    };
    try_general_integral(
        target_base_amount,
        base_balance,
        base_balance_2,
        mid_price,
        liquidity_parameter_ppb,
    )
}

/// The base tokens that bring a pool with R > 1 back to equilibrium, or
/// `None` where a conversion would leave 128 bits.
pub fn try_r_above_back_to_one(
    mid_price: u128,
    quote_balance: u128,
    target_quote_amount: u128,
    base_balance: u128,
    liquidity_parameter_ppb: u128,
) -> (r: Option<Option<u128>>)
    ensures
        r == spec_r_above_back_to_one(
            mid_price,
            quote_balance,
            target_quote_amount,
            base_balance,
            liquidity_parameter_ppb,
        ),
{
    proof {
        reveal(spec_r_above_back_to_one);
    }
    let fair_amount = match precise(quote_balance).checked_sub(&precise(target_quote_amount)) {
        Some(sparse_quote) => match sparse_quote.checked_div(&precise(mid_price)) {
            Some(ratio) => ratio.floor(),
            None => None,
        },
        None => None,
    };
    let fair = match proceed(convert(fair_amount)) {
        Ok(x) => x,
        Err(stop) => {
            return stop;
        },
    };
    let new_target_base = match proceed(
        try_solve_quadratic_function_for_target(base_balance, liquidity_parameter_ppb, fair),
    ) {
        Ok(x) => x,
        Err(stop) => {
            return stop;
        },
    };
    convert(precise(new_target_base).checked_sub(&precise(base_balance)))
}

/// The base and quote targets the pool moves back to, or `None` where a
/// conversion would leave 128 bits.
#[verifier::rlimit(40)]
pub fn try_get_expected_target(
    mid_price: u128,
    base_balance: u128,
    quote_balance: u128,
    target_base_amount: u128,
    target_quote_amount: u128,
    liquidity_parameter_ppb: u128,
) -> (r: Option<Option<(u128, u128)>>)
    ensures
        r == spec_get_expected_target(
            mid_price,
            base_balance,
            quote_balance,
            target_base_amount,
            target_quote_amount,
            liquidity_parameter_ppb,
        ),
{
    proof {
        reveal(spec_get_expected_target);
    }
    let r = match calculate_r(
        base_balance,
        target_base_amount,
        quote_balance,
        target_quote_amount,
        liquidity_parameter_ppb,
    ) {
        Some(r) => r,
        None => {
            return Some(None);
        },
    };
    if r.equals(&precise(1)) {
        Some(Some((target_base_amount, target_quote_amount)))
    } else if r.less_than(&precise(1)) {
        let pay_quote_token = match try_r_below_back_to_one(
            mid_price,
            base_balance,
            target_base_amount,
            quote_balance,
            liquidity_parameter_ppb,
        ) {
            Some(Some(x)) => x,
            Some(None) => {
                return Some(None);
            },
            None => {
                return None;
            },
        };
        match convert(precise(quote_balance).checked_add(&precise(pay_quote_token))) {
            Some(Some(quote)) => Some(Some((target_base_amount, quote))),
            Some(None) => Some(None),
            None => None,
        }
    } else {
        let pay_base_token = match try_r_above_back_to_one(
            mid_price,
            base_balance,
            target_base_amount,
            quote_balance,
            liquidity_parameter_ppb,
        ) {
            Some(Some(x)) => x,
            Some(None) => {
                return Some(None);
            },
            None => {
                return None;
            },
        };
        match convert(precise(base_balance).checked_add(&precise(pay_base_token))) {
            Some(Some(base)) => Some(Some((base, target_quote_amount))),
            Some(None) => Some(None),
            None => None,
        }
    }
}


/// The quote tokens received for selling `amount` base tokens, or `None`
/// where a conversion would leave 128 bits.
#[verifier::spinoff_prover]
#[verifier::rlimit(60)]
pub fn try_query_sell_base_token(
    mid_price: u128,
    base_balance: u128,
    quote_balance: u128,
    target_base_amount: u128,
    target_quote_amount: u128,
    liquidity_parameter_ppb: u128,
    amount: u128,
) -> (r: Option<Option<u128>>)
    ensures
        r == spec_query_sell_base_token(
            mid_price,
            base_balance,
            quote_balance,
            target_base_amount,
            target_quote_amount,
            liquidity_parameter_ppb,
            amount,
        ),
{
    proof {
        reveal(spec_query_sell_base_token);
    }
    let (new_base_target, new_quote_target) = match try_get_expected_target(
        mid_price,
        base_balance,
        quote_balance,
        target_base_amount,
        target_quote_amount,
        liquidity_parameter_ppb,
    ) {
        Some(Some(targets)) => targets,
        Some(None) => {
            return Some(None);
        },
        None => {
            return None;
        },
    };
    let r = match calculate_r(
        base_balance,
        target_base_amount,
        quote_balance,
        target_quote_amount,
        liquidity_parameter_ppb,
    ) {
        Some(r) => r,
        None => {
            return Some(None);
        },
    };
    if r.equals(&precise(1)) {
        try_r_one_sell_base_token(mid_price, liquidity_parameter_ppb, amount, new_quote_target)
    } else if r.less_than(&precise(1)) {
        let pay_base = match proceed(
            convert(precise(new_base_target).checked_sub(&precise(base_balance))),
        ) {
            Ok(x) => x,
            Err(stop) => {
                return stop;
            },
        };
        let receive_quote = match proceed(
            convert(precise(quote_balance).checked_sub(&precise(new_quote_target))),
        ) {
            Ok(x) => x,
            Err(stop) => {
                return stop;
            },
        };
        if amount < pay_base {
            let received = match proceed(
                try_r_above_sell_base_token(
                    mid_price,
                    liquidity_parameter_ppb,
                    amount,
                    base_balance,
                    target_base_amount,
                ),
            ) {
                Ok(x) => x,
                Err(stop) => {
                    return stop;
                },
            };
            if received > receive_quote {
                Some(Some(receive_quote))
            } else {
                Some(Some(received))
            }
        } else if amount == pay_base {
            Some(Some(receive_quote))
        } else {
            let rest = match proceed(convert(precise(amount).checked_sub(&precise(pay_base)))) {
                Ok(x) => x,
                Err(stop) => {
                    return stop;
                },
            };
            let more = match proceed(
                try_r_one_sell_base_token(mid_price, liquidity_parameter_ppb, rest, new_quote_target),
            ) {
                Ok(x) => x,
                Err(stop) => {
                    return stop;
                },
            };
            convert(precise(receive_quote).checked_add(&precise(more)))
        }
    } else {
        try_r_below_sell_base_token(
            mid_price,
            liquidity_parameter_ppb,
            amount,
            quote_balance,
            new_quote_target,
        )
    }
}


/// The quote tokens paid for buying `amount` base tokens, or `None` where
/// a conversion would leave 128 bits.
#[verifier::spinoff_prover]
#[verifier::rlimit(60)]
pub fn try_query_buy_base_token(
    mid_price: u128,
    base_balance: u128,
    quote_balance: u128,
    target_base_amount: u128,
    target_quote_amount: u128,
    liquidity_parameter_ppb: u128,
    amount: u128,
) -> (r: Option<Option<u128>>)
    ensures
        r == spec_query_buy_base_token(
            mid_price,
            base_balance,
            quote_balance,
            target_base_amount,
            target_quote_amount,
            liquidity_parameter_ppb,
            amount,
        ),
{
    proof {
        reveal(spec_query_buy_base_token);
    }
    let (new_base_target, new_quote_target) = match try_get_expected_target(
        mid_price,
        base_balance,
        quote_balance,
        target_base_amount,
        target_quote_amount,
        liquidity_parameter_ppb,
    ) {
        Some(Some(targets)) => targets,
        Some(None) => {
            return Some(None);
        },
        None => {
            return None;
        },
    };
    let r = match calculate_r(
        base_balance,
        target_base_amount,
        quote_balance,
        target_quote_amount,
        liquidity_parameter_ppb,
    ) {
        Some(r) => r,
        None => {
            return Some(None);
        },
    };
    if r.equals(&precise(1)) {
        try_r_one_buy_base_token(mid_price, liquidity_parameter_ppb, amount, new_base_target)
    } else if r.less_than(&precise(1)) {
        let pay_quote = match proceed(
            convert(precise(new_quote_target).checked_sub(&precise(quote_balance))),
        ) {
            Ok(x) => x,
            Err(stop) => {
                return stop;
            },
        };
        let receive_base = match proceed(
            convert(precise(base_balance).checked_sub(&precise(new_base_target))),
        ) {
            Ok(x) => x,
            Err(stop) => {
                return stop;
            },
        };
        if amount < receive_base {
            try_r_below_buy_base_token(
                mid_price,
                liquidity_parameter_ppb,
                amount,
                quote_balance,
                new_quote_target,
            )
        } else if amount == receive_base {
            Some(Some(pay_quote))
        } else {
            let rest = match proceed(convert(precise(amount).checked_sub(&precise(receive_base)))) {
                Ok(x) => x,
                Err(stop) => {
                    return stop;
                },
            };
            let more = match proceed(
                try_r_one_buy_base_token(mid_price, liquidity_parameter_ppb, rest, new_base_target),
            ) {
                Ok(x) => x,
                Err(stop) => {
                    return stop;
                },
            };
            convert(precise(pay_quote).checked_add(&precise(more)))
        }
    } else {
        try_r_above_buy_base_token(
            mid_price,
            liquidity_parameter_ppb,
            amount,
            base_balance,
            new_base_target,
        )
    }
}

} // verus!
