//! The Uniswap invariant calculator.

use vstd::prelude::*;

use crate::curve::calculator::{
    default_pool_tokens_to_trading_tokens_rounded, spec_default_pool_tokens_to_trading_tokens_rounded, RoundDirection,
    default_normalized_value, default_normalized_value_fits, try_default_normalized_value, default_pool_tokens_to_trading_tokens,
    default_trading_tokens_to_pool_tokens, default_trading_tokens_to_pool_tokens_fits,
    default_validate_supply, map_zero_to_none, source_side, spec_default_normalized_value,
    spec_default_pool_tokens_to_trading_tokens, spec_default_trading_tokens_to_pool_tokens,
    spec_default_validate_supply, CurveCalculator, DynPack, SwapWithoutFeesResult,
    TradeDirection, TradingTokenResult, INITIAL_SWAP_POOL_AMOUNT,
};
use crate::error::{ProgramError, SwapError};
use crate::packing::{IsInitialized, Pack};

verus! {

/// ConstantProductCurve struct implementing CurveCalculator
#[derive(Clone, Copy, Debug, PartialEq, Eq, Structural)]
pub struct ConstantProductCurve;

/// The swap once both new pool amounts are settled: the user pays in what
/// the source side grew by and takes out what the destination side shrank
/// by, which must be something.
pub open spec fn settle(
    swap_source_amount: u128,
    swap_destination_amount: u128,
    new_swap_source_amount: int,
    new_swap_destination_amount: int,
) -> Option<SwapWithoutFeesResult> {
    if new_swap_source_amount < swap_source_amount {
        None
    } else if new_swap_destination_amount > swap_destination_amount {
        None
    } else if swap_destination_amount - new_swap_destination_amount == 0 {
        None
    } else {
        Some(
            SwapWithoutFeesResult {
                source_amount_swapped: (new_swap_source_amount - swap_source_amount) as u128,
                destination_amount_swapped: (swap_destination_amount
                    - new_swap_destination_amount) as u128,
            },
        )
    }
}

/// The constant product swap.  The source amount joins the source side; the
/// destination side becomes the product divided by the new source side,
/// rounded up; when that rounding happened, the source side is brought down
/// to the least amount that still keeps the product, so that the user is
/// not charged more than needed.
pub open spec fn spec_swap(
    source_amount: u128,
    swap_source_amount: u128,
    swap_destination_amount: u128,
) -> Option<SwapWithoutFeesResult> {
    let product = swap_source_amount * swap_destination_amount;
    let new_source = swap_source_amount + source_amount;
    if product > u128::MAX || new_source > u128::MAX || new_source == 0 {
        None
    } else if product % new_source == 0 {
        settle(swap_source_amount, swap_destination_amount, new_source, product / new_source)
    } else {
        let new_destination = product / new_source + 1;
        let least_source = if product % new_destination == 0 {
            product / new_destination
        } else {
            product / new_destination + 1
        };
        settle(swap_source_amount, swap_destination_amount, least_source, new_destination)
    }
}

/// The constant product swap calculation, factored out of its class for reuse
pub fn swap(source_amount: u128, swap_source_amount: u128, swap_destination_amount: u128) -> (r:
    Option<SwapWithoutFeesResult>)
    ensures
        r == spec_swap(source_amount, swap_source_amount, swap_destination_amount),
{
    let pool_product = swap_source_amount.checked_mul(swap_destination_amount)?;

    let mut new_swap_source_amount = swap_source_amount.checked_add(source_amount)?;
    let mut new_swap_destination_amount = pool_product.checked_div(new_swap_source_amount)?;

    // Ceiling the destination amount if there's any remainder, which will
    // almost always be the case.
    let remainder = pool_product.checked_rem(new_swap_source_amount)?;
    if remainder > 0 {
        proof {
            let p = pool_product as int;
            let s = new_swap_source_amount as int;
            assert(p / s <= p) by (nonlinear_arith)
                requires
                    s > 0,
                    p >= 0,
            ;
            assert(p / s < p) by (nonlinear_arith)
                requires
                    s > 0,
                    p % s > 0,
                    p >= 0,
                    s == 1 ==> p % s == 0,
            ;
        }
        new_swap_destination_amount = new_swap_destination_amount.checked_add(1)?;
        // now calculate the minimum amount of source token needed to get
        // the destination amount to avoid taking too much from users
        new_swap_source_amount = pool_product.checked_div(new_swap_destination_amount)?;
        let remainder = pool_product.checked_rem(new_swap_destination_amount)?;
        if remainder > 0 {
            proof {
                let p = pool_product as int;
                let d = new_swap_destination_amount as int;
                assert(p / d < p) by (nonlinear_arith)
                    requires
                        d > 1,
                        p >= 0,
                        p > 0,
                ;
            }
            new_swap_source_amount = new_swap_source_amount.checked_add(1)?;
        }
    }
    let source_amount_swapped = new_swap_source_amount.checked_sub(swap_source_amount)?;
    let destination_amount_swapped = map_zero_to_none(
        swap_destination_amount.checked_sub(new_swap_destination_amount)?,
    )?;

    Some(SwapWithoutFeesResult { source_amount_swapped, destination_amount_swapped })
}

/// A constant product swap never lowers the pool's product of amounts: after
/// the source side takes in what the user pays and the destination side
/// gives up what the user receives, the product is at least what it was.
/// The user never pays more than the source amount offered, and always
/// receives something.
pub proof fn lemma_swap_keeps_product(
    source_amount: u128,
    swap_source_amount: u128,
    swap_destination_amount: u128,
)
    ensures
        spec_swap(source_amount, swap_source_amount, swap_destination_amount) matches Some(r) ==> {
            &&& (swap_source_amount + r.source_amount_swapped) * (swap_destination_amount
                - r.destination_amount_swapped) >= swap_source_amount * swap_destination_amount
            &&& r.source_amount_swapped <= source_amount
            &&& r.destination_amount_swapped > 0
            &&& r.destination_amount_swapped <= swap_destination_amount
        },
{
    let p = swap_source_amount * swap_destination_amount;
    let s = swap_source_amount + source_amount;
    if p <= u128::MAX && s <= u128::MAX && s != 0 {
        if p % s == 0 {
            assert(s * (p / s) == p) by (nonlinear_arith)
                requires
                    s > 0,
                    p % s == 0,
            ;
        } else {
            let d = p / s + 1;
            assert(s * d > p) by (nonlinear_arith)
                requires
                    s > 0,
                    d == p / s + 1,
                    p >= 0,
            ;
            assert(d > 0) by (nonlinear_arith)
                requires
                    s > 0,
                    d == p / s + 1,
                    p >= 0,
            ;
            let least = if p % d == 0 {
                p / d
            } else {
                p / d + 1
            };
            assert(least * d >= p) by (nonlinear_arith)
                requires
                    d > 0,
                    p >= 0,
                    least == (if p % d == 0 {
                        p / d
                    } else {
                        p / d + 1
                    }),
            ;
            assert(least <= s) by (nonlinear_arith)
                requires
                    d > 0,
                    p >= 0,
                    s * d > p,
                    least == (if p % d == 0 {
                        p / d
                    } else {
                        p / d + 1
                    }),
            ;
        }
    }
}

/// A constant product swap gives the trader all that the product allows for
/// the whole source amount: one token more out of the destination side
/// would leave the product of the source side grown by that amount and the
/// destination side below where it started.
pub proof fn lemma_swap_gives_all_it_may(
    source_amount: u128,
    swap_source_amount: u128,
    swap_destination_amount: u128,
)
    ensures
        spec_swap(source_amount, swap_source_amount, swap_destination_amount) matches Some(r) ==> (
        swap_source_amount + source_amount) * (swap_destination_amount
            - r.destination_amount_swapped - 1) < swap_source_amount * swap_destination_amount,
{
    let p: int = swap_source_amount * swap_destination_amount;
    let s: int = swap_source_amount + source_amount;
    if let Some(r) = spec_swap(source_amount, swap_source_amount, swap_destination_amount) {
        let nd: int = swap_destination_amount - r.destination_amount_swapped;
        assert(s > 0 && p >= 0);
        if p % s == 0 {
            assert(nd == p / s);
            assert(s * (nd - 1) < p) by (nonlinear_arith)
                requires
                    s > 0,
                    p >= 0,
                    nd == p / s,
                    p % s == 0,
            ;
        } else {
            assert(nd == p / s + 1);
            assert(s * (nd - 1) < p) by (nonlinear_arith)
                requires
                    s > 0,
                    p >= 0,
                    nd == p / s + 1,
                    p % s != 0,
            ;
        }
    }
}

impl CurveCalculator for ConstantProductCurve {
    open spec fn spec_swap_without_fees(
        &self,
        source_amount: u128,
        swap_source_amount: u128,
        swap_destination_amount: u128,
        trade_direction: TradeDirection,
    ) -> Option<SwapWithoutFeesResult> {
        spec_swap(source_amount, swap_source_amount, swap_destination_amount)
    }

    open spec fn spec_new_pool_supply(&self) -> u128 {
        INITIAL_SWAP_POOL_AMOUNT
    }

    open spec fn spec_pool_tokens_to_trading_tokens_rounded(
        &self,
        pool_tokens: u128,
        pool_token_supply: u128,
        swap_token_a_amount: u128,
        swap_token_b_amount: u128,
        round_direction: RoundDirection,
    ) -> Option<TradingTokenResult> {
        spec_default_pool_tokens_to_trading_tokens_rounded(
            pool_tokens,
            pool_token_supply,
            swap_token_a_amount,
            swap_token_b_amount,
            round_direction,
        )
    }

    open spec fn spec_pool_tokens_to_trading_tokens(
        &self,
        pool_tokens: u128,
        pool_token_supply: u128,
        swap_token_a_amount: u128,
        swap_token_b_amount: u128,
    ) -> Option<TradingTokenResult> {
        spec_default_pool_tokens_to_trading_tokens(
            pool_tokens,
            pool_token_supply,
            swap_token_a_amount,
            swap_token_b_amount,
        )
    }

    open spec fn spec_trading_tokens_to_pool_tokens(
        &self,
        source_amount: u128,
        swap_token_a_amount: u128,
        swap_token_b_amount: u128,
        pool_supply: u128,
        trade_direction: TradeDirection,
    ) -> Option<u128> {
        spec_default_trading_tokens_to_pool_tokens(
            source_amount,
            source_side(swap_token_a_amount, swap_token_b_amount, trade_direction),
            pool_supply,
        )
    }

    open spec fn spec_trading_tokens_to_pool_tokens_fits(
        &self,
        source_amount: u128,
        swap_token_a_amount: u128,
        swap_token_b_amount: u128,
        pool_supply: u128,
        trade_direction: TradeDirection,
    ) -> bool {
        default_trading_tokens_to_pool_tokens_fits(
            source_amount,
            source_side(swap_token_a_amount, swap_token_b_amount, trade_direction),
            pool_supply,
        )
    }

    open spec fn spec_validate(&self) -> Result<(), SwapError> {
        Ok(())
    }

    open spec fn spec_validate_supply(&self, token_a_amount: u64, token_b_amount: u64) -> Result<
        (),
        SwapError,
    > {
        spec_default_validate_supply(token_a_amount, token_b_amount)
    }

    open spec fn spec_allows_deposits(&self) -> bool {
        true
    }

    open spec fn spec_normalized_value(
        &self,
        swap_token_a_amount: u128,
        swap_token_b_amount: u128,
    ) -> Option<u128> {
        spec_default_normalized_value(swap_token_a_amount, swap_token_b_amount)
    }

    open spec fn spec_normalized_value_fits(
        &self,
        swap_token_a_amount: u128,
        swap_token_b_amount: u128,
    ) -> bool {
        default_normalized_value_fits(swap_token_a_amount, swap_token_b_amount)
    }

    /// Constant product swap ensures x * y = constant
    fn swap_without_fees(
        &self,
        source_amount: u128,
        swap_source_amount: u128,
        swap_destination_amount: u128,
        _trade_direction: TradeDirection,
    ) -> (r: Option<SwapWithoutFeesResult>) {
        swap(source_amount, swap_source_amount, swap_destination_amount)
    }

    fn new_pool_supply(&self) -> (r: u128) {
        INITIAL_SWAP_POOL_AMOUNT
    }

    fn pool_tokens_to_trading_tokens_rounded(
        &self,
        pool_tokens: u128,
        pool_token_supply: u128,
        swap_token_a_amount: u128,
        swap_token_b_amount: u128,
        round_direction: RoundDirection,
    ) -> (r: Option<TradingTokenResult>) {
        default_pool_tokens_to_trading_tokens_rounded(
            pool_tokens,
            pool_token_supply,
            swap_token_a_amount,
            swap_token_b_amount,
            round_direction,
        )
    }

    fn pool_tokens_to_trading_tokens(
        &self,
        pool_tokens: u128,
        pool_token_supply: u128,
        swap_token_a_amount: u128,
        swap_token_b_amount: u128,
    ) -> (r: Option<TradingTokenResult>) {
        default_pool_tokens_to_trading_tokens(
            pool_tokens,
            pool_token_supply,
            swap_token_a_amount,
            swap_token_b_amount,
        )
    }

    fn trading_tokens_to_pool_tokens(
        &self,
        source_amount: u128,
        swap_token_a_amount: u128,
        swap_token_b_amount: u128,
        pool_supply: u128,
        trade_direction: TradeDirection,
    ) -> (r: Option<u128>) {
        let swap_source_amount = match trade_direction {
            TradeDirection::AtoB => swap_token_a_amount,
            TradeDirection::BtoA => swap_token_b_amount,
        };
        default_trading_tokens_to_pool_tokens(source_amount, swap_source_amount, pool_supply)
    }

    fn validate(&self) -> (r: Result<(), SwapError>) {
        Ok(())
    }

    fn validate_supply(&self, token_a_amount: u64, token_b_amount: u64) -> (r: Result<(), SwapError>) {
        default_validate_supply(token_a_amount, token_b_amount)
    }

    fn allows_deposits(&self) -> (r: bool) {
        true
    }

    fn normalized_value(&self, swap_token_a_amount: u128, swap_token_b_amount: u128) -> (r: Option<
        u128,
    >) {
        default_normalized_value(swap_token_a_amount, swap_token_b_amount)
    }

    fn try_normalized_value(&self, swap_token_a_amount: u128, swap_token_b_amount: u128) -> (r:
        Option<Option<u128>>) {
        try_default_normalized_value(swap_token_a_amount, swap_token_b_amount)
    }
}

impl Default for ConstantProductCurve {
    fn default() -> (r: Self) {
        ConstantProductCurve
    }
}

/// IsInitialized is required to use `Pack::pack` and `Pack::unpack`
impl IsInitialized for ConstantProductCurve {
    open spec fn spec_is_initialized(&self) -> bool {
        true
    }

    fn is_initialized(&self) -> (b: bool) {
        true
    }
}

impl ConstantProductCurve {
    /// Size of the packed curve: it has no parameters
    pub const LEN: usize = 0;
}

impl Pack for ConstantProductCurve {
    open spec fn spec_packable(&self) -> bool {
        true
    }

    open spec fn spec_len() -> nat {
        0
    }

    open spec fn spec_pack_into(&self, dst: Seq<u8>) -> Seq<u8> {
        dst
    }

    open spec fn spec_unpack_from_slice(src: Seq<u8>) -> Result<Self, ProgramError> {
        Ok(ConstantProductCurve)
    }

    fn get_packed_len() -> (n: usize) {
        0
    }

    fn pack_into_slice(&self, output: &mut [u8]) {
        // the curve has no parameters to store
    }

    fn unpack_from_slice(_input: &[u8]) -> (r: Result<ConstantProductCurve, ProgramError>) {
        Ok(Self {  })
    }
}

impl DynPack for ConstantProductCurve {
    open spec fn spec_dyn_len(&self) -> nat {
        0
    }

    open spec fn spec_dyn_pack_into(&self, bytes: Seq<u8>) -> Seq<u8> {
        bytes
    }

    fn pack_into_slice(&self, dst: &mut [u8]) {
        // the curve has no parameters to store
    }
}

} // verus!
