//! Simple constant price swap curve, set at init

use vstd::prelude::*;

use crate::curve::calculator::{
    checked_div_rounded, div_rounded, RoundDirection,
    default_normalized_value, default_normalized_value_fits, try_default_normalized_value, map_zero_to_none,
    spec_default_normalized_value, spec_map_zero_to_none, CurveCalculator, DynPack,
    SwapWithoutFeesResult, TradeDirection, TradingTokenResult, INITIAL_SWAP_POOL_AMOUNT,
};
use crate::error::{ProgramError, SwapError};
use crate::packing::{le_u64, overwrite, read_le_u64, read_u64, write_u64, IsInitialized, Pack};

verus! {

/// ConstantPriceCurve struct implementing CurveCalculator
#[derive(Clone, Copy, Debug, PartialEq, Eq, Structural)]
pub struct ConstantPriceCurve {
    /// Amount of token A required to get 1 token B
    pub token_b_price: u64,
}

/// The constant price swap: token B costs `token_b_price` of token A.  Buying
/// B spends only the multiple of the price that the source amount allows;
/// neither side of the trade may be zero.
pub open spec fn spec_constant_price_swap(
    token_b_price: u64,
    source_amount: u128,
    trade_direction: TradeDirection,
) -> Option<SwapWithoutFeesResult> {
    let amounts: Option<(u128, u128)> = match trade_direction {
        TradeDirection::BtoA => if source_amount * token_b_price > u128::MAX {
            None
        } else {
            Some((source_amount, (source_amount * token_b_price) as u128))
        },
        TradeDirection::AtoB => if token_b_price == 0 {
            None
        } else {
            Some(
                (
                    (source_amount - (source_amount as int) % (token_b_price as int)) as u128,
                    ((source_amount as int) / (token_b_price as int)) as u128,
                ),
            )
        },
    };
    match amounts {
        None => None,
        Some((source_amount_swapped, destination_amount_swapped)) => if source_amount_swapped
            == 0 || destination_amount_swapped == 0 {
            None
        } else {
            Some(SwapWithoutFeesResult { source_amount_swapped, destination_amount_swapped })
        },
    }
}

/// The pool's value counted in token A: the B side at its price plus the A
/// side.
pub open spec fn total_value(token_b_price: u64, swap_token_a_amount: u128, swap_token_b_amount: u128) -> int {
    swap_token_b_amount * token_b_price + swap_token_a_amount
}

/// Half of the pool tokens (rounded down) are paid out in token A and the
/// rest in token B, each as that share of the pool's value.
pub open spec fn spec_constant_price_pool_tokens_to_trading_tokens(
    token_b_price: u64,
    pool_tokens: u128,
    pool_token_supply: u128,
    swap_token_a_amount: u128,
    swap_token_b_amount: u128,
) -> Option<TradingTokenResult> {
    let token_a_pool_tokens = pool_tokens / 2;
    let token_b_pool_tokens = pool_tokens - token_a_pool_tokens;
    let total = total_value(token_b_price, swap_token_a_amount, swap_token_b_amount);
    if swap_token_b_amount * token_b_price > u128::MAX || total > u128::MAX {
        None
    } else if token_a_pool_tokens * total > u128::MAX || pool_token_supply == 0 {
        None
    } else if token_b_pool_tokens * total > u128::MAX || token_b_price == 0 {
        None
    } else {
        Some(
            TradingTokenResult {
                token_a_amount: ((token_a_pool_tokens * total) / (pool_token_supply as int)) as u128,
                token_b_amount: (((token_b_pool_tokens * total) / (token_b_price as int)) / (
                pool_token_supply as int)) as u128,
            },
        )
    }
}

/// The deposit's value counted in token A as a share of the pool's value,
/// times the pool supply, rounded down.
pub open spec fn spec_constant_price_trading_tokens_to_pool_tokens(
    token_b_price: u64,
    source_amount: u128,
    swap_token_a_amount: u128,
    swap_token_b_amount: u128,
    pool_supply: u128,
    trade_direction: TradeDirection,
) -> Option<u128> {
    let given_value: int = match trade_direction {
        TradeDirection::AtoB => source_amount as int,
        TradeDirection::BtoA => source_amount * token_b_price,
    };
    let total = total_value(token_b_price, swap_token_a_amount, swap_token_b_amount);
    if given_value > u128::MAX || swap_token_b_amount * token_b_price > u128::MAX || total
        > u128::MAX {
        None
    } else if pool_supply * given_value > u128::MAX || total == 0 {
        None
    } else {
        Some(((pool_supply * given_value) / total) as u128)
    }
}

/// Selling A for B at the constant price gives exactly as many B tokens as
/// the A tokens spent pay for, and spends at most the source amount; selling
/// B for A gives the source amount times the price.
pub proof fn lemma_constant_price_swap_exact(
    token_b_price: u64,
    source_amount: u128,
    trade_direction: TradeDirection,
)
    ensures
        spec_constant_price_swap(token_b_price, source_amount, trade_direction) matches Some(r)
            ==> match trade_direction {
            TradeDirection::AtoB => r.source_amount_swapped == r.destination_amount_swapped
                * token_b_price && r.source_amount_swapped <= source_amount,
            TradeDirection::BtoA => r.source_amount_swapped == source_amount
                && r.destination_amount_swapped == source_amount * token_b_price,
        },
{
    if token_b_price > 0 {
        let p = token_b_price as int;
        let s = source_amount as int;
        assert(s - s % p == (s / p) * p) by (nonlinear_arith)
            requires
                p > 0,
        ;
        assert(s % p >= 0) by (nonlinear_arith)
            requires
                p > 0,
        ;
    }
}

impl CurveCalculator for ConstantPriceCurve {
    open spec fn spec_swap_without_fees(
        &self,
        source_amount: u128,
        swap_source_amount: u128,
        swap_destination_amount: u128,
        trade_direction: TradeDirection,
    ) -> Option<SwapWithoutFeesResult> {
        spec_constant_price_swap(self.token_b_price, source_amount, trade_direction)
    }

    open spec fn spec_new_pool_supply(&self) -> u128 {
        INITIAL_SWAP_POOL_AMOUNT
    }

    open spec fn spec_pool_tokens_to_trading_tokens_rounded(
        &self,
        pool_tokens: u128,
        pool_token_supply: u128,
        swap_token_a_amount: u128,
        swap_token_b_amount: u128,
        round_direction: RoundDirection,
    ) -> Option<TradingTokenResult> {
        let token_a_pool_tokens = pool_tokens / 2;
        let token_b_pool_tokens = pool_tokens - token_a_pool_tokens;
        let total = total_value(self.token_b_price, swap_token_a_amount, swap_token_b_amount);
        if swap_token_b_amount * self.token_b_price > u128::MAX || total > u128::MAX {
            None
        } else if token_a_pool_tokens * total > u128::MAX || pool_token_supply == 0 {
            None
        } else if token_b_pool_tokens * total > u128::MAX || self.token_b_price == 0 {
            None
        } else {
            Some(
                TradingTokenResult {
                    token_a_amount: div_rounded(
                        token_a_pool_tokens * total,
                        pool_token_supply as int,
                        round_direction,
                    ) as u128,
                    token_b_amount: div_rounded(
                        div_rounded(
                            token_b_pool_tokens * total,
                            self.token_b_price as int,
                            round_direction,
                        ),
                        pool_token_supply as int,
                        round_direction,
                    ) as u128,
                },
            )
        }
    }

    open spec fn spec_pool_tokens_to_trading_tokens(
        &self,
        pool_tokens: u128,
        pool_token_supply: u128,
        swap_token_a_amount: u128,
        swap_token_b_amount: u128,
    ) -> Option<TradingTokenResult> {
        spec_constant_price_pool_tokens_to_trading_tokens(
            self.token_b_price,
            pool_tokens,
            pool_token_supply,
            swap_token_a_amount,
            swap_token_b_amount,
        )
    }

    open spec fn spec_trading_tokens_to_pool_tokens(
        &self,
        source_amount: u128,
        swap_token_a_amount: u128,
        swap_token_b_amount: u128,
        pool_supply: u128,
        trade_direction: TradeDirection,
    ) -> Option<u128> {
        spec_constant_price_trading_tokens_to_pool_tokens(
            self.token_b_price,
            source_amount,
            swap_token_a_amount,
            swap_token_b_amount,
            pool_supply,
            trade_direction,
        )
    }

    open spec fn spec_trading_tokens_to_pool_tokens_fits(
        &self,
        source_amount: u128,
        swap_token_a_amount: u128,
        swap_token_b_amount: u128,
        pool_supply: u128,
        trade_direction: TradeDirection,
    ) -> bool {
        true
    }

    open spec fn spec_validate(&self) -> Result<(), SwapError> {
        if self.token_b_price == 0 {
            Err(SwapError::InvalidCurve)
        } else {
            Ok(())
        }
    }

    open spec fn spec_validate_supply(&self, token_a_amount: u64, token_b_amount: u64) -> Result<
        (),
        SwapError,
    > {
        if token_a_amount == 0 {
            Err(SwapError::EmptySupply)
        } else {
            Ok(())
        }
    }

    open spec fn spec_allows_deposits(&self) -> bool {
        true
    }

    open spec fn spec_normalized_value(
        &self,
        swap_token_a_amount: u128,
        swap_token_b_amount: u128,
    ) -> Option<u128> {
        spec_default_normalized_value(swap_token_a_amount, swap_token_b_amount)
    }

    open spec fn spec_normalized_value_fits(
        &self,
        swap_token_a_amount: u128,
        swap_token_b_amount: u128,
    ) -> bool {
        default_normalized_value_fits(swap_token_a_amount, swap_token_b_amount)
    }

    /// Constant price curve always returns 1:1
    fn swap_without_fees(
        &self,
        source_amount: u128,
        _swap_source_amount: u128,
        _swap_destination_amount: u128,
        trade_direction: TradeDirection,
    ) -> (r: Option<SwapWithoutFeesResult>) {
        let token_b_price = self.token_b_price as u128;

        let (source_amount_swapped, destination_amount_swapped) = match trade_direction {
            TradeDirection::BtoA => (source_amount, source_amount.checked_mul(token_b_price)?),
            TradeDirection::AtoB => {
                let destination_amount_swapped = source_amount.checked_div(token_b_price)?;
                let mut source_amount_swapped = source_amount;

                // if there is a remainder from buying token B, floor
                // token_a_amount provided to avoid taking too many tokens, but
                // don't recalculate the fees
                let remainder = source_amount_swapped.checked_rem(token_b_price)?;
                proof {
                    assert((source_amount as int) % (token_b_price as int) <= source_amount) by (nonlinear_arith)
                        requires
                            token_b_price > 0,
                    ;
                }
                if remainder > 0 {
                    source_amount_swapped = source_amount.checked_sub(remainder)?;
                }
                (source_amount_swapped, destination_amount_swapped)
            },
        };
        let source_amount_swapped = map_zero_to_none(source_amount_swapped)?;
        let destination_amount_swapped = map_zero_to_none(destination_amount_swapped)?;
        Some(SwapWithoutFeesResult { source_amount_swapped, destination_amount_swapped })
    }

    fn new_pool_supply(&self) -> (r: u128) {
        INITIAL_SWAP_POOL_AMOUNT
    }

    /// Get the amount of trading tokens for the given amount of pool tokens,
    /// provided the total trading tokens and supply of pool tokens.
    /// For the constant price curve, the total value of the pool is weighted
    /// by the price of token B.
    fn pool_tokens_to_trading_tokens_rounded(
        &self,
        pool_tokens: u128,
        pool_token_supply: u128,
        swap_token_a_amount: u128,
        swap_token_b_amount: u128,
        round_direction: RoundDirection,
    ) -> (r: Option<TradingTokenResult>) {
        // Split the pool tokens in half, send half as token A, half as token B
        let token_a_pool_tokens = pool_tokens.checked_div(2)?;
        let token_b_pool_tokens = pool_tokens.checked_sub(token_a_pool_tokens)?;

        let token_b_price = self.token_b_price as u128;
        let total_value = swap_token_b_amount.checked_mul(token_b_price)?.checked_add(
            swap_token_a_amount,
        )?;

        let token_a_amount = checked_div_rounded(
            token_a_pool_tokens.checked_mul(total_value)?,
            pool_token_supply,
            round_direction,
        )?;
        let pool_value_as_token_b = checked_div_rounded(
            token_b_pool_tokens.checked_mul(total_value)?,
            token_b_price,
            round_direction,
        )?;
        let token_b_amount = checked_div_rounded(
            pool_value_as_token_b,
            pool_token_supply,
            round_direction,
        )?;
        Some(TradingTokenResult { token_a_amount, token_b_amount })
    }

    fn pool_tokens_to_trading_tokens(
        &self,
        pool_tokens: u128,
        pool_token_supply: u128,
        swap_token_a_amount: u128,
        swap_token_b_amount: u128,
    ) -> (r: Option<TradingTokenResult>) {
        // Split the pool tokens in half, send half as token A, half as token B
        let token_a_pool_tokens = pool_tokens.checked_div(2)?;
        let token_b_pool_tokens = pool_tokens.checked_sub(token_a_pool_tokens)?;

        let token_b_price = self.token_b_price as u128;
        let total_value = swap_token_b_amount.checked_mul(token_b_price)?.checked_add(
            swap_token_a_amount,
        )?;

        let token_a_amount = token_a_pool_tokens.checked_mul(total_value)?.checked_div(
            pool_token_supply,
        )?;
        let token_b_amount = token_b_pool_tokens.checked_mul(total_value)?.checked_div(
            token_b_price,
        )?.checked_div(pool_token_supply)?;
        Some(TradingTokenResult { token_a_amount, token_b_amount })
    }

    /// Get the amount of pool tokens for the given amount of token A and B
    /// For the constant price curve, the total value of the pool is weighted
    /// by the price of token B.
    fn trading_tokens_to_pool_tokens(
        &self,
        source_amount: u128,
        swap_token_a_amount: u128,
        swap_token_b_amount: u128,
        pool_supply: u128,
        trade_direction: TradeDirection,
    ) -> (r: Option<u128>) {
        let token_b_price = self.token_b_price as u128;
        let given_value = match trade_direction {
            TradeDirection::AtoB => source_amount,
            TradeDirection::BtoA => source_amount.checked_mul(token_b_price)?,
        };
        let total_value = swap_token_b_amount.checked_mul(token_b_price)?.checked_add(
            swap_token_a_amount,
        )?;
        pool_supply.checked_mul(given_value)?.checked_div(total_value)
    }

    fn validate(&self) -> (r: Result<(), SwapError>) {
        if self.token_b_price == 0 {
            Err(SwapError::InvalidCurve)
        } else {
            Ok(())
        }
    }

    fn validate_supply(&self, token_a_amount: u64, _token_b_amount: u64) -> (r: Result<
        (),
        SwapError,
    >) {
        if token_a_amount == 0 {
            return Err(SwapError::EmptySupply);
        }
        Ok(())
    }

    fn allows_deposits(&self) -> (r: bool) {
        true
    }

    fn normalized_value(&self, swap_token_a_amount: u128, swap_token_b_amount: u128) -> (r: Option<
        u128,
    >) {
        default_normalized_value(swap_token_a_amount, swap_token_b_amount)
    }

    fn try_normalized_value(&self, swap_token_a_amount: u128, swap_token_b_amount: u128) -> (r:
        Option<Option<u128>>) {
        try_default_normalized_value(swap_token_a_amount, swap_token_b_amount)
    }
}

impl Default for ConstantPriceCurve {
    fn default() -> (r: Self)
        ensures
            r.token_b_price == 0,
    {
        ConstantPriceCurve { token_b_price: 0 }
    }
}

/// IsInitialized is required to use `Pack::pack` and `Pack::unpack`
impl IsInitialized for ConstantPriceCurve {
    open spec fn spec_is_initialized(&self) -> bool {
        true
    }

    fn is_initialized(&self) -> (b: bool) {
        true
    }
}

impl ConstantPriceCurve {
    /// Size of the packed curve
    pub const LEN: usize = 8;
}

impl Pack for ConstantPriceCurve {
    open spec fn spec_packable(&self) -> bool {
        true
    }

    open spec fn spec_len() -> nat {
        8
    }

    open spec fn spec_pack_into(&self, dst: Seq<u8>) -> Seq<u8> {
        overwrite(dst, 0, le_u64(self.token_b_price))
    }

    open spec fn spec_unpack_from_slice(src: Seq<u8>) -> Result<Self, ProgramError> {
        Ok(ConstantPriceCurve { token_b_price: read_le_u64(src, 0) })
    }

    fn get_packed_len() -> (n: usize) {
        8
    }

    fn pack_into_slice(&self, output: &mut [u8]) {
        write_u64(output, 0, self.token_b_price);
    }

    fn unpack_from_slice(input: &[u8]) -> (r: Result<ConstantPriceCurve, ProgramError>) {
        Ok(Self { token_b_price: read_u64(input, 0) })
    }
}

impl DynPack for ConstantPriceCurve {
    open spec fn spec_dyn_len(&self) -> nat {
        8
    }

    open spec fn spec_dyn_pack_into(&self, dst: Seq<u8>) -> Seq<u8> {
        overwrite(dst, 0, le_u64(self.token_b_price))
    }

    fn pack_into_slice(&self, output: &mut [u8]) {
        write_u64(output, 0, self.token_b_price);
    }
}

/// Packing a constant price curve and unpacking the bytes gives the curve
/// back.
pub proof fn lemma_constant_price_curve_pack_roundtrip(curve: ConstantPriceCurve, dst: Seq<u8>)
    requires
        dst.len() >= 8,
    ensures
        ConstantPriceCurve::spec_unpack_from_slice(curve.spec_pack_into(dst)) == Ok::<
            ConstantPriceCurve,
            ProgramError,
        >(curve),
{
    crate::packing::lemma_read_written_u64(dst, 0, curve.token_b_price);
}

} // verus!
