//! The Uniswap invariant calculator with an extra offset

use vstd::prelude::*;

use crate::curve::calculator::{
    default_pool_tokens_to_trading_tokens_rounded, spec_default_pool_tokens_to_trading_tokens_rounded, RoundDirection,
    default_normalized_value, default_normalized_value_fits, try_default_normalized_value, default_trading_tokens_to_pool_tokens,
    default_trading_tokens_to_pool_tokens_fits, spec_default_normalized_value,
    spec_default_trading_tokens_to_pool_tokens, CurveCalculator, DynPack, SwapWithoutFeesResult,
    TradeDirection, TradingTokenResult, INITIAL_SWAP_POOL_AMOUNT,
};
use crate::curve::constant_product::{spec_swap, swap};
use crate::error::{ProgramError, SwapError};
use crate::packing::{le_u64, overwrite, read_le_u64, read_u64, write_u64, IsInitialized, Pack};

verus! {

/// Offset curve, uses ConstantProduct under the hood, but adds an offset to
/// one side on swap calculations
#[derive(Clone, Copy, Debug, PartialEq, Eq, Structural)]
pub struct OffsetCurve {
    /// Amount to offset the token B liquidity account
    pub token_b_offset: u64,
}

/// The constant product swap with the B side of the pool counted larger by
/// the offset.
pub open spec fn spec_offset_swap(
    token_b_offset: u64,
    source_amount: u128,
    swap_source_amount: u128,
    swap_destination_amount: u128,
    trade_direction: TradeDirection,
) -> Option<SwapWithoutFeesResult> {
    match trade_direction {
        TradeDirection::AtoB => if swap_destination_amount + token_b_offset > u128::MAX {
            None
        } else {
            spec_swap(
                source_amount,
                swap_source_amount,
                (swap_destination_amount + token_b_offset) as u128,
            )
        },
        TradeDirection::BtoA => if swap_source_amount + token_b_offset > u128::MAX {
            None
        } else {
            spec_swap(
                source_amount,
                (swap_source_amount + token_b_offset) as u128,
                swap_destination_amount,
            )
        },
    }
}

/// The pool's share of each side, with the B side counted larger by the
/// offset.
pub open spec fn spec_offset_pool_tokens_to_trading_tokens(
    token_b_offset: u64,
    pool_tokens: u128,
    pool_token_supply: u128,
    swap_token_a_amount: u128,
    swap_token_b_amount: u128,
) -> Option<TradingTokenResult> {
    let b = swap_token_b_amount + token_b_offset;
    if pool_tokens * swap_token_a_amount > u128::MAX || pool_token_supply == 0 {
        None
    } else if b > u128::MAX || pool_tokens * b > u128::MAX {
        None
    } else {
        Some(
            TradingTokenResult {
                token_a_amount: ((pool_tokens * swap_token_a_amount) / (pool_token_supply as int))
                    as u128,
                token_b_amount: ((pool_tokens * b) / (pool_token_supply as int)) as u128,
            },
        )
    }
}

/// The source side of the pool, with the B side counted larger by the
/// offset, when that fits.
pub open spec fn offset_source_side(
    token_b_offset: u64,
    swap_token_a_amount: u128,
    swap_token_b_amount: u128,
    trade_direction: TradeDirection,
) -> Option<u128> {
    match trade_direction {
        TradeDirection::AtoB => Some(swap_token_a_amount),
        TradeDirection::BtoA => if swap_token_b_amount + token_b_offset > u128::MAX {
            None
        } else {
            Some((swap_token_b_amount + token_b_offset) as u128)
        },
    }
}

impl CurveCalculator for OffsetCurve {
    open spec fn spec_swap_without_fees(
        &self,
        source_amount: u128,
        swap_source_amount: u128,
        swap_destination_amount: u128,
        trade_direction: TradeDirection,
    ) -> Option<SwapWithoutFeesResult> {
        spec_offset_swap(
            self.token_b_offset,
            source_amount,
            swap_source_amount,
            swap_destination_amount,
            trade_direction,
        )
    }

    open spec fn spec_new_pool_supply(&self) -> u128 {
        INITIAL_SWAP_POOL_AMOUNT
    }

    open spec fn spec_pool_tokens_to_trading_tokens_rounded(
        &self,
        pool_tokens: u128,
        pool_token_supply: u128,
        swap_token_a_amount: u128,
        swap_token_b_amount: u128,
        round_direction: RoundDirection,
    ) -> Option<TradingTokenResult> {
        if swap_token_b_amount + self.token_b_offset > u128::MAX {
            None
        } else {
            spec_default_pool_tokens_to_trading_tokens_rounded(
                pool_tokens,
                pool_token_supply,
                swap_token_a_amount,
                (swap_token_b_amount + self.token_b_offset) as u128,
                round_direction,
            )
        }
    }

    open spec fn spec_pool_tokens_to_trading_tokens(
        &self,
        pool_tokens: u128,
        pool_token_supply: u128,
        swap_token_a_amount: u128,
        swap_token_b_amount: u128,
    ) -> Option<TradingTokenResult> {
        spec_offset_pool_tokens_to_trading_tokens(
            self.token_b_offset,
            pool_tokens,
            pool_token_supply,
            swap_token_a_amount,
            swap_token_b_amount,
        )
    }

    open spec fn spec_trading_tokens_to_pool_tokens(
        &self,
        source_amount: u128,
        swap_token_a_amount: u128,
        swap_token_b_amount: u128,
        pool_supply: u128,
        trade_direction: TradeDirection,
    ) -> Option<u128> {
        match offset_source_side(
            self.token_b_offset,
            swap_token_a_amount,
            swap_token_b_amount,
            trade_direction,
        ) {
            None => None,
            Some(side) => spec_default_trading_tokens_to_pool_tokens(
                source_amount,
                side,
                pool_supply,
            ),
        }
    }

    open spec fn spec_trading_tokens_to_pool_tokens_fits(
        &self,
        source_amount: u128,
        swap_token_a_amount: u128,
        swap_token_b_amount: u128,
        pool_supply: u128,
        trade_direction: TradeDirection,
    ) -> bool {
        match offset_source_side(
            self.token_b_offset,
            swap_token_a_amount,
            swap_token_b_amount,
            trade_direction,
        ) {
            None => true,
            Some(side) => default_trading_tokens_to_pool_tokens_fits(
                source_amount,
                side,
                pool_supply,
            ),
        }
    }

    open spec fn spec_validate(&self) -> Result<(), SwapError> {
        if self.token_b_offset == 0 {
            Err(SwapError::InvalidCurve)
        } else {
            Ok(())
        }
    }

    open spec fn spec_validate_supply(&self, token_a_amount: u64, token_b_amount: u64) -> Result<
        (),
        SwapError,
    > {
        if token_a_amount == 0 {
            Err(SwapError::EmptySupply)
        } else {
            Ok(())
        }
    }

    open spec fn spec_allows_deposits(&self) -> bool {
        false
    }

    open spec fn spec_normalized_value(
        &self,
        swap_token_a_amount: u128,
        swap_token_b_amount: u128,
    ) -> Option<u128> {
        spec_default_normalized_value(swap_token_a_amount, swap_token_b_amount)
    }

    open spec fn spec_normalized_value_fits(
        &self,
        swap_token_a_amount: u128,
        swap_token_b_amount: u128,
    ) -> bool {
        default_normalized_value_fits(swap_token_a_amount, swap_token_b_amount)
    }

    /// Constant product swap ensures token a * (token b + offset) = constant
    fn swap_without_fees(
        &self,
        source_amount: u128,
        swap_source_amount: u128,
        swap_destination_amount: u128,
        trade_direction: TradeDirection,
    ) -> (r: Option<SwapWithoutFeesResult>) {
        let token_b_offset = self.token_b_offset as u128;
        let swap_source_amount = match trade_direction {
            TradeDirection::AtoB => swap_source_amount,
            TradeDirection::BtoA => swap_source_amount.checked_add(token_b_offset)?,
        };
        let swap_destination_amount = match trade_direction {
            TradeDirection::AtoB => swap_destination_amount.checked_add(token_b_offset)?,
            TradeDirection::BtoA => swap_destination_amount,
        };
        swap(source_amount, swap_source_amount, swap_destination_amount)
    }

    fn new_pool_supply(&self) -> (r: u128) {
        INITIAL_SWAP_POOL_AMOUNT
    }

    /// The conversion for the offset curve needs to take into account the
    /// offset
    fn pool_tokens_to_trading_tokens_rounded(
        &self,
        pool_tokens: u128,
        pool_token_supply: u128,
        swap_token_a_amount: u128,
        swap_token_b_amount: u128,
        round_direction: RoundDirection,
    ) -> (r: Option<TradingTokenResult>) {
        let token_b_offset = self.token_b_offset as u128;
        default_pool_tokens_to_trading_tokens_rounded(
            pool_tokens,
            pool_token_supply,
            swap_token_a_amount,
            swap_token_b_amount.checked_add(token_b_offset)?,
            round_direction,
        )
    }

    fn pool_tokens_to_trading_tokens(
        &self,
        pool_tokens: u128,
        pool_token_supply: u128,
        swap_token_a_amount: u128,
        swap_token_b_amount: u128,
    ) -> (r: Option<TradingTokenResult>) {
        let token_b_offset = self.token_b_offset as u128;
        let token_a_amount = pool_tokens.checked_mul(swap_token_a_amount)?.checked_div(
            pool_token_supply,
        )?;
        let token_b_amount = pool_tokens.checked_mul(
            swap_token_b_amount.checked_add(token_b_offset)?,
        )?.checked_div(pool_token_supply)?;
        Some(TradingTokenResult { token_a_amount, token_b_amount })
    }

    /// Get the amount of pool tokens for the given amount of token A and B,
    /// taking into account the offset: a deposit of one side, whose square
    /// root is approximated by Newton's method.
    fn trading_tokens_to_pool_tokens(
        &self,
        source_amount: u128,
        swap_token_a_amount: u128,
        swap_token_b_amount: u128,
        pool_supply: u128,
        trade_direction: TradeDirection,
    ) -> (r: Option<u128>) {
        let token_b_offset = self.token_b_offset as u128;
        let swap_source_amount = match trade_direction {
            TradeDirection::AtoB => swap_token_a_amount,
            TradeDirection::BtoA => swap_token_b_amount.checked_add(token_b_offset)?,
        };
        default_trading_tokens_to_pool_tokens(source_amount, swap_source_amount, pool_supply)
    }

    fn validate(&self) -> (r: Result<(), SwapError>) {
        if self.token_b_offset == 0 {
            Err(SwapError::InvalidCurve)
        } else {
            Ok(())
        }
    }

    fn validate_supply(&self, token_a_amount: u64, _token_b_amount: u64) -> (r: Result<
        (),
        SwapError,
    >) {
        if token_a_amount == 0 {
            return Err(SwapError::EmptySupply);
        }
        Ok(())
    }

    /// Offset curves can cause arbitrage opportunities if outside users are
    /// allowed to deposit.  For example, in the offset curve, if there's swap
    /// with 1 million of token A against an offset of 2 million token B,
    /// someone else can deposit 1 million A and 2 million B for LP tokens.
    /// The pool creator can then use their LP tokens to steal the 2 million B,
    fn allows_deposits(&self) -> (r: bool) {
        false
    }

    fn normalized_value(&self, swap_token_a_amount: u128, swap_token_b_amount: u128) -> (r: Option<
        u128,
    >) {
        default_normalized_value(swap_token_a_amount, swap_token_b_amount)
    }

    fn try_normalized_value(&self, swap_token_a_amount: u128, swap_token_b_amount: u128) -> (r:
        Option<Option<u128>>) {
        try_default_normalized_value(swap_token_a_amount, swap_token_b_amount)
    }
}

impl Default for OffsetCurve {
    fn default() -> (r: Self)
        ensures
            r.token_b_offset == 0,
    {
        OffsetCurve { token_b_offset: 0 }
    }
}

/// IsInitialized is required to use `Pack::pack` and `Pack::unpack`
impl IsInitialized for OffsetCurve {
    open spec fn spec_is_initialized(&self) -> bool {
        true
    }

    fn is_initialized(&self) -> (b: bool) {
        true
    }
}

impl OffsetCurve {
    /// Size of the packed curve
    pub const LEN: usize = 8;
}

impl Pack for OffsetCurve {
    open spec fn spec_packable(&self) -> bool {
        true
    }

    open spec fn spec_len() -> nat {
        8
    }

    open spec fn spec_pack_into(&self, dst: Seq<u8>) -> Seq<u8> {
        overwrite(dst, 0, le_u64(self.token_b_offset))
    }

    open spec fn spec_unpack_from_slice(src: Seq<u8>) -> Result<Self, ProgramError> {
        Ok(OffsetCurve { token_b_offset: read_le_u64(src, 0) })
    }

    fn get_packed_len() -> (n: usize) {
        8
    }

    fn pack_into_slice(&self, output: &mut [u8]) {
        write_u64(output, 0, self.token_b_offset);
    }

    fn unpack_from_slice(input: &[u8]) -> (r: Result<OffsetCurve, ProgramError>) {
        Ok(Self { token_b_offset: read_u64(input, 0) })
    }
}

impl DynPack for OffsetCurve {
    open spec fn spec_dyn_len(&self) -> nat {
        8
    }

    open spec fn spec_dyn_pack_into(&self, dst: Seq<u8>) -> Seq<u8> {
        overwrite(dst, 0, le_u64(self.token_b_offset))
    }

    fn pack_into_slice(&self, output: &mut [u8]) {
        write_u64(output, 0, self.token_b_offset);
    }
}

/// Packing an offset curve and unpacking the bytes gives the curve back.
pub proof fn lemma_offset_curve_pack_roundtrip(curve: OffsetCurve, dst: Seq<u8>)
    requires
        dst.len() >= 8,
    ensures
        OffsetCurve::spec_unpack_from_slice(curve.spec_pack_into(dst)) == Ok::<
            OffsetCurve,
            ProgramError,
        >(curve),
{
    crate::packing::lemma_read_written_u64(dst, 0, curve.token_b_offset);
}

/// Pool tokens are worth their share of each side of the pool, with the B
/// side counted larger by the offset: the A amount is the whole part of
/// `pool_tokens * A / supply` and the B amount the whole part of
/// `pool_tokens * (B + offset) / supply`. The conversion is the one rounded
/// down, and it succeeds wherever the supply is not zero and the products
/// fit in 128 bits.
pub proof fn lemma_offset_pool_tokens_share(
    curve: OffsetCurve,
    pool_tokens: u128,
    pool_token_supply: u128,
    swap_token_a_amount: u128,
    swap_token_b_amount: u128,
)
    ensures
        curve.spec_pool_tokens_to_trading_tokens(
            pool_tokens,
            pool_token_supply,
            swap_token_a_amount,
            swap_token_b_amount,
        ) == curve.spec_pool_tokens_to_trading_tokens_rounded(
            pool_tokens,
            pool_token_supply,
            swap_token_a_amount,
            swap_token_b_amount,
            RoundDirection::Floor,
        ),
        curve.spec_pool_tokens_to_trading_tokens(
            pool_tokens,
            pool_token_supply,
            swap_token_a_amount,
            swap_token_b_amount,
        ) matches Some(r) ==> {
            &&& pool_token_supply > 0
            &&& r.token_a_amount * pool_token_supply <= pool_tokens * swap_token_a_amount
            &&& pool_tokens * swap_token_a_amount < (r.token_a_amount + 1) * pool_token_supply
            &&& r.token_b_amount * pool_token_supply <= pool_tokens * (swap_token_b_amount
                + curve.token_b_offset)
            &&& pool_tokens * (swap_token_b_amount + curve.token_b_offset) < (r.token_b_amount + 1)
                * pool_token_supply
        },
        pool_token_supply > 0 && swap_token_b_amount + curve.token_b_offset <= u128::MAX
            && pool_tokens * swap_token_a_amount <= u128::MAX && pool_tokens * (swap_token_b_amount
            + curve.token_b_offset) <= u128::MAX ==> curve.spec_pool_tokens_to_trading_tokens(
            pool_tokens,
            pool_token_supply,
            swap_token_a_amount,
            swap_token_b_amount,
        ) is Some,
{
    let s: int = pool_token_supply as int;
    let na: int = pool_tokens * swap_token_a_amount;
    let nb: int = pool_tokens * (swap_token_b_amount + curve.token_b_offset);
    if s > 0 && na >= 0 && nb >= 0 {
        let qa = na / s;
        let qb = nb / s;
        assert(qa * s <= na && na < (qa + 1) * s) by (nonlinear_arith)
            requires
                s > 0,
                na >= 0,
                qa == na / s,
        ;
        assert(qb * s <= nb && nb < (qb + 1) * s) by (nonlinear_arith)
            requires
                s > 0,
                nb >= 0,
                qb == nb / s,
        ;
    }
}

/// An offset swap trades along the constant product of the pool with the
/// B side counted larger by the offset: the trader pays at most the source
/// amount, that product never drops, and the trader receives all it allows
/// for the whole source amount.
pub proof fn lemma_offset_swap_keeps_offset_product(
    curve: OffsetCurve,
    source_amount: u128,
    swap_source_amount: u128,
    swap_destination_amount: u128,
    trade_direction: TradeDirection,
)
    ensures
        curve.spec_swap_without_fees(
            source_amount,
            swap_source_amount,
            swap_destination_amount,
            trade_direction,
        ) matches Some(r) ==> ({
            let source_side: int = match trade_direction {
                TradeDirection::AtoB => swap_source_amount as int,
                TradeDirection::BtoA => swap_source_amount + curve.token_b_offset,
            };
            let destination_side: int = match trade_direction {
                TradeDirection::AtoB => swap_destination_amount + curve.token_b_offset,
                TradeDirection::BtoA => swap_destination_amount as int,
            };
            &&& r.source_amount_swapped <= source_amount
            &&& (source_side + r.source_amount_swapped) * (destination_side
                - r.destination_amount_swapped) >= source_side * destination_side
            &&& (source_side + source_amount) * (destination_side - r.destination_amount_swapped
                - 1) < source_side * destination_side
        }),
{
    match trade_direction {
        TradeDirection::AtoB => {
            if swap_destination_amount + curve.token_b_offset <= u128::MAX {
                let b = (swap_destination_amount + curve.token_b_offset) as u128;
                crate::curve::constant_product::lemma_swap_keeps_product(
                    source_amount,
                    swap_source_amount,
                    b,
                );
                crate::curve::constant_product::lemma_swap_gives_all_it_may(
                    source_amount,
                    swap_source_amount,
                    b,
                );
            }
        },
        TradeDirection::BtoA => {
            if swap_source_amount + curve.token_b_offset <= u128::MAX {
                let a = (swap_source_amount + curve.token_b_offset) as u128;
                crate::curve::constant_product::lemma_swap_keeps_product(
                    source_amount,
                    a,
                    swap_destination_amount,
                );
                crate::curve::constant_product::lemma_swap_gives_all_it_may(
                    source_amount,
                    a,
                    swap_destination_amount,
                );
            }
        },
    }
}

/// Rounded up, pool tokens are worth the least whole amounts that cover
/// their share of each side, the B side counted larger by the offset:
/// `a * supply >= pool_tokens * A > (a - 1) * supply`, and the same for B
/// with `B + offset`.
pub proof fn lemma_offset_pool_tokens_share_rounded_up(
    curve: OffsetCurve,
    pool_tokens: u128,
    pool_token_supply: u128,
    swap_token_a_amount: u128,
    swap_token_b_amount: u128,
)
    ensures
        curve.spec_pool_tokens_to_trading_tokens_rounded(
            pool_tokens,
            pool_token_supply,
            swap_token_a_amount,
            swap_token_b_amount,
            RoundDirection::Ceiling,
        ) matches Some(r) ==> {
            &&& pool_token_supply > 0
            &&& r.token_a_amount * pool_token_supply >= pool_tokens * swap_token_a_amount
            &&& pool_tokens * swap_token_a_amount > (r.token_a_amount - 1) * pool_token_supply
            &&& r.token_b_amount * pool_token_supply >= pool_tokens * (swap_token_b_amount
                + curve.token_b_offset)
            &&& pool_tokens * (swap_token_b_amount + curve.token_b_offset) > (r.token_b_amount - 1)
                * pool_token_supply
        },
{
    let s: int = pool_token_supply as int;
    let na: int = pool_tokens * swap_token_a_amount;
    let nb: int = pool_tokens * (swap_token_b_amount + curve.token_b_offset);
    if s > 0 && na >= 0 && nb >= 0 {
        let qa = crate::curve::calculator::div_rounded(na, s, RoundDirection::Ceiling);
        let qb = crate::curve::calculator::div_rounded(nb, s, RoundDirection::Ceiling);
        assert(qa * s >= na && na > (qa - 1) * s && qa <= na) by (nonlinear_arith)
            requires
                s > 0,
                na >= 0,
                qa == (if na % s == 0 {
                    na / s
                } else {
                    na / s + 1
                }),
        ;
        assert(qb * s >= nb && nb > (qb - 1) * s && qb <= nb) by (nonlinear_arith)
            requires
                s > 0,
                nb >= 0,
                qb == (if nb % s == 0 {
                    nb / s
                } else {
                    nb / s + 1
                }),
        ;
    }
}

} // verus!
