//! Swap calculations

use vstd::prelude::*;

use crate::curve::math::{
    fits, precise_div, precise_mul, precise_sqrt, precise_to_imprecise,
    precise_to_imprecise_fits, pv, PreciseNumber, PRECISE_ONE,
};
use crate::error::SwapError;

verus! {

/// Initial amount of pool tokens for swap contract, hard-coded to something
/// "sensible" given a maximum of u128.
/// Note that on Ethereum, Uniswap uses the geometric mean of all provided
/// input amounts, and Balancer uses 100 * 10 ^ 18.
pub const INITIAL_SWAP_POOL_AMOUNT: u128 = 1_000_000_000;

/// Hardcode the number of token types in a pool, used to calculate the
/// equivalent pool tokens for the owner trading fee.
pub const TOKENS_IN_POOL: u128 = 2;

/// `x`, unless it is zero.
pub open spec fn spec_map_zero_to_none(x: u128) -> Option<u128> {
    if x == 0 {
        None
    } else {
        Some(x)
    }
}

/// Helper function for mapping to SwapError::CalculationFailure
pub fn map_zero_to_none(x: u128) -> (r: Option<u128>)
    ensures
        r == spec_map_zero_to_none(x),
{
    if x == 0 {
        None
    } else {
        Some(x)
    }
}

/// The direction of a trade, since curves can be specialized to treat each
/// token differently (by adding offsets or weights)
#[derive(Clone, Copy, Debug, PartialEq, Eq, Structural)]
pub enum TradeDirection {
    /// Input token A, output token B
    AtoB,
    /// Input token B, output token A
    BtoA,
}

/// The other direction.
pub open spec fn spec_opposite(d: TradeDirection) -> TradeDirection {
    match d {
        TradeDirection::AtoB => TradeDirection::BtoA,
        TradeDirection::BtoA => TradeDirection::AtoB,
    }
}

impl TradeDirection {
    /// Given a trade direction, gives the opposite direction of the trade, so
    /// A to B becomes B to A, and vice versa
    pub fn opposite(&self) -> (r: TradeDirection)
        ensures
            r == spec_opposite(*self),
            r != *self,
    {
        match self {
            TradeDirection::AtoB => TradeDirection::BtoA,
            TradeDirection::BtoA => TradeDirection::AtoB,
        }
    }
}

/// Turning a trade around twice gives the trade back.
pub proof fn lemma_opposite_involutive(d: TradeDirection)
    ensures
        spec_opposite(spec_opposite(d)) == d,
        spec_opposite(d) != d,
{
}

/// Encodes all results of swapping from a source token to a destination token
#[derive(Clone, Copy, Debug, PartialEq, Eq, Structural)]
pub struct SwapWithoutFeesResult {
    /// Amount of source token swapped
    pub source_amount_swapped: u128,
    /// Amount of destination token swapped
    pub destination_amount_swapped: u128,
}

/// Encodes results of depositing both sides at once
#[derive(Clone, Copy, Debug, PartialEq, Eq, Structural)]
pub struct TradingTokenResult {
    /// Amount of token
    pub token_a_amount: u128,
    /// Amount of destination token swapped
    pub token_b_amount: u128,
}

/// Trait for packing of trait objects, required because structs that implement
/// `Pack` cannot be used as trait objects (as `dyn Pack`).
pub trait DynPack {
    /// The number of bytes packing writes.
    spec fn spec_dyn_len(&self) -> nat;

    /// What packing leaves in `dst`.
    spec fn spec_dyn_pack_into(&self, dst: Seq<u8>) -> Seq<u8>;

    /// Only required function is to pack given a trait object
    fn pack_into_slice(&self, dst: &mut [u8])
        requires
            old(dst)@.len() >= self.spec_dyn_len(),
        ensures
            final(dst)@ == self.spec_dyn_pack_into(old(dst)@),
            final(dst)@.len() == old(dst)@.len(),
    ;
}

/// The way a conversion of pool tokens into trading tokens rounds: down
/// for what the pool pays out, up for what it takes in.
#[derive(Clone, Copy, Debug, PartialEq, Eq, Structural)]
pub enum RoundDirection {
    /// Round down
    Floor,
    /// Round up
    Ceiling,
}

/// `n / d` rounded the given way.
pub open spec fn div_rounded(n: int, d: int, round_direction: RoundDirection) -> int {
    match round_direction {
        RoundDirection::Floor => n / d,
        RoundDirection::Ceiling => if n % d == 0 {
            n / d
        } else {
            n / d + 1
        },
    }
}

/// `n / d` rounded the given way, unless `d` is zero.
pub fn checked_div_rounded(n: u128, d: u128, round_direction: RoundDirection) -> (r: Option<u128>)
    ensures
        d == 0 ==> r is None,
        d > 0 ==> r == Some(div_rounded(n as int, d as int, round_direction) as u128),
        d > 0 ==> div_rounded(n as int, d as int, round_direction) <= u128::MAX,
{
    if d == 0 {
        return None;
    }
    let q = n / d;
    match round_direction {
        RoundDirection::Floor => Some(q),
        RoundDirection::Ceiling => {
            if n % d == 0 {
                Some(q)
            } else {
                assert(d >= 2);
                assert(q <= n / 2) by (nonlinear_arith)
                    requires
                        d >= 2,
                        q == n / d,
                ;
                Some(q + 1)
            }
        },
    }
}

/// The default conversion of pool tokens into trading tokens, rounded the
/// given way: the pool's share `pool_tokens / pool_token_supply` of each
/// side.
pub open spec fn spec_default_pool_tokens_to_trading_tokens_rounded(
    pool_tokens: u128,
    pool_token_supply: u128,
    swap_token_a_amount: u128,
    swap_token_b_amount: u128,
    round_direction: RoundDirection,
) -> Option<TradingTokenResult> {
    if pool_tokens * swap_token_a_amount > u128::MAX || pool_token_supply == 0
        || pool_tokens * swap_token_b_amount > u128::MAX {
        None
    } else {
        Some(
            TradingTokenResult {
                token_a_amount: div_rounded(
                    pool_tokens * swap_token_a_amount,
                    pool_token_supply as int,
                    round_direction,
                ) as u128,
                token_b_amount: div_rounded(
                    pool_tokens * swap_token_b_amount,
                    pool_token_supply as int,
                    round_direction,
                ) as u128,
            },
        )
    }
}

/// The default conversion of pool tokens into trading tokens, rounded the
/// given way.
pub fn default_pool_tokens_to_trading_tokens_rounded(
    pool_tokens: u128,
    pool_token_supply: u128,
    swap_token_a_amount: u128,
    swap_token_b_amount: u128,
    round_direction: RoundDirection,
) -> (r: Option<TradingTokenResult>)
    ensures
        r == spec_default_pool_tokens_to_trading_tokens_rounded(
            pool_tokens,
            pool_token_supply,
            swap_token_a_amount,
            swap_token_b_amount,
            round_direction,
        ),
{
    let token_a_amount = checked_div_rounded(
        pool_tokens.checked_mul(swap_token_a_amount)?,
        pool_token_supply,
        round_direction,
    )?;
    let token_b_amount = checked_div_rounded(
        pool_tokens.checked_mul(swap_token_b_amount)?,
        pool_token_supply,
        round_direction,
    )?;
    Some(TradingTokenResult { token_a_amount, token_b_amount })
}

/// The default conversion of pool tokens into trading tokens: the pool's
/// share `pool_tokens / pool_token_supply` of each side, rounded down.
pub open spec fn spec_default_pool_tokens_to_trading_tokens(
    pool_tokens: u128,
    pool_token_supply: u128,
    swap_token_a_amount: u128,
    swap_token_b_amount: u128,
) -> Option<TradingTokenResult> {
    if pool_tokens * swap_token_a_amount > u128::MAX || pool_token_supply == 0
        || pool_tokens * swap_token_b_amount > u128::MAX {
        None
    } else {
        Some(
            TradingTokenResult {
                token_a_amount: ((pool_tokens * swap_token_a_amount) / (pool_token_supply as int))
                    as u128,
                token_b_amount: ((pool_tokens * swap_token_b_amount) / (pool_token_supply as int))
                    as u128,
            },
        )
    }
}

/// Get the amount of trading tokens for the given amount of pool tokens,
/// provided the total trading tokens and supply of pool tokens.
///
/// This is the default implementation of the curves: a simple ratio
/// calculation for how many trading tokens correspond to a certain number of
/// pool tokens
pub fn default_pool_tokens_to_trading_tokens(
    pool_tokens: u128,
    pool_token_supply: u128,
    swap_token_a_amount: u128,
    swap_token_b_amount: u128,
) -> (r: Option<TradingTokenResult>)
    ensures
        r == spec_default_pool_tokens_to_trading_tokens(
            pool_tokens,
            pool_token_supply,
            swap_token_a_amount,
            swap_token_b_amount,
        ),
{
    let token_a_amount = pool_tokens.checked_mul(swap_token_a_amount)?.checked_div(
        pool_token_supply,
    )?;
    let token_b_amount = pool_tokens.checked_mul(swap_token_b_amount)?.checked_div(
        pool_token_supply,
    )?;
    Some(TradingTokenResult { token_a_amount, token_b_amount })
}

/// The raw precise value of `pool_supply * (sqrt(1 + source_amount /
/// swap_source_amount) - 1)`, computed with the precise-number rounding.
pub open spec fn spec_deposit_root_product(
    source_amount: u128,
    swap_source_amount: u128,
    pool_supply: u128,
) -> Option<nat> {
    match precise_div(
        (source_amount * PRECISE_ONE) as nat,
        (swap_source_amount * PRECISE_ONE) as nat,
    ) {
        None => None,
        Some(ratio) => match fits(PRECISE_ONE + ratio) {
            None => None,
            Some(base) => match precise_sqrt(base) {
                None => None,
                Some(root) => match fits(root - PRECISE_ONE) {
                    None => None,
                    Some(root_minus_one) => precise_mul(
                        (pool_supply * PRECISE_ONE) as nat,
                        root_minus_one,
                    ),
                },
            },
        },
    }
}

/// The source side's amount in the pool.
pub open spec fn source_side(
    swap_token_a_amount: u128,
    swap_token_b_amount: u128,
    trade_direction: TradeDirection,
) -> u128 {
    match trade_direction {
        TradeDirection::AtoB => swap_token_a_amount,
        TradeDirection::BtoA => swap_token_b_amount,
    }
}

/// The default conversion of trading tokens into pool tokens, as a deposit
/// of one side: `pool_supply * (sqrt(1 + source_amount / swap_source_amount)
/// - 1)`, rounded to the nearest integer.
pub open spec fn spec_default_trading_tokens_to_pool_tokens(
    source_amount: u128,
    swap_source_amount: u128,
    pool_supply: u128,
) -> Option<u128> {
    match spec_deposit_root_product(source_amount, swap_source_amount, pool_supply) {
        None => None,
        Some(p) => precise_to_imprecise(p),
    }
}

/// Whether the default conversion of trading tokens into pool tokens has a
/// result within 128 bits (or fails without one).
pub open spec fn default_trading_tokens_to_pool_tokens_fits(
    source_amount: u128,
    swap_source_amount: u128,
    pool_supply: u128,
) -> bool {
    match spec_deposit_root_product(source_amount, swap_source_amount, pool_supply) {
        None => true,
        Some(p) => precise_to_imprecise_fits(p),
    }
}

/// Get the amount of pool tokens for the given amount of token A or B,
/// given the amount of the source side in the pool.
///
/// This is the default implementation of the curves. It essentially
/// performs a swap followed by a deposit, or a withdrawal followed by a
/// swap.  Because a swap is implicitly performed, this will change the spot
/// price of the pool.
///
/// See more background for the calculation at:
/// https://balancer.finance/whitepaper/#single-asset-deposit
pub fn default_trading_tokens_to_pool_tokens(
    source_amount: u128,
    swap_source_amount: u128,
    pool_supply: u128,
) -> (r: Option<u128>)
    requires
        default_trading_tokens_to_pool_tokens_fits(source_amount, swap_source_amount, pool_supply),
    ensures
        r == spec_default_trading_tokens_to_pool_tokens(
            source_amount,
            swap_source_amount,
            pool_supply,
        ),
{
    proof {
        lemma_precise_new_fits(swap_source_amount);
        lemma_precise_new_fits(source_amount);
        lemma_precise_new_fits(pool_supply);
        lemma_precise_new_fits(1);
    }
    let swap_source_amount = PreciseNumber::new(swap_source_amount)?;
    let source_amount = PreciseNumber::new(source_amount)?;
    let ratio = source_amount.checked_div(&swap_source_amount)?;
    let one = PreciseNumber::new(1)?;
    let base = one.checked_add(&ratio)?;
    let root = base.sqrt()?.checked_sub(&one)?;
    let pool_supply = PreciseNumber::new(pool_supply)?;
    let product = pool_supply.checked_mul(&root)?;
    product.to_imprecise()
}

/// A whole number of 128 bits scaled by one still fits in 256 bits.
pub proof fn lemma_precise_new_fits(value: u128)
    ensures
        fits(value * PRECISE_ONE) == Some((value * PRECISE_ONE) as nat),
{
    assert(value * PRECISE_ONE <= u128::MAX * PRECISE_ONE) by (nonlinear_arith)
        requires
            value <= u128::MAX,
    ;
    assert(u128::MAX * PRECISE_ONE <= crate::curve::math::u256_max());
}

/// The raw precise value of `sqrt(a * b)`.
pub open spec fn spec_normalized_root(swap_token_a_amount: u128, swap_token_b_amount: u128) -> Option<
    nat,
> {
    match precise_mul(
        (swap_token_a_amount * PRECISE_ONE) as nat,
        (swap_token_b_amount * PRECISE_ONE) as nat,
    ) {
        None => None,
        Some(product) => precise_sqrt(product),
    }
}

/// The default normalized value of a pool: the square root of the product
/// of its two sides, rounded to the nearest integer.
pub open spec fn spec_default_normalized_value(
    swap_token_a_amount: u128,
    swap_token_b_amount: u128,
) -> Option<u128> {
    match spec_normalized_root(swap_token_a_amount, swap_token_b_amount) {
        None => None,
        Some(root) => precise_to_imprecise(root),
    }
}

/// Whether the default normalized value has a result within 128 bits (or
/// fails without one).
pub open spec fn default_normalized_value_fits(
    swap_token_a_amount: u128,
    swap_token_b_amount: u128,
) -> bool {
    match spec_normalized_root(swap_token_a_amount, swap_token_b_amount) {
        None => true,
        Some(root) => precise_to_imprecise_fits(root),
    }
}

/// Calculates the total normalized value of the curve given the liquidity
/// parameters.
///
/// This is the default implementation of the curves: the square root of the
/// Uniswap invariant, which has the dimension of `tokens ^ 1`.
pub fn default_normalized_value(swap_token_a_amount: u128, swap_token_b_amount: u128) -> (r:
    Option<u128>)
    requires
        default_normalized_value_fits(swap_token_a_amount, swap_token_b_amount),
    ensures
        r == spec_default_normalized_value(swap_token_a_amount, swap_token_b_amount),
{
    proof {
        lemma_precise_new_fits(swap_token_a_amount);
        lemma_precise_new_fits(swap_token_b_amount);
    }
    let swap_token_a_amount = PreciseNumber::new(swap_token_a_amount)?;
    let swap_token_b_amount = PreciseNumber::new(swap_token_b_amount)?;
    let root = swap_token_a_amount.checked_mul(&swap_token_b_amount)?.sqrt()?;
    root.to_imprecise()
}

/// The default normalized value where its result stays within 128 bits:
/// `None` where the square root, rounded to an integer, leaves 128 bits;
/// else `Some` of what `default_normalized_value` gives.
pub fn try_default_normalized_value(swap_token_a_amount: u128, swap_token_b_amount: u128) -> (r:
    Option<Option<u128>>)
    ensures
        default_normalized_value_fits(swap_token_a_amount, swap_token_b_amount) ==> r == Some(
            spec_default_normalized_value(swap_token_a_amount, swap_token_b_amount),
        ),
        !default_normalized_value_fits(swap_token_a_amount, swap_token_b_amount) ==> r is None,
{
    proof {
        lemma_precise_new_fits(swap_token_a_amount);
        lemma_precise_new_fits(swap_token_b_amount);
    }
    let fits = match PreciseNumber::new(swap_token_a_amount) {
        None => true,
        Some(a) => match PreciseNumber::new(swap_token_b_amount) {
            None => true,
            Some(b) => match a.checked_mul(&b) {
                None => true,
                Some(product) => match product.sqrt() {
                    None => true,
                    Some(root) => root.fits_imprecise(),
                },
            },
        },
    };
    if fits {
        Some(default_normalized_value(swap_token_a_amount, swap_token_b_amount))
    } else {
        None
    }
}

/// The default supply check: both sides must hold tokens.
pub open spec fn spec_default_validate_supply(token_a_amount: u64, token_b_amount: u64) -> Result<
    (),
    SwapError,
> {
    if token_a_amount == 0 || token_b_amount == 0 {
        Err(SwapError::EmptySupply)
    } else {
        Ok(())
    }
}

/// Validate the given supply on initialization.
///
/// This is the default implementation of the curves: the standard constant
/// product curve must have a non-zero supply on both sides.
pub fn default_validate_supply(token_a_amount: u64, token_b_amount: u64) -> (r: Result<
    (),
    SwapError,
>)
    ensures
        r == spec_default_validate_supply(token_a_amount, token_b_amount),
{
    if token_a_amount == 0 {
        return Err(SwapError::EmptySupply);
    }
    if token_b_amount == 0 {
        return Err(SwapError::EmptySupply);
    }
    Ok(())
}

/// Trait representing operations required on a swap curve
pub trait CurveCalculator: DynPack {
    /// What `swap_without_fees` gives.
    spec fn spec_swap_without_fees(
        &self,
        source_amount: u128,
        swap_source_amount: u128,
        swap_destination_amount: u128,
        trade_direction: TradeDirection,
    ) -> Option<SwapWithoutFeesResult>;

    /// What `new_pool_supply` gives.
    spec fn spec_new_pool_supply(&self) -> u128;

    /// What `pool_tokens_to_trading_tokens` gives.
    spec fn spec_pool_tokens_to_trading_tokens(
        &self,
        pool_tokens: u128,
        pool_token_supply: u128,
        swap_token_a_amount: u128,
        swap_token_b_amount: u128,
    ) -> Option<TradingTokenResult>;

    /// What `pool_tokens_to_trading_tokens_rounded` gives.
    spec fn spec_pool_tokens_to_trading_tokens_rounded(
        &self,
        pool_tokens: u128,
        pool_token_supply: u128,
        swap_token_a_amount: u128,
        swap_token_b_amount: u128,
        round_direction: RoundDirection,
    ) -> Option<TradingTokenResult>;

    /// What `trading_tokens_to_pool_tokens` gives.
    spec fn spec_trading_tokens_to_pool_tokens(
        &self,
        source_amount: u128,
        swap_token_a_amount: u128,
        swap_token_b_amount: u128,
        pool_supply: u128,
        trade_direction: TradeDirection,
    ) -> Option<u128>;

    /// Whether `trading_tokens_to_pool_tokens` has its result within 128 bits.
    spec fn spec_trading_tokens_to_pool_tokens_fits(
        &self,
        source_amount: u128,
        swap_token_a_amount: u128,
        swap_token_b_amount: u128,
        pool_supply: u128,
        trade_direction: TradeDirection,
    ) -> bool;

    /// What `validate` gives.
    spec fn spec_validate(&self) -> Result<(), SwapError>;

    /// What `validate_supply` gives.
    spec fn spec_validate_supply(&self, token_a_amount: u64, token_b_amount: u64) -> Result<
        (),
        SwapError,
    >;

    /// What `allows_deposits` gives.
    spec fn spec_allows_deposits(&self) -> bool;

    /// What `normalized_value` gives.
    spec fn spec_normalized_value(&self, swap_token_a_amount: u128, swap_token_b_amount: u128) -> Option<
        u128,
    >;

    /// Whether `normalized_value` has its result within 128 bits.
    spec fn spec_normalized_value_fits(
        &self,
        swap_token_a_amount: u128,
        swap_token_b_amount: u128,
    ) -> bool;

    /// Calculate how much destination token will be provided given an amount
    /// of source token.
    fn swap_without_fees(
        &self,
        source_amount: u128,
        swap_source_amount: u128,
        swap_destination_amount: u128,
        trade_direction: TradeDirection,
    ) -> (r: Option<SwapWithoutFeesResult>)
        ensures
            r == self.spec_swap_without_fees(
                source_amount,
                swap_source_amount,
                swap_destination_amount,
                trade_direction,
            ),
    ;

    /// Get the supply for a new pool
    fn new_pool_supply(&self) -> (r: u128)
        ensures
            r == self.spec_new_pool_supply(),
    ;

    /// Get the amount of trading tokens for the given amount of pool tokens,
    /// provided the total trading tokens and supply of pool tokens.
    fn pool_tokens_to_trading_tokens(
        &self,
        pool_tokens: u128,
        pool_token_supply: u128,
        swap_token_a_amount: u128,
        swap_token_b_amount: u128,
    ) -> (r: Option<TradingTokenResult>)
        ensures
            r == self.spec_pool_tokens_to_trading_tokens(
                pool_tokens,
                pool_token_supply,
                swap_token_a_amount,
                swap_token_b_amount,
            ),
    ;

    /// Get the amount of trading tokens for the given amount of pool tokens,
    /// rounded the given way: down for what the pool pays out, up for what
    /// it takes in.
    fn pool_tokens_to_trading_tokens_rounded(
        &self,
        pool_tokens: u128,
        pool_token_supply: u128,
        swap_token_a_amount: u128,
        swap_token_b_amount: u128,
        round_direction: RoundDirection,
    ) -> (r: Option<TradingTokenResult>)
        ensures
            r == self.spec_pool_tokens_to_trading_tokens_rounded(
                pool_tokens,
                pool_token_supply,
                swap_token_a_amount,
                swap_token_b_amount,
                round_direction,
            ),
    ;

    /// Get the amount of pool tokens for the given amount of token A or B.
    ///
    /// This is used for single-sided deposits or withdrawals and owner trade
    /// fee calculation. It essentially performs a swap followed by a deposit,
    /// or a withdrawal followed by a swap.  Because a swap is implicitly
    /// performed, this will change the spot price of the pool.
    fn trading_tokens_to_pool_tokens(
        &self,
        source_amount: u128,
        swap_token_a_amount: u128,
        swap_token_b_amount: u128,
        pool_supply: u128,
        trade_direction: TradeDirection,
    ) -> (r: Option<u128>)
        requires
            self.spec_trading_tokens_to_pool_tokens_fits(
                source_amount,
                swap_token_a_amount,
                swap_token_b_amount,
                pool_supply,
                trade_direction,
            ),
        ensures
            r == self.spec_trading_tokens_to_pool_tokens(
                source_amount,
                swap_token_a_amount,
                swap_token_b_amount,
                pool_supply,
                trade_direction,
            ),
    ;

    /// Validate that the given curve has no invalid parameters
    fn validate(&self) -> (r: Result<(), SwapError>)
        ensures
            r == self.spec_validate(),
    ;

    /// Validate the given supply on initialization. This is useful for curves
    /// that allow zero supply on one or both sides, since the standard constant
    /// product curve must have a non-zero supply on both sides.
    fn validate_supply(&self, token_a_amount: u64, token_b_amount: u64) -> (r: Result<(), SwapError>)
        ensures
            r == self.spec_validate_supply(token_a_amount, token_b_amount),
    ;

    /// Some curves function best and prevent attacks if we prevent deposits
    /// after initialization.  For example, the offset curve in `offset.rs`,
    /// which fakes supply on one side of the swap, allows the swap creator
    /// to steal value from all other depositors.
    fn allows_deposits(&self) -> (r: bool)
        ensures
            r == self.spec_allows_deposits(),
    ;

    /// Calculates the total normalized value of the curve given the liquidity
    /// parameters.
    ///
    /// This value must have the dimension of `tokens ^ 1` For example, the
    /// standard Uniswap invariant has dimension `tokens ^ 2` since we are
    /// multiplying two token values together.  In order to normalize it, we
    /// also need to take the square root.
    fn normalized_value(&self, swap_token_a_amount: u128, swap_token_b_amount: u128) -> (r: Option<
        u128,
    >)
        requires
            self.spec_normalized_value_fits(swap_token_a_amount, swap_token_b_amount),
        ensures
            r == self.spec_normalized_value(swap_token_a_amount, swap_token_b_amount),
    ;

    /// The normalized value where its result stays within 128 bits: `None`
    /// where it does not, else `Some` of what `normalized_value` gives.
    fn try_normalized_value(&self, swap_token_a_amount: u128, swap_token_b_amount: u128) -> (r:
        Option<Option<u128>>)
        ensures
            self.spec_normalized_value_fits(swap_token_a_amount, swap_token_b_amount) ==> r == Some(
                self.spec_normalized_value(swap_token_a_amount, swap_token_b_amount),
            ),
            !self.spec_normalized_value_fits(swap_token_a_amount, swap_token_b_amount) ==> r is None,
    ;
}

} // verus!
