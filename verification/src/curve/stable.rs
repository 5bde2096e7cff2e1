//! The curve.fi invariant calculator.

use vstd::prelude::*;
use vstd::arithmetic::power::{lemma_square_is_pow2, pow};

use crate::curve::calculator::{
    default_pool_tokens_to_trading_tokens_rounded, spec_default_pool_tokens_to_trading_tokens_rounded, RoundDirection,
    default_normalized_value, default_normalized_value_fits, try_default_normalized_value, default_pool_tokens_to_trading_tokens,
    default_trading_tokens_to_pool_tokens, default_trading_tokens_to_pool_tokens_fits,
    default_validate_supply, source_side, spec_default_normalized_value,
    spec_default_pool_tokens_to_trading_tokens, spec_default_trading_tokens_to_pool_tokens,
    spec_default_validate_supply, CurveCalculator, DynPack, SwapWithoutFeesResult,
    TradeDirection, TradingTokenResult, INITIAL_SWAP_POOL_AMOUNT,
};
use crate::curve::math::{distance, u256_max, U256};
use crate::error::{ProgramError, SwapError};
use crate::packing::{le_u64, overwrite, read_le_u64, read_u64, write_u64, IsInitialized, Pack};

verus! {

const N_COINS: u8 = 2;

const N_COINS_SQUARED: u8 = 4;

/// StableCurve struct implementing CurveCalculator
#[derive(Clone, Copy, Debug, PartialEq, Eq, Structural)]
pub struct StableCurve {
    /// Amplifier constant
    pub amp: u64,
}

/// One Newton step towards the invariant:
/// `d = (leverage * sum_x + d_product * n_coins) * initial_d /
///      ((leverage - 1) * initial_d + (n_coins + 1) * d_product)`,
/// computed in 256 bits, with no result when a value leaves them, when the
/// leverage is zero or when the divisor is zero.
pub open spec fn spec_calculate_step(
    initial_d: nat,
    leverage: u64,
    sum_x: u128,
    d_product: nat,
) -> Option<nat> {
    let leverage_mul = leverage * sum_x;
    let d_p_mul = d_product * 2;
    let l_val = (leverage_mul + d_p_mul) * initial_d;
    let leverage_sub = initial_d * (leverage - 1);
    let n_coins_sum = d_product * 3;
    let r_val = leverage_sub + n_coins_sum;
    if leverage_mul <= u256_max() && d_p_mul <= u256_max() && leverage_mul + d_p_mul <= u256_max()
        && l_val <= u256_max() && leverage >= 1 && leverage_sub <= u256_max() && n_coins_sum
        <= u256_max() && r_val <= u256_max() && r_val != 0 {
        Some((l_val / r_val) as nat)
    } else {
        None
    }
}

/// d = (leverage * sum_x + d_product * n_coins) * initial_d / ((leverage - 1) * initial_d + (n_coins + 1) * d_product)
fn calculate_step(initial_d: &U256, leverage: u64, sum_x: u128, d_product: &U256) -> (r: Option<
    U256,
>)
    ensures
        match r {
            Some(x) => spec_calculate_step(initial_d@, leverage, sum_x, d_product@) == Some(x@),
            None => spec_calculate_step(initial_d@, leverage, sum_x, d_product@) is None,
        },
{
    let leverage_mul = U256::from_u64(leverage).checked_mul(U256::from_u128(sum_x))?;
    let d_p_mul = d_product.checked_u8_mul(N_COINS)?;

    let l_val = leverage_mul.checked_add(d_p_mul)?.checked_mul(*initial_d)?;

    let leverage_sub = initial_d.checked_mul(U256::from_u64(leverage.checked_sub(1)?))?;
    let n_coins_sum = d_product.checked_u8_mul(N_COINS.checked_add(1)?)?;

    let r_val = leverage_sub.checked_add(n_coins_sum)?;

    l_val.checked_div(r_val)
}

/// `D**3 / (x_a * x_b * n**n)` as the invariant computes it, dividing after
/// each multiplication, with no result when a product leaves 256 bits or a
/// side is empty.
pub open spec fn spec_d_product(d: nat, amount_a_times_coins: nat, amount_b_times_coins: nat) -> Option<
    nat,
> {
    if d * d > u256_max() || amount_a_times_coins == 0 {
        None
    } else {
        let p = ((d * d) as int) / (amount_a_times_coins as int);
        if p * d > u256_max() || amount_b_times_coins == 0 {
            None
        } else {
            Some(((p * d) / (amount_b_times_coins as int)) as nat)
        }
    }
}

/// At most `rounds` Newton steps for the invariant from `d`, stopping at the
/// first step that moves it by at most one.
pub open spec fn spec_d_iterate(
    d: nat,
    rounds: nat,
    leverage: u64,
    sum_x: u128,
    amount_a_times_coins: nat,
    amount_b_times_coins: nat,
) -> Option<nat>
    decreases rounds,
{
    if rounds == 0 {
        Some(d)
    } else {
        match spec_d_product(d, amount_a_times_coins, amount_b_times_coins) {
            None => None,
            Some(d_product) => match spec_calculate_step(d, leverage, sum_x, d_product) {
                None => None,
                Some(next) => if distance(next, d) <= 1 {
                    Some(next)
                } else {
                    spec_d_iterate(
                        next,
                        (rounds - 1) as nat,
                        leverage,
                        sum_x,
                        amount_a_times_coins,
                        amount_b_times_coins,
                    )
                },
            },
        }
    }
}

/// The stable swap invariant D of a pool: zero for an empty pool, else
/// Newton's method from the sum of both sides, for at most 32 steps, when
/// everything fits.
pub open spec fn spec_compute_d(leverage: u64, amount_a: u128, amount_b: u128) -> Option<u128> {
    let sum_x = amount_a + amount_b;
    if sum_x > u128::MAX {
        None
    } else if sum_x == 0 {
        Some(0)
    } else {
        match spec_d_iterate(
            sum_x as nat,
            32,
            leverage,
            sum_x as u128,
            (amount_a * 2) as nat,
            (amount_b * 2) as nat,
        ) {
            None => None,
            Some(d) => if d <= u128::MAX {
                Some(d as u128)
            } else {
                None
            },
        }
    }
}

/// Compute stable swap invariant (D)
/// Equation:
/// A * sum(x_i) * n**n + D = A * D * n**n + D**(n+1) / (n**n * prod(x_i))
fn compute_d(leverage: u64, amount_a: u128, amount_b: u128) -> (r: Option<u128>)
    ensures
        r == spec_compute_d(leverage, amount_a, amount_b),
{
    let amount_a_times_coins = U256::from_u128(amount_a).checked_u8_mul(N_COINS)?;
    let amount_b_times_coins = U256::from_u128(amount_b).checked_u8_mul(N_COINS)?;
    let sum_x = amount_a.checked_add(amount_b)?;  // sum(x_i), a.k.a S
    if sum_x == 0 {
        Some(0)
    } else {
        let mut d: U256 = U256::from_u128(sum_x);
        let mut i: u32 = 0;
        // Newton's method to approximate D
        while i < 32
            invariant
                i <= 32,
                sum_x == amount_a + amount_b,
                sum_x != 0,
                amount_a_times_coins@ == amount_a * 2,
                amount_b_times_coins@ == amount_b * 2,
                spec_d_iterate(
                    sum_x as nat,
                    32,
                    leverage,
                    sum_x,
                    amount_a_times_coins@,
                    amount_b_times_coins@,
                ) == spec_d_iterate(
                    d@,
                    (32 - i) as nat,
                    leverage,
                    sum_x,
                    amount_a_times_coins@,
                    amount_b_times_coins@,
                ),
            decreases 32 - i,
        {
            let d_product = d.checked_mul(d)?.checked_div(amount_a_times_coins)?;
            let d_product = d_product.checked_mul(d)?.checked_div(amount_b_times_coins)?;
            let d_previous = d;
            //d = (leverage * sum_x + d_p * n_coins) * d / ((leverage - 1) * d + (n_coins + 1) * d_p);
            d = calculate_step(&d_previous, leverage, sum_x, &d_product)?;
            // Equality with the precision of 1
            if d.almost_equal(&d_previous)? {
                return d.try_to_u128();
            }
            i = i + 1;
        }
        d.try_to_u128()
    }
}

/// The constant term of the quadratic for the new destination amount:
/// `D**3 / (n**(2n) * x * A)` with the leverage `A * n`, when it fits and
/// the divisor is not zero.
pub open spec fn spec_quadratic_c(leverage: u64, new_source_amount: u128, d_val: u128) -> Option<
    nat,
> {
    let cube = d_val * d_val * d_val;
    let divisor = new_source_amount * 4 * leverage;
    if cube > u256_max() || new_source_amount * 4 > u256_max() || divisor > u256_max() || divisor
        == 0 {
        None
    } else {
        Some((cube / divisor) as nat)
    }
}

/// The linear term of the quadratic: `x + D / leverage`, when the leverage
/// is not zero.
pub open spec fn spec_quadratic_b(leverage: u64, new_source_amount: u128, d_val: u128) -> Option<
    nat,
> {
    if leverage == 0 {
        None
    } else {
        Some((new_source_amount + (d_val as int) / (leverage as int)) as nat)
    }
}

/// One Newton step for `y**2 + b*y = c`: `(y**2 + c) / (2y + b - D)`, with
/// no result when a value leaves 256 bits, the divisor would be negative or
/// it is zero.
pub open spec fn spec_y_step(y: nat, b: nat, c: nat, d_val: nat) -> Option<nat> {
    let numerator = y * y + c;
    let divisor = 2 * y + b - d_val;
    if y * y > u256_max() || numerator > u256_max() || 2 * y > u256_max() || 2 * y + b
        > u256_max() || divisor < 0 || divisor == 0 {
        None
    } else {
        Some(((numerator as int) / divisor) as nat)
    }
}

/// `(y**2 + c) / (2y + b - D)`
fn y_step(y: &U256, b: &U256, c: &U256, d_val: &U256) -> (r: Option<U256>)
    ensures
        match r {
            Some(x) => spec_y_step(y@, b@, c@, d_val@) == Some(x@),
            None => spec_y_step(y@, b@, c@, d_val@) is None,
        },
{
    proof {
        lemma_square_is_pow2(y@ as int);
    }
    y.checked_u8_power(2)?.checked_add(*c)?.checked_div(
        y.checked_u8_mul(2)?.checked_add(*b)?.checked_sub(*d_val)?,
    )
}

/// At most `rounds` Newton steps for the new destination amount from `y`,
/// stopping at the first step that moves it by at most one.
pub open spec fn spec_y_iterate(y: nat, rounds: nat, b: nat, c: nat, d_val: nat) -> Option<nat>
    decreases rounds,
{
    if rounds == 0 {
        Some(y)
    } else {
        match spec_y_step(y, b, c, d_val) {
            None => None,
            Some(next) => if distance(next, y) <= 1 {
                Some(next)
            } else {
                spec_y_iterate(next, (rounds - 1) as nat, b, c, d_val)
            },
        }
    }
}

/// The destination amount that keeps the invariant `d_val` once the source
/// side holds `new_source_amount`: Newton's method on the quadratic from
/// `D`, for at most 32 steps, when everything fits.
pub open spec fn spec_compute_new_destination_amount(
    leverage: u64,
    new_source_amount: u128,
    d_val: u128,
) -> Option<u128> {
    match spec_quadratic_c(leverage, new_source_amount, d_val) {
        None => None,
        Some(c) => match spec_quadratic_b(leverage, new_source_amount, d_val) {
            None => None,
            Some(b) => if b > u256_max() {
                None
            } else {
                match spec_y_iterate(d_val as nat, 32, b, c, d_val as nat) {
                    None => None,
                    Some(y) => if y <= u128::MAX {
                        Some(y as u128)
                    } else {
                        None
                    },
                }
            },
        },
    }
}

/// Compute swap amount `y` in proportion to `x`
/// Solve for y:
/// y**2 + y * (sum' - (A*n**n - 1) * D / (A * n**n)) = D ** (n + 1) / (n ** (2 * n) * prod' * A)
/// y**2 + b*y = c
fn compute_new_destination_amount(leverage: u64, new_source_amount: u128, d_val: u128) -> (r:
    Option<u128>)
    ensures
        r == spec_compute_new_destination_amount(leverage, new_source_amount, d_val),
{
    // Upscale to U256
    let leverage_wide = U256::from_u64(leverage);
    let new_source_wide = U256::from_u128(new_source_amount);
    let d_wide = U256::from_u128(d_val);

    proof {
        reveal_with_fuel(pow, 4);
        assert(pow(d_val as int, 3) == d_val * d_val * d_val) by (nonlinear_arith)
            requires
                pow(d_val as int, 3) == d_val * (d_val * (d_val * 1int)),
        ;
    }
    // sum' = prod' = x
    // c =  D ** (n + 1) / (n ** (2 * n) * prod' * A)
    let c = d_wide.checked_u8_power(N_COINS.checked_add(1)?)?.checked_div(
        new_source_wide.checked_u8_mul(N_COINS_SQUARED)?.checked_mul(leverage_wide)?,
    )?;

    // b = sum' - (A*n**n - 1) * D / (A * n**n)
    let b = new_source_wide.checked_add(d_wide.checked_div(leverage_wide)?)?;

    // Solve for y by approximating: y**2 + b*y = c
    let mut y = d_wide;
    let mut i: u32 = 0;
    while i < 32
        invariant
            i <= 32,
            d_wide@ == d_val,
            spec_quadratic_c(leverage, new_source_amount, d_val) == Some(c@),
            spec_quadratic_b(leverage, new_source_amount, d_val) == Some(b@),
            spec_y_iterate(d_val as nat, 32, b@, c@, d_val as nat) == spec_y_iterate(
                y@,
                (32 - i) as nat,
                b@,
                c@,
                d_val as nat,
            ),
        decreases 32 - i,
    {
        let y_prev = y;
        y = y_step(&y_prev, &b, &c, &d_wide)?;
        if y.almost_equal(&y_prev)? {
            return y.try_to_u128();
        }
        i = i + 1;
    }
    y.try_to_u128()
}

/// The stable swap: the destination side gives up what keeps the invariant
/// once the whole source amount is added; the leverage is `amp * n`.
pub open spec fn spec_stable_swap(
    amp: u64,
    source_amount: u128,
    swap_source_amount: u128,
    swap_destination_amount: u128,
) -> Option<SwapWithoutFeesResult> {
    let leverage = amp * 2;
    let new_source_amount = swap_source_amount + source_amount;
    if leverage > u64::MAX || new_source_amount > u128::MAX {
        None
    } else {
        match spec_compute_d(leverage as u64, swap_source_amount, swap_destination_amount) {
            None => None,
            Some(d) => match spec_compute_new_destination_amount(
                leverage as u64,
                new_source_amount as u128,
                d,
            ) {
                None => None,
                Some(new_destination_amount) => if new_destination_amount
                    > swap_destination_amount {
                    None
                } else {
                    Some(
                        SwapWithoutFeesResult {
                            source_amount_swapped: source_amount,
                            destination_amount_swapped: (swap_destination_amount
                                - new_destination_amount) as u128,
                        },
                    )
                },
            },
        }
    }
}

impl CurveCalculator for StableCurve {
    open spec fn spec_swap_without_fees(
        &self,
        source_amount: u128,
        swap_source_amount: u128,
        swap_destination_amount: u128,
        trade_direction: TradeDirection,
    ) -> Option<SwapWithoutFeesResult> {
        spec_stable_swap(self.amp, source_amount, swap_source_amount, swap_destination_amount)
    }

    open spec fn spec_new_pool_supply(&self) -> u128 {
        INITIAL_SWAP_POOL_AMOUNT
    }

    open spec fn spec_pool_tokens_to_trading_tokens_rounded(
        &self,
        pool_tokens: u128,
        pool_token_supply: u128,
        swap_token_a_amount: u128,
        swap_token_b_amount: u128,
        round_direction: RoundDirection,
    ) -> Option<TradingTokenResult> {
        spec_default_pool_tokens_to_trading_tokens_rounded(
            pool_tokens,
            pool_token_supply,
            swap_token_a_amount,
            swap_token_b_amount,
            round_direction,
        )
    }

    open spec fn spec_pool_tokens_to_trading_tokens(
        &self,
        pool_tokens: u128,
        pool_token_supply: u128,
        swap_token_a_amount: u128,
        swap_token_b_amount: u128,
    ) -> Option<TradingTokenResult> {
        spec_default_pool_tokens_to_trading_tokens(
            pool_tokens,
            pool_token_supply,
            swap_token_a_amount,
            swap_token_b_amount,
        )
    }

    open spec fn spec_trading_tokens_to_pool_tokens(
        &self,
        source_amount: u128,
        swap_token_a_amount: u128,
        swap_token_b_amount: u128,
        pool_supply: u128,
        trade_direction: TradeDirection,
    ) -> Option<u128> {
        spec_default_trading_tokens_to_pool_tokens(
            source_amount,
            source_side(swap_token_a_amount, swap_token_b_amount, trade_direction),
            pool_supply,
        )
    }

    open spec fn spec_trading_tokens_to_pool_tokens_fits(
        &self,
        source_amount: u128,
        swap_token_a_amount: u128,
        swap_token_b_amount: u128,
        pool_supply: u128,
        trade_direction: TradeDirection,
    ) -> bool {
        default_trading_tokens_to_pool_tokens_fits(
            source_amount,
            source_side(swap_token_a_amount, swap_token_b_amount, trade_direction),
            pool_supply,
        )
    }

    open spec fn spec_validate(&self) -> Result<(), SwapError> {
        Ok(())
    }

    open spec fn spec_validate_supply(&self, token_a_amount: u64, token_b_amount: u64) -> Result<
        (),
        SwapError,
    > {
        spec_default_validate_supply(token_a_amount, token_b_amount)
    }

    open spec fn spec_allows_deposits(&self) -> bool {
        true
    }

    open spec fn spec_normalized_value(
        &self,
        swap_token_a_amount: u128,
        swap_token_b_amount: u128,
    ) -> Option<u128> {
        spec_default_normalized_value(swap_token_a_amount, swap_token_b_amount)
    }

    open spec fn spec_normalized_value_fits(
        &self,
        swap_token_a_amount: u128,
        swap_token_b_amount: u128,
    ) -> bool {
        default_normalized_value_fits(swap_token_a_amount, swap_token_b_amount)
    }

    /// Stable curve
    fn swap_without_fees(
        &self,
        source_amount: u128,
        swap_source_amount: u128,
        swap_destination_amount: u128,
        _trade_direction: TradeDirection,
    ) -> (r: Option<SwapWithoutFeesResult>) {
        let leverage = self.amp.checked_mul(N_COINS as u64)?;

        let new_source_amount = swap_source_amount.checked_add(source_amount)?;
        let new_destination_amount = compute_new_destination_amount(
            leverage,
            new_source_amount,
            compute_d(leverage, swap_source_amount, swap_destination_amount)?,
        )?;

        let amount_swapped = swap_destination_amount.checked_sub(new_destination_amount)?;

        Some(
            SwapWithoutFeesResult {
                source_amount_swapped: source_amount,
                destination_amount_swapped: amount_swapped,
            },
        )
    }

    fn new_pool_supply(&self) -> (r: u128) {
        INITIAL_SWAP_POOL_AMOUNT
    }

    fn pool_tokens_to_trading_tokens_rounded(
        &self,
        pool_tokens: u128,
        pool_token_supply: u128,
        swap_token_a_amount: u128,
        swap_token_b_amount: u128,
        round_direction: RoundDirection,
    ) -> (r: Option<TradingTokenResult>) {
        default_pool_tokens_to_trading_tokens_rounded(
            pool_tokens,
            pool_token_supply,
            swap_token_a_amount,
            swap_token_b_amount,
            round_direction,
        )
    }

    fn pool_tokens_to_trading_tokens(
        &self,
        pool_tokens: u128,
        pool_token_supply: u128,
        swap_token_a_amount: u128,
        swap_token_b_amount: u128,
    ) -> (r: Option<TradingTokenResult>) {
        default_pool_tokens_to_trading_tokens(
            pool_tokens,
            pool_token_supply,
            swap_token_a_amount,
            swap_token_b_amount,
        )
    }

    fn trading_tokens_to_pool_tokens(
        &self,
        source_amount: u128,
        swap_token_a_amount: u128,
        swap_token_b_amount: u128,
        pool_supply: u128,
        trade_direction: TradeDirection,
    ) -> (r: Option<u128>) {
        let swap_source_amount = match trade_direction {
            TradeDirection::AtoB => swap_token_a_amount,
            TradeDirection::BtoA => swap_token_b_amount,
        };
        default_trading_tokens_to_pool_tokens(source_amount, swap_source_amount, pool_supply)
    }

    fn validate(&self) -> (r: Result<(), SwapError>) {
        // every amplifier is accepted
        Ok(())
    }

    fn validate_supply(&self, token_a_amount: u64, token_b_amount: u64) -> (r: Result<(), SwapError>) {
        default_validate_supply(token_a_amount, token_b_amount)
    }

    fn allows_deposits(&self) -> (r: bool) {
        true
    }

    fn normalized_value(&self, swap_token_a_amount: u128, swap_token_b_amount: u128) -> (r: Option<
        u128,
    >) {
        default_normalized_value(swap_token_a_amount, swap_token_b_amount)
    }

    fn try_normalized_value(&self, swap_token_a_amount: u128, swap_token_b_amount: u128) -> (r:
        Option<Option<u128>>) {
        try_default_normalized_value(swap_token_a_amount, swap_token_b_amount)
    }
}

impl Default for StableCurve {
    fn default() -> (r: Self)
        ensures
            r.amp == 0,
    {
        StableCurve { amp: 0 }
    }
}

/// IsInitialized is required to use `Pack::pack` and `Pack::unpack`
impl IsInitialized for StableCurve {
    open spec fn spec_is_initialized(&self) -> bool {
        true
    }

    fn is_initialized(&self) -> (b: bool) {
        true
    }
}

impl StableCurve {
    /// Size of the packed curve: the amplifier
    pub const LEN: usize = 8;
}

impl Pack for StableCurve {
    open spec fn spec_packable(&self) -> bool {
        true
    }

    open spec fn spec_len() -> nat {
        8
    }

    open spec fn spec_pack_into(&self, dst: Seq<u8>) -> Seq<u8> {
        overwrite(dst, 0, le_u64(self.amp))
    }

    open spec fn spec_unpack_from_slice(src: Seq<u8>) -> Result<Self, ProgramError> {
        Ok(StableCurve { amp: read_le_u64(src, 0) })
    }

    fn get_packed_len() -> (n: usize) {
        8
    }

    fn pack_into_slice(&self, output: &mut [u8]) {
        write_u64(output, 0, self.amp);
    }

    fn unpack_from_slice(input: &[u8]) -> (r: Result<StableCurve, ProgramError>) {
        Ok(Self { amp: read_u64(input, 0) })
    }
}

impl DynPack for StableCurve {
    open spec fn spec_dyn_len(&self) -> nat {
        8
    }

    open spec fn spec_dyn_pack_into(&self, dst: Seq<u8>) -> Seq<u8> {
        overwrite(dst, 0, le_u64(self.amp))
    }

    fn pack_into_slice(&self, output: &mut [u8]) {
        write_u64(output, 0, self.amp);
    }
}

/// Packing a stable curve and unpacking the bytes gives the curve back.
pub proof fn lemma_stable_curve_pack_roundtrip(curve: StableCurve, dst: Seq<u8>)
    requires
        dst.len() >= 8,
    ensures
        StableCurve::spec_unpack_from_slice(curve.spec_pack_into(dst)) == Ok::<
            StableCurve,
            ProgramError,
        >(curve),
        curve.spec_pack_into(dst).len() == dst.len(),
{
    crate::packing::lemma_read_written_u64(dst, 0, curve.amp);
}

/// A stable swap never hands out more than the destination side holds, and
/// takes in exactly the source amount.
pub proof fn lemma_stable_swap_bounded(
    curve: StableCurve,
    source_amount: u128,
    swap_source_amount: u128,
    swap_destination_amount: u128,
)
    ensures
        spec_stable_swap(curve.amp, source_amount, swap_source_amount, swap_destination_amount)
            matches Some(res) ==> res.source_amount_swapped == source_amount
            && res.destination_amount_swapped <= swap_destination_amount,
{
}

/// Whether a pool holding `x` and `y` stands on or beyond the stable swap
/// invariant `d` with leverage `leverage` (`A * n**n`, n = 2):
/// `A*n**n*(x + y) + D >= A*n**n*D + D**(n+1) / (n**n * x * y)`, multiplied
/// out by `n**n * x * y`. Since the left side less the right one falls as `D`
/// grows, this says that the pool's own invariant is at least `d`.
pub open spec fn stable_pool_reaches(leverage: int, x: int, y: int, d: int) -> bool {
    4 * x * y * (leverage * (x + y) + d) >= 4 * x * y * leverage * d + d * d * d
}

/// The quadratic `y**2 + (b - D)*y - c` whose root the new destination
/// amount approximates.
spec fn destination_quadratic(y: int, b: int, c: int, d_val: int) -> int {
    y * y + (b - d_val) * y - c
}

/// One Newton step lands at most one below a point where the quadratic is
/// positive: the quadratic lies above its tangent.
proof fn lemma_y_step_overshoots(y: nat, b: nat, c: nat, d_val: nat)
    requires
        spec_y_step(y, b, c, d_val) is Some,
    ensures
        destination_quadratic((spec_y_step(y, b, c, d_val)->0 + 1) as int, b as int, c as int, d_val as int)
            >= 1,
{
    let delta: int = 2 * y + b - d_val;
    let num: int = (y * y + c) as int;
    let n: int = num / delta;
    assert(delta > 0);
    assert(spec_y_step(y, b, c, d_val)->0 == n);
    assert((n + 1) * delta > num) by (nonlinear_arith)
        requires
            delta > 0,
            num >= 0,
            n == num / delta,
    ;
    let m: int = n + 1;
    assert(m * m + (b - d_val) * m - c >= 1) by (nonlinear_arith)
        requires
            m * delta > y * y + c,
            delta == 2 * y + b - d_val,
    {
        assert((m - y) * (m - y) >= 0);
    }
}

/// Whatever Newton's method for the new destination amount returns, after
/// at least one step, stands at most one below a point where the quadratic
/// is positive.
proof fn lemma_y_iterate_overshoots(y: nat, rounds: nat, b: nat, c: nat, d_val: nat)
    requires
        rounds >= 1,
        spec_y_iterate(y, rounds, b, c, d_val) is Some,
    ensures
        destination_quadratic(
            (spec_y_iterate(y, rounds, b, c, d_val)->0 + 1) as int,
            b as int,
            c as int,
            d_val as int,
        ) >= 1,
    decreases rounds,
{
    let next = spec_y_step(y, b, c, d_val)->0;
    lemma_y_step_overshoots(y, b, c, d_val);
    if distance(next, y) > 1 && rounds > 1 {
        lemma_y_iterate_overshoots(next, (rounds - 1) as nat, b, c, d_val);
    } else if distance(next, y) > 1 {
        assert(spec_y_iterate(next, 0, b, c, d_val) == Some(next));
    }
}

/// The invariant's margin at `(x, y)` for `D`, written through the
/// quadratic for `y`.
proof fn lemma_invariant_margin(l: int, x: int, y: int, d: int)
    ensures
        4 * x * y * (l * (x + y) + d) - 4 * x * y * l * d == (x * 4 * l) * (y * y + (x - d) * y) + 4
            * x * y * d,
{
    assert(4 * x * y * (l * (x + y) + d) == 4 * x * y * l * x + 4 * x * y * l * y + 4 * x * y * d)
        by (nonlinear_arith);
    assert((x * 4 * l) * (y * y + (x - d) * y) == 4 * x * y * l * y + 4 * x * y * l * x - 4 * x * y
        * l * d) by (nonlinear_arith);
}

/// Where the quadratic for the new destination amount is positive at `y`,
/// the pool `(x, y)` reaches the invariant `d`.
proof fn lemma_invariant_from_quadratic(l: int, x: int, y: int, d: int, f: int, c: int)
    requires
        y * y + (x + f - d) * y - c >= 1,
        l * f <= d,
        l > 0,
        x > 0,
        y > 0,
        (x * 4 * l) * (c + 1) > d * d * d,
    ensures
        stable_pool_reaches(l, x, y, d),
{
    lemma_invariant_margin(l, x, y, d);
    let div = x * 4 * l;
    assert(div > 0) by (nonlinear_arith)
        requires
            x > 0,
            l > 0,
            div == x * 4 * l,
    ;
    assert(4 * x * y * d >= div * (f * y)) by (nonlinear_arith)
        requires
            l * f <= d,
            x > 0,
            y > 0,
            div == x * 4 * l,
    ;
    assert(div * (y * y + (x - d) * y) + div * (f * y) == div * (y * y + (x + f - d) * y)) by (
    nonlinear_arith);
    assert(div * (y * y + (x + f - d) * y) >= div * (c + 1)) by (nonlinear_arith)
        requires
            y * y + (x + f - d) * y >= c + 1,
            div > 0,
    ;
}

/// A stable swap keeps the invariant of the pool it trades against: with
/// `D` the invariant of the pool's actual balances, the pool after the trade
/// (the source side grown by the whole source amount, the destination side
/// short of what the trader receives) still reaches `D`, up to one token of
/// rounding on the destination side. So the trader never takes out more
/// than the curve of the real balances allows.
pub proof fn lemma_stable_swap_keeps_invariant(
    curve: StableCurve,
    source_amount: u128,
    swap_source_amount: u128,
    swap_destination_amount: u128,
    trade_direction: TradeDirection,
)
    ensures
        curve.spec_swap_without_fees(
            source_amount,
            swap_source_amount,
            swap_destination_amount,
            trade_direction,
        ) matches Some(res) ==> spec_compute_d(
            (curve.amp * 2) as u64,
            swap_source_amount,
            swap_destination_amount,
        ) matches Some(d) && stable_pool_reaches(
            curve.amp * 2,
            swap_source_amount + source_amount,
            swap_destination_amount - res.destination_amount_swapped + 1,
            d as int,
        ),
{
    let leverage = curve.amp * 2;
    let x = swap_source_amount + source_amount;
    if let Some(res) = curve.spec_swap_without_fees(
        source_amount,
        swap_source_amount,
        swap_destination_amount,
        trade_direction,
    ) {
        let l = leverage as u64;
        let xx = x as u128;
        let d = spec_compute_d(l, swap_source_amount, swap_destination_amount)->0;
        let c = spec_quadratic_c(l, xx, d)->0;
        let b = spec_quadratic_b(l, xx, d)->0;
        let y = spec_y_iterate(d as nat, 32, b, c, d as nat)->0;
        lemma_y_iterate_overshoots(d as nat, 32, b, c, d as nat);
        let yy: int = (y + 1) as int;
        assert(yy == swap_destination_amount - res.destination_amount_swapped + 1);
        let dd: int = d as int;
        let ll: int = l as int;
        let xi: int = xx as int;
        let f: int = dd / ll;
        let cube: int = dd * dd * dd;
        let div: int = xi * 4 * ll;
        assert(div > 0);
        assert(c == cube / div);
        assert(b == xi + f);
        assert(ll * f <= dd) by (nonlinear_arith)
            requires
                ll > 0,
                dd >= 0,
                f == dd / ll,
        ;
        assert(div * (c + 1) > cube) by (nonlinear_arith)
            requires
                div > 0,
                cube >= 0,
                c == cube / div,
        ;
        assert(yy * yy + (b - dd) * yy - c >= 1);
        lemma_invariant_from_quadratic(ll, xi, yy, dd, f, c as int);
    }
}

/// `W` times the numerator of a Newton step, multiplied out.
proof fn lemma_expand_step_numerator(w: int, l: int, sum: int, p: int, d: int)
    ensures
        w * ((l * sum + 2 * p) * d) == w * l * sum * d + 2 * w * p * d,
{
    assert((l * sum + 2 * p) * d == l * sum * d + 2 * p * d) by (nonlinear_arith);
    assert(w * (l * sum * d + 2 * p * d) == w * (l * sum * d) + w * (2 * p * d)) by (
    nonlinear_arith);
    assert(w * (l * sum * d) == w * l * sum * d) by (nonlinear_arith);
    assert(w * (2 * p * d) == 2 * w * p * d) by (nonlinear_arith);
}

/// The core of one Newton step for the invariant: where the step's
/// quotient is exceeded by `m`, the cubic `m**3 + W*(L-1)*m - W*L*S` is
/// positive, `W` being four times the product of the sides and `p` a lower
/// estimate of `d**3 / W`.
proof fn lemma_d_step_core(d: int, m: int, l: int, sum: int, w: int, p: int)
    requires
        d > 0,
        m >= 0,
        l >= 1,
        sum >= 0,
        w > 0,
        p >= 0,
        w * p <= d * d * d,
        m * ((l - 1) * d + 3 * p) > (l * sum + 2 * p) * d,
    ensures
        m * m * m + w * (l - 1) * m > w * l * sum,
{
    if 3 * m >= 2 * d {
        // the cube lies above its tangent at d
        assert(d * (m * m * m) >= 3 * m * (d * d * d) - 2 * d * (d * d * d)) by (nonlinear_arith)
            requires
                d > 0,
                m >= 0,
        {
            assert((m - d) * (m - d) * (m + 2 * d) >= 0);
        }
        assert(w * (m * ((l - 1) * d + 3 * p)) > w * ((l * sum + 2 * p) * d)) by (nonlinear_arith)
            requires
                w > 0,
                m * ((l - 1) * d + 3 * p) > (l * sum + 2 * p) * d,
        ;
        assert((3 * m - 2 * d) * (d * d * d - w * p) >= 0) by (nonlinear_arith)
            requires
                3 * m >= 2 * d,
                w * p <= d * d * d,
        ;
        let t = d * d * d;
        let t1 = d * (m * m * m);
        let u = m * ((l - 1) * d + 3 * p);
        let v = (l * sum + 2 * p) * d;
        assert(w * u == w * m * (l - 1) * d + 3 * w * m * p) by (nonlinear_arith)
            requires
                u == m * ((l - 1) * d + 3 * p),
        ;
        lemma_expand_step_numerator(w, l, sum, p, d);
        assert((3 * m - 2 * d) * (t - w * p) == 3 * m * t - 2 * d * t - 3 * m * (w * p) + 2 * d * (w
            * p)) by (nonlinear_arith);
        assert(3 * m * (w * p) == 3 * w * m * p && 2 * d * (w * p) == 2 * w * p * d) by (
        nonlinear_arith);
        assert(d * (m * m * m + w * (l - 1) * m - w * l * sum) == t1 + w * m * (l - 1) * d - w * l
            * sum * d) by (nonlinear_arith)
            requires
                t1 == d * (m * m * m),
        ;
        assert(d * (m * m * m + w * (l - 1) * m - w * l * sum) > 0);
        assert(m * m * m + w * (l - 1) * m - w * l * sum > 0) by (nonlinear_arith)
            requires
                d > 0,
                d * (m * m * m + w * (l - 1) * m - w * l * sum) > 0,
        ;
    } else {
        assert(3 * m * p <= 2 * d * p) by (nonlinear_arith)
            requires
                3 * m < 2 * d,
                p >= 0,
        ;
        assert(m * ((l - 1) * d) > d * (l * sum)) by (nonlinear_arith)
            requires
                m * ((l - 1) * d + 3 * p) > (l * sum + 2 * p) * d,
                3 * m * p <= 2 * d * p,
        ;
        assert(m * (l - 1) > l * sum) by (nonlinear_arith)
            requires
                d > 0,
                m * ((l - 1) * d) > d * (l * sum),
        ;
        assert(w * (l - 1) * m > w * l * sum) by (nonlinear_arith)
            requires
                w > 0,
                m * (l - 1) > l * sum,
        ;
        assert(m * m * m >= 0) by (nonlinear_arith)
            requires
                m >= 0,
        ;
    }
}

/// One Newton step for the invariant lands less than one below a value at
/// which the pool no longer reaches it.
proof fn lemma_d_step_overshoots(d: nat, leverage: u64, sum_x: u128, a2: nat, b2: nat)
    requires
        spec_d_product(d, a2, b2) is Some,
        spec_calculate_step(d, leverage, sum_x, spec_d_product(d, a2, b2)->0) is Some,
    ensures
        ({
            let m = spec_calculate_step(d, leverage, sum_x, spec_d_product(d, a2, b2)->0)->0 + 1;
            m * m * m + a2 * b2 * (leverage - 1) * m > a2 * b2 * leverage * sum_x
        }),
{
    let p = spec_d_product(d, a2, b2)->0;
    let p1: int = ((d * d) as int) / (a2 as int);
    assert(a2 > 0 && b2 > 0);
    assert(p == (p1 * d) / (b2 as int));
    assert(a2 * p1 <= d * d) by (nonlinear_arith)
        requires
            a2 > 0,
            p1 == ((d * d) as int) / (a2 as int),
    ;
    assert(p1 >= 0) by (nonlinear_arith)
        requires
            a2 > 0,
            p1 == ((d * d) as int) / (a2 as int),
    ;
    assert(b2 * p <= p1 * d) by (nonlinear_arith)
        requires
            b2 > 0,
            p1 * d >= 0,
            p == (p1 * d) / (b2 as int),
    ;
    assert((a2 * b2) * p <= d * d * d) by (nonlinear_arith)
        requires
            a2 * p1 <= d * d,
            b2 * p <= p1 * d,
            a2 > 0,
            d >= 0,
    ;
    let l: int = leverage as int;
    let n: int = (l * sum_x + 2 * p) * d;
    let den: int = d * (l - 1) + p * 3;
    let q = spec_calculate_step(d, leverage, sum_x, p)->0;
    assert(den != 0);
    assert(q == n / den);
    assert(d > 0) by {
        if d == 0 {
            assert(d * d == 0);
            assert(p1 == 0);
            assert(p1 * d == 0);
            assert(p == 0);
            assert(d * (l - 1) == 0) by (nonlinear_arith)
                requires
                    d == 0,
            ;
            assert(den == 0);
        }
    }
    assert(a2 * b2 > 0) by (nonlinear_arith)
        requires
            a2 > 0,
            b2 > 0,
    ;
    assert(den > 0) by (nonlinear_arith)
        requires
            den == d * (l - 1) + p * 3,
            den != 0,
            d > 0,
            l >= 1,
            p >= 0,
    ;
    assert((q + 1) * den > n) by (nonlinear_arith)
        requires
            den > 0,
            n >= 0,
            q == n / den,
    {
        assert(n >= 0);
    }
    assert((q + 1) * ((l - 1) * d + 3 * p) > (l * sum_x + 2 * p) * d);
    lemma_d_step_core(d as int, (q + 1) as int, l, sum_x as int, (a2 * b2) as int, p as int);
}

/// Whatever Newton's method for the invariant returns, after at least one
/// step, lies less than one below a value the pool does not reach.
proof fn lemma_d_iterate_overshoots(
    d: nat,
    rounds: nat,
    leverage: u64,
    sum_x: u128,
    a2: nat,
    b2: nat,
)
    requires
        rounds >= 1,
        spec_d_iterate(d, rounds, leverage, sum_x, a2, b2) is Some,
    ensures
        ({
            let m = spec_d_iterate(d, rounds, leverage, sum_x, a2, b2)->0 + 1;
            m * m * m + a2 * b2 * (leverage - 1) * m > a2 * b2 * leverage * sum_x
        }),
    decreases rounds,
{
    let p = spec_d_product(d, a2, b2)->0;
    let next = spec_calculate_step(d, leverage, sum_x, p)->0;
    lemma_d_step_overshoots(d, leverage, sum_x, a2, b2);
    if distance(next, d) > 1 && rounds > 1 {
        lemma_d_iterate_overshoots(next, (rounds - 1) as nat, leverage, sum_x, a2, b2);
    } else if distance(next, d) > 1 {
        assert(spec_d_iterate(next, 0, leverage, sum_x, a2, b2) == Some(next));
    }
}

/// The invariant computed for a pool is at least the pool's own invariant
/// less one: the pool's balances do not reach one more than it. Together
/// with the swap keeping the computed invariant, a swap never lowers the
/// pool's invariant by more than rounding.
pub proof fn lemma_compute_d_not_below_invariant(leverage: u64, amount_a: u128, amount_b: u128)
    ensures
        spec_compute_d(leverage, amount_a, amount_b) matches Some(d) ==> !stable_pool_reaches(
            leverage as int,
            amount_a as int,
            amount_b as int,
            d + 1,
        ),
{
    if let Some(d) = spec_compute_d(leverage, amount_a, amount_b) {
        let sum = amount_a + amount_b;
        if sum == 0 {
            assert(amount_a == 0 && amount_b == 0);
            assert(d == 0);
            assert(!stable_pool_reaches(leverage as int, 0, 0, 1)) by (nonlinear_arith);
        } else {
            let a2: nat = (amount_a * 2) as nat;
            let b2: nat = (amount_b * 2) as nat;
            lemma_d_iterate_overshoots(sum as nat, 32, leverage, sum as u128, a2, b2);
            assert(spec_d_iterate(sum as nat, 32, leverage, sum as u128, a2, b2) == Some(d as nat));
            let m: int = d + 1;
            let l: int = leverage as int;
            let x: int = amount_a as int;
            let y: int = amount_b as int;
            assert(m * m * m + a2 * b2 * (l - 1) * m > a2 * b2 * l * (x + y));
            assert(a2 * b2 == 4 * x * y) by (nonlinear_arith)
                requires
                    a2 == x * 2,
                    b2 == y * 2,
            ;
            assert(!stable_pool_reaches(l, x, y, m)) by (nonlinear_arith)
                requires
                    m * m * m + (4 * x * y) * (l - 1) * m > (4 * x * y) * l * (x + y),
            ;
        }
    }
}

} // verus!
