//! Swap calculations and curve implementations

use vstd::prelude::*;

use crate::curve::cp::ConstantProductCurve;
use crate::curve::flat::FlatCurve;
use crate::error::ProgramError;
use crate::packing::{
    append_u64, bytes_equal, le_u64, lemma_le_u64_roundtrip, overwrite, read_le_u64, read_u64,
    write_bytes, Pack,
};

verus! {

/// Initial amount of pool tokens for swap contract, hard-coded to something
/// "sensible" given a maximum of u128.
/// Note that on Ethereum, Uniswap uses the geometric mean of all provided
/// input amounts, and Balancer uses 100 * 10 ^ 18.
pub const INITIAL_SWAP_POOL_AMOUNT: u128 = 1_000_000_000;

/// The fee on `token_amount`: nothing when the numerator is zero, else the
/// share `fee_numerator / fee_denominator` rounded down but at least one
/// token; no result when the product overflows or the denominator is zero.
pub open spec fn spec_calculate_fee(token_amount: u128, fee_numerator: u128, fee_denominator: u128) -> Option<
    u128,
> {
    if fee_numerator == 0 {
        Some(0)
    } else if token_amount * fee_numerator > u128::MAX || fee_denominator == 0 {
        None
    } else {
        let fee = (token_amount * fee_numerator) / (fee_denominator as int);
        if fee == 0 {
            Some(1)
        } else {
            Some(fee as u128)
        }
    }
}

/// Helper function for calcuating swap fee
pub fn calculate_fee(token_amount: u128, fee_numerator: u128, fee_denominator: u128) -> (r: Option<
    u128,
>)
    ensures
        r == spec_calculate_fee(token_amount, fee_numerator, fee_denominator),
{
    if fee_numerator == 0 {
        Some(0)
    } else {
        let fee = token_amount.checked_mul(fee_numerator)?.checked_div(fee_denominator)?;
        if fee == 0 {
            Some(1)  // minimum fee of one token
        } else {
            Some(fee)
        }
    }
}

/// `x`, unless it is zero.
pub open spec fn spec_map_zero_to_none(x: u128) -> Option<u128> {
    if x == 0 {
        None
    } else {
        Some(x)
    }
}

/// Helper function for mapping to SwapError::CalculationFailure
pub fn map_zero_to_none(x: u128) -> (r: Option<u128>)
    ensures
        r == spec_map_zero_to_none(x),
{
    if x == 0 {
        None
    } else {
        Some(x)
    }
}

/// Curve types supported by the token-swap program.
#[derive(Clone, Copy, Debug, PartialEq, Eq, Structural)]
pub enum CurveType {
    /// Uniswap-style constant product curve, invariant = token_a_amount * token_b_amount
    ConstantProduct,
    /// Flat line, always providing 1:1 from one token to another
    Flat,
}

/// The byte that stands for a curve type.
pub open spec fn curve_type_byte(t: CurveType) -> u8 {
    match t {
        CurveType::ConstantProduct => 0,
        CurveType::Flat => 1,
    }
}

/// The curve type a byte stands for.
pub open spec fn curve_type_from_byte(b: u8) -> Result<CurveType, ProgramError> {
    if b == 0 {
        Ok(CurveType::ConstantProduct)
    } else if b == 1 {
        Ok(CurveType::Flat)
    } else {
        Err(ProgramError::InvalidAccountData)
    }
}

/// Sensible default of CurveType to ConstantProduct, the most popular and
/// well-known curve type.
impl Default for CurveType {
    fn default() -> (r: Self)
        ensures
            r == CurveType::ConstantProduct,
    {
        CurveType::ConstantProduct
    }
}

impl TryFrom<u8> for CurveType {
    type Error = ProgramError;

    fn try_from(curve_type: u8) -> (r: Result<Self, Self::Error>) {
        match curve_type {
            0 => Ok(CurveType::ConstantProduct),
            1 => Ok(CurveType::Flat),
            _ => Err(ProgramError::InvalidAccountData),
        }
    }
}

impl vstd::std_specs::convert::TryFromSpecImpl<u8> for CurveType {
    open spec fn obeys_try_from_spec() -> bool {
        true
    }

    open spec fn try_from_spec(curve_type: u8) -> Result<Self, ProgramError> {
        curve_type_from_byte(curve_type)
    }
}

impl CurveType {
    /// The byte that stands for the curve type.
    pub fn to_byte(&self) -> (b: u8)
        ensures
            b == curve_type_byte(*self),
    {
        match self {
            CurveType::ConstantProduct => 0,
            CurveType::Flat => 1,
        }
    }

    /// The curve type a byte stands for.
    pub fn from_byte(curve_type: u8) -> (r: Result<Self, ProgramError>)
        ensures
            r == curve_type_from_byte(curve_type),
    {
        match curve_type {
            0 => Ok(CurveType::ConstantProduct),
            1 => Ok(CurveType::Flat),
            _ => Err(ProgramError::InvalidAccountData),
        }
    }
}

/// Eight fee parameters laid out little-endian one after the other, in
/// 64 bytes.
pub open spec fn fee_fields_bytes(
    trade_fee_numerator: u64,
    trade_fee_denominator: u64,
    owner_trade_fee_numerator: u64,
    owner_trade_fee_denominator: u64,
    owner_withdraw_fee_numerator: u64,
    owner_withdraw_fee_denominator: u64,
    host_fee_numerator: u64,
    host_fee_denominator: u64,
) -> Seq<u8> {
    le_u64(trade_fee_numerator) + le_u64(trade_fee_denominator) + le_u64(owner_trade_fee_numerator)
        + le_u64(owner_trade_fee_denominator) + le_u64(owner_withdraw_fee_numerator) + le_u64(
        owner_withdraw_fee_denominator,
    ) + le_u64(host_fee_numerator) + le_u64(host_fee_denominator)
}

/// Writes eight fee parameters into the first 64 bytes of `output`.
pub(crate) fn pack_fee_fields(
    output: &mut [u8],
    trade_fee_numerator: u64,
    trade_fee_denominator: u64,
    owner_trade_fee_numerator: u64,
    owner_trade_fee_denominator: u64,
    owner_withdraw_fee_numerator: u64,
    owner_withdraw_fee_denominator: u64,
    host_fee_numerator: u64,
    host_fee_denominator: u64,
)
    requires
        old(output)@.len() >= 64,
    ensures
        final(output)@ == overwrite(
            old(output)@,
            0,
            fee_fields_bytes(
                trade_fee_numerator,
                trade_fee_denominator,
                owner_trade_fee_numerator,
                owner_trade_fee_denominator,
                owner_withdraw_fee_numerator,
                owner_withdraw_fee_denominator,
                host_fee_numerator,
                host_fee_denominator,
            ),
        ),
        final(output)@.len() == old(output)@.len(),
{
    let mut bytes: Vec<u8> = Vec::new();
    append_u64(&mut bytes, trade_fee_numerator);
    append_u64(&mut bytes, trade_fee_denominator);
    append_u64(&mut bytes, owner_trade_fee_numerator);
    append_u64(&mut bytes, owner_trade_fee_denominator);
    append_u64(&mut bytes, owner_withdraw_fee_numerator);
    append_u64(&mut bytes, owner_withdraw_fee_denominator);
    append_u64(&mut bytes, host_fee_numerator);
    append_u64(&mut bytes, host_fee_denominator);
    proof {
        lemma_le_u64_roundtrip(trade_fee_numerator);
        lemma_le_u64_roundtrip(trade_fee_denominator);
        lemma_le_u64_roundtrip(owner_trade_fee_numerator);
        lemma_le_u64_roundtrip(owner_trade_fee_denominator);
        lemma_le_u64_roundtrip(owner_withdraw_fee_numerator);
        lemma_le_u64_roundtrip(owner_withdraw_fee_denominator);
        lemma_le_u64_roundtrip(host_fee_numerator);
        lemma_le_u64_roundtrip(host_fee_denominator);
        assert(bytes@ =~= fee_fields_bytes(
            trade_fee_numerator,
            trade_fee_denominator,
            owner_trade_fee_numerator,
            owner_trade_fee_denominator,
            owner_withdraw_fee_numerator,
            owner_withdraw_fee_denominator,
            host_fee_numerator,
            host_fee_denominator,
        ));
    }
    write_bytes(output, 0, bytes.as_slice());
}

/// Reading the eight fee parameters back from where they were written gives
/// each of them.
pub proof fn lemma_fee_fields_roundtrip(
    dst: Seq<u8>,
    f0: u64,
    f1: u64,
    f2: u64,
    f3: u64,
    f4: u64,
    f5: u64,
    f6: u64,
    f7: u64,
)
    requires
        dst.len() >= 64,
    ensures
        ({
            let w = overwrite(dst, 0, fee_fields_bytes(f0, f1, f2, f3, f4, f5, f6, f7));
            &&& w.len() == dst.len()
            &&& read_le_u64(w, 0) == f0
            &&& read_le_u64(w, 8) == f1
            &&& read_le_u64(w, 16) == f2
            &&& read_le_u64(w, 24) == f3
            &&& read_le_u64(w, 32) == f4
            &&& read_le_u64(w, 40) == f5
            &&& read_le_u64(w, 48) == f6
            &&& read_le_u64(w, 56) == f7
        }),
{
    lemma_le_u64_roundtrip(f0);
    lemma_le_u64_roundtrip(f1);
    lemma_le_u64_roundtrip(f2);
    lemma_le_u64_roundtrip(f3);
    lemma_le_u64_roundtrip(f4);
    lemma_le_u64_roundtrip(f5);
    lemma_le_u64_roundtrip(f6);
    lemma_le_u64_roundtrip(f7);
    let w = overwrite(dst, 0, fee_fields_bytes(f0, f1, f2, f3, f4, f5, f6, f7));
    assert(w.subrange(0, 8) =~= le_u64(f0));
    assert(w.subrange(8, 16) =~= le_u64(f1));
    assert(w.subrange(16, 24) =~= le_u64(f2));
    assert(w.subrange(24, 32) =~= le_u64(f3));
    assert(w.subrange(32, 40) =~= le_u64(f4));
    assert(w.subrange(40, 48) =~= le_u64(f5));
    assert(w.subrange(48, 56) =~= le_u64(f6));
    assert(w.subrange(56, 64) =~= le_u64(f7));
}

/// Trait for packing of trait objects, required because structs that implement
/// `Pack` cannot be used as trait objects (as `dyn Pack`).
pub trait DynPack {
    /// The number of bytes packing writes.
    spec fn spec_dyn_len(&self) -> nat;

    /// What packing leaves in `dst`.
    spec fn spec_dyn_pack_into(&self, dst: Seq<u8>) -> Seq<u8>;

    /// Only required function is to pack given a trait object
    fn pack_into_slice(&self, dst: &mut [u8])
        requires
            old(dst)@.len() >= self.spec_dyn_len(),
        ensures
            final(dst)@ == self.spec_dyn_pack_into(old(dst)@),
            final(dst)@.len() == old(dst)@.len(),
    ;
}

/// Encodes all results of swapping from a source token to a destination token
#[derive(Clone, Copy, Debug, PartialEq, Eq, Structural)]
pub struct SwapResult {
    /// New amount of source token
    pub new_source_amount: u128,
    /// New amount of destination token
    pub new_destination_amount: u128,
    /// Amount of destination token swapped
    pub amount_swapped: u128,
    /// Amount of source tokens going to pool holders
    pub trade_fee: u128,
    /// Amount of source tokens going to owner
    pub owner_fee: u128,
}

/// The pool tokens worth an owner fee: what is left of the fee once the
/// trading fee on it is taken, as a share of the trading token amount, of
/// the pool supply, split over the tokens in the pool.
pub open spec fn spec_owner_fee_to_pool_tokens(
    trade_fee: Option<u128>,
    owner_fee: u128,
    trading_token_amount: u128,
    pool_supply: u128,
    tokens_in_pool: u128,
) -> Option<u128> {
    match trade_fee {
        None => None,
        Some(trade_fee) => if trade_fee > owner_fee {
            None
        } else {
            let remaining = owner_fee - trade_fee;
            if pool_supply * remaining > u128::MAX || trading_token_amount == 0 || tokens_in_pool
                == 0 {
                None
            } else {
                Some(
                    (((pool_supply * remaining) / (trading_token_amount as int)) / (
                    tokens_in_pool as int)) as u128,
                )
            }
        },
    }
}

/// The trading tokens worth some pool tokens: their share of the total,
/// rounded down, and no result when that is zero.
pub open spec fn spec_pool_tokens_to_trading_tokens(
    pool_tokens: u128,
    pool_token_supply: u128,
    total_trading_tokens: u128,
) -> Option<u128> {
    if pool_tokens * total_trading_tokens > u128::MAX || pool_token_supply == 0 {
        None
    } else {
        spec_map_zero_to_none(
            ((pool_tokens * total_trading_tokens) / (pool_token_supply as int)) as u128,
        )
    }
}

/// Trait representing operations required on a swap curve
pub trait CurveCalculator: DynPack {
    /// What `swap` gives.
    spec fn spec_swap(
        &self,
        source_amount: u128,
        swap_source_amount: u128,
        swap_destination_amount: u128,
    ) -> Option<SwapResult>;

    /// What `owner_withdraw_fee` gives.
    spec fn spec_owner_withdraw_fee(&self, pool_tokens: u128) -> Option<u128>;

    /// What `trading_fee` gives.
    spec fn spec_trading_fee(&self, trading_tokens: u128) -> Option<u128>;

    /// What `host_fee` gives.
    spec fn spec_host_fee(&self, owner_fee: u128) -> Option<u128>;

    /// What `new_pool_supply` gives.
    spec fn spec_new_pool_supply(&self) -> u128;

    /// Calculate how much destination token will be provided given an amount
    /// of source token.
    fn swap(&self, source_amount: u128, swap_source_amount: u128, swap_destination_amount: u128) -> (r:
        Option<SwapResult>)
        ensures
            r == self.spec_swap(source_amount, swap_source_amount, swap_destination_amount),
    ;

    /// Calculate the withdraw fee in pool tokens
    fn owner_withdraw_fee(&self, pool_tokens: u128) -> (r: Option<u128>)
        ensures
            r == self.spec_owner_withdraw_fee(pool_tokens),
    ;

    /// Calculate the trading fee in trading tokens
    fn trading_fee(&self, trading_tokens: u128) -> (r: Option<u128>)
        ensures
            r == self.spec_trading_fee(trading_tokens),
    ;

    /// Calculate the pool token equivalent of the owner fee on trade
    /// See the math at: https://balancer.finance/whitepaper/#single-asset-deposit
    /// For the moment, we do an approximation for the square root.  For numbers
    /// just above 1, simply dividing by 2 brings you very close to the correct
    /// value.
    fn owner_fee_to_pool_tokens(
        &self,
        owner_fee: u128,
        trading_token_amount: u128,
        pool_supply: u128,
        tokens_in_pool: u128,
    ) -> (r: Option<u128>)
        ensures
            r == spec_owner_fee_to_pool_tokens(
                self.spec_trading_fee(owner_fee),
                owner_fee,
                trading_token_amount,
                pool_supply,
                tokens_in_pool,
            ),
    {
        // Get the trading fee incurred if the owner fee is swapped for the other side
        let trade_fee = self.trading_fee(owner_fee)?;
        let owner_fee = owner_fee.checked_sub(trade_fee)?;
        pool_supply.checked_mul(owner_fee)?.checked_div(trading_token_amount)?.checked_div(
            tokens_in_pool,
        )
    }

    /// Get the supply for a new pool
    fn new_pool_supply(&self) -> (r: u128)
        ensures
            r == self.spec_new_pool_supply(),
    ;

    /// Get the amount of trading tokens for the given amount of pool tokens,
    /// provided the total trading tokens and supply of pool tokens.
    /// The default implementation is a simple ratio calculation for how many
    /// trading tokens correspond to a certain number of pool tokens
    fn pool_tokens_to_trading_tokens(
        &self,
        pool_tokens: u128,
        pool_token_supply: u128,
        total_trading_tokens: u128,
    ) -> (r: Option<u128>)
        ensures
            r == spec_pool_tokens_to_trading_tokens(
                pool_tokens,
                pool_token_supply,
                total_trading_tokens,
            ),
    {
        let tokens = pool_tokens.checked_mul(total_trading_tokens)?.checked_div(
            pool_token_supply,
        )?;
        map_zero_to_none(tokens)
    }

    /// Calculate the host fee based on the owner fee, only used in production
    /// situations where a program is hosted by multiple frontends
    fn host_fee(&self, owner_fee: u128) -> (r: Option<u128>)
        ensures
            r == self.spec_host_fee(owner_fee),
    ;
}

/// The calculator held by a swap curve, one variant per curve type.
#[derive(Debug)]
pub enum Calculator {
    /// A constant product curve
    ConstantProduct(ConstantProductCurve),
    /// A flat curve
    Flat(FlatCurve),
}

impl DynPack for Calculator {
    open spec fn spec_dyn_len(&self) -> nat {
        64
    }

    open spec fn spec_dyn_pack_into(&self, dst: Seq<u8>) -> Seq<u8> {
        match self {
            Calculator::ConstantProduct(c) => c.spec_dyn_pack_into(dst),
            Calculator::Flat(c) => c.spec_dyn_pack_into(dst),
        }
    }

    fn pack_into_slice(&self, dst: &mut [u8]) {
        match self {
            Calculator::ConstantProduct(c) => DynPack::pack_into_slice(c, dst),
            Calculator::Flat(c) => DynPack::pack_into_slice(c, dst),
        }
    }
}

/// Concrete struct to wrap around the calculator which performs calculation.
#[derive(Debug)]
pub struct SwapCurve {
    /// The type of curve contained in the calculator, helpful for outside
    /// queries
    pub curve_type: CurveType,
    /// The actual calculator, one variant for each type of curve
    pub calculator: Calculator,
}

impl SwapCurve {
    /// Size of encoding of all curve parameters, which include fees and any other
    /// constants used to calculate swaps, deposits, and withdrawals.
    /// This includes 1 byte for the type, and 64 for the calculator to use as
    /// it needs.  Some calculators may be smaller than 64 bytes.
    pub const LEN: usize = 65;

    /// Whether the calculator is of the curve type the curve names.
    pub open spec fn well_formed(&self) -> bool {
        match self.calculator {
            Calculator::ConstantProduct(_) => self.curve_type == CurveType::ConstantProduct,
            Calculator::Flat(_) => self.curve_type == CurveType::Flat,
        }
    }

    /// The packed form of the curve over a zeroed buffer, which is what
    /// equality compares.
    pub open spec fn packed(&self) -> Seq<u8> {
        self.spec_pack_into(Seq::new(65, |i: int| 0u8))
    }
}

/// Default implementation for SwapCurve: a constant product curve without fees.
impl Default for SwapCurve {
    fn default() -> (r: Self)
        ensures
            r.curve_type == CurveType::ConstantProduct,
            r.calculator == Calculator::ConstantProduct(ConstantProductCurve::zero()),
    {
        let curve_type: CurveType = CurveType::default();
        let calculator: ConstantProductCurve = ConstantProductCurve::default();
        Self { curve_type, calculator: Calculator::ConstantProduct(calculator) }
    }
}

/// Simple implementation for PartialEq which assumes that the output of
/// `Pack` is enough to guarantee equality
impl PartialEq for SwapCurve {
    fn eq(&self, other: &Self) -> (r: bool) {
        let mut packed_self: Vec<u8> = vec![0u8; 65];
        proof {
            assert(packed_self@ =~= Seq::new(65, |i: int| 0u8));
        }
        Pack::pack_into_slice(self, packed_self.as_mut_slice());
        let mut packed_other: Vec<u8> = vec![0u8; 65];
        proof {
            assert(packed_other@ =~= Seq::new(65, |i: int| 0u8));
        }
        Pack::pack_into_slice(other, packed_other.as_mut_slice());
        bytes_equal(packed_self.as_slice(), packed_other.as_slice())
    }
}

impl vstd::std_specs::cmp::PartialEqSpecImpl for SwapCurve {
    open spec fn obeys_eq_spec() -> bool {
        true
    }

    open spec fn eq_spec(&self, other: &SwapCurve) -> bool {
        self.packed() == other.packed()
    }
}

/// What unpacking the calculator of a curve of type `t` from `src` gives.
pub open spec fn spec_unpack_calculator(t: CurveType, src: Seq<u8>) -> Calculator {
    let calculator = src.subrange(1, src.len() as int);
    match t {
        CurveType::ConstantProduct => Calculator::ConstantProduct(
            ConstantProductCurve::spec_unpack_fields(calculator),
        ),
        CurveType::Flat => Calculator::Flat(FlatCurve::spec_unpack_fields(calculator)),
    }
}

impl Pack for SwapCurve {
    open spec fn spec_packable(&self) -> bool {
        true
    }

    open spec fn spec_len() -> nat {
        65
    }

    open spec fn spec_pack_into(&self, dst: Seq<u8>) -> Seq<u8> {
        let with_type = dst.update(0, curve_type_byte(self.curve_type));
        overwrite(
            with_type,
            1,
            self.calculator.spec_dyn_pack_into(with_type.subrange(1, 65)),
        )
    }

    open spec fn spec_unpack_from_slice(src: Seq<u8>) -> Result<Self, ProgramError> {
        match curve_type_from_byte(src[0]) {
            Err(e) => Err(e),
            Ok(curve_type) => Ok(
                SwapCurve {
                    curve_type,
                    calculator: spec_unpack_calculator(curve_type, src.subrange(0, 65)),
                },
            ),
        }
    }

    fn get_packed_len() -> (n: usize) {
        65
    }

    /// Pack SwapCurve into a byte buffer
    fn pack_into_slice(&self, output: &mut [u8]) {
        output[0] = self.curve_type.to_byte();
        let region = vstd::slice::slice_subrange(output, 1, 65);
        let mut calculator: Vec<u8> = vstd::slice::slice_to_vec(region);
        self.calculator.pack_into_slice(calculator.as_mut_slice());
        write_bytes(output, 1, calculator.as_slice());
    }

    /// Unpacks a byte buffer into a SwapCurve
    fn unpack_from_slice(input: &[u8]) -> (r: Result<Self, ProgramError>) {
        let curve_type = CurveType::from_byte(input[0])?;
        let calculator = vstd::slice::slice_subrange(input, 1, 65);
        proof {
            assert(input@.subrange(0, 65).subrange(1, 65) =~= calculator@);
        }
        Ok(
            Self {
                curve_type,
                calculator: match curve_type {
                    CurveType::ConstantProduct => {
                        Calculator::ConstantProduct(ConstantProductCurve::unpack_fields(calculator))
                    },
                    CurveType::Flat => Calculator::Flat(FlatCurve::unpack_fields(calculator)),
                },
            },
        )
    }
}

/// Packing a well-formed swap curve and unpacking the bytes gives the curve
/// back.
pub proof fn lemma_swap_curve_pack_roundtrip(curve: SwapCurve, dst: Seq<u8>)
    requires
        curve.well_formed(),
        dst.len() >= 65,
    ensures
        SwapCurve::spec_unpack_from_slice(curve.spec_pack_into(dst)) == Ok::<
            SwapCurve,
            ProgramError,
        >(curve),
        curve.spec_pack_into(dst).len() == dst.len(),
{
    let with_type = dst.update(0, curve_type_byte(curve.curve_type));
    let region = with_type.subrange(1, 65);
    let packed = curve.spec_pack_into(dst);
    let inner = curve.calculator.spec_dyn_pack_into(region);
    match curve.calculator {
        Calculator::ConstantProduct(c) => {
            crate::curve::cp::lemma_constant_product_curve_pack_roundtrip(c, region);
        },
        Calculator::Flat(c) => {
            crate::curve::flat::lemma_flat_curve_pack_roundtrip(c, region);
        },
    }
    assert(packed.subrange(0, 65).subrange(1, 65) =~= inner);
    assert(packed[0] == curve_type_byte(curve.curve_type));
}

} // verus!
