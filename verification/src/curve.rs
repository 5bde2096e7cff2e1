//! Swap calculations and curve implementations

pub mod base;
pub mod calculator;
pub mod constant_price;
pub mod constant_product;
pub mod cp;
pub mod fees;
pub mod flat;
pub mod math;
pub mod offset;
pub mod pmm;
pub mod serum_market;
pub mod shared;
pub mod stable;

use vstd::prelude::*;

use crate::error::ProgramError;
use crate::packing::{
    append_u64, bytes_equal, le_u64, lemma_read_concat_u64, overwrite, read_le_u64, read_u64,
    write_bytes, IsInitialized, Pack,
};

verus! {

/// Initial amount of pool tokens for swap contract, hard-coded to something
/// "sensible" given a maximum of u64.
/// Note that on Ethereum, Uniswap uses the geometric mean of all provided
/// input amounts, and Balancer uses 100 * 10 ^ 18.
pub const INITIAL_SWAP_POOL_AMOUNT: u64 = 1_000_000_000;

/// Curve types supported by the token-swap program.
#[derive(Clone, Copy, Debug, PartialEq, Eq, Structural)]
pub enum CurveType {
    /// Uniswap-style constant product curve, invariant = token_a_amount * token_b_amount
    ConstantProduct,
    /// Flat line, always providing 1:1 from one token to another
    Flat,
}

/// The byte that stands for a curve type.
pub open spec fn curve_type_byte(t: CurveType) -> u8 {
    match t {
        CurveType::ConstantProduct => 0,
        CurveType::Flat => 1,
    }
}

/// The curve type a byte stands for.
pub open spec fn curve_type_from_byte(b: u8) -> Result<CurveType, ProgramError> {
    if b == 0 {
        Ok(CurveType::ConstantProduct)
    } else if b == 1 {
        Ok(CurveType::Flat)
    } else {
        Err(ProgramError::InvalidAccountData)
    }
}

/// Sensible default of CurveType to ConstantProduct, the most popular and
/// well-known curve type.
impl Default for CurveType {
    fn default() -> (r: Self)
        ensures
            r == CurveType::ConstantProduct,
    {
        CurveType::ConstantProduct
    }
}

impl TryFrom<u8> for CurveType {
    type Error = ProgramError;

    fn try_from(curve_type: u8) -> (r: Result<Self, Self::Error>) {
        match curve_type {
            0 => Ok(CurveType::ConstantProduct),
            1 => Ok(CurveType::Flat),
            _ => Err(ProgramError::InvalidAccountData),
        }
    }
}

impl vstd::std_specs::convert::TryFromSpecImpl<u8> for CurveType {
    open spec fn obeys_try_from_spec() -> bool {
        true
    }

    open spec fn try_from_spec(curve_type: u8) -> Result<Self, ProgramError> {
        curve_type_from_byte(curve_type)
    }
}

impl CurveType {
    /// The byte that stands for the curve type.
    pub fn to_byte(&self) -> (b: u8)
        ensures
            b == curve_type_byte(*self),
    {
        match self {
            CurveType::ConstantProduct => 0,
            CurveType::Flat => 1,
        }
    }

    /// The curve type a byte stands for.
    pub fn from_byte(curve_type: u8) -> (r: Result<Self, ProgramError>)
        ensures
            r == curve_type_from_byte(curve_type),
    {
        match curve_type {
            0 => Ok(CurveType::ConstantProduct),
            1 => Ok(CurveType::Flat),
            _ => Err(ProgramError::InvalidAccountData),
        }
    }
}

/// Trait for packing of trait objects, required because structs that implement
/// `Pack` cannot be used as trait objects (as `dyn Pack`).
pub trait DynPack {
    /// The number of bytes packing writes.
    spec fn spec_dyn_len(&self) -> nat;

    /// What packing leaves in `dst`.
    spec fn spec_dyn_pack_into(&self, dst: Seq<u8>) -> Seq<u8>;

    /// Only required function is to pack given a trait object
    fn pack_into_slice(&self, dst: &mut [u8])
        requires
            old(dst)@.len() >= self.spec_dyn_len(),
        ensures
            final(dst)@ == self.spec_dyn_pack_into(old(dst)@),
            final(dst)@.len() == old(dst)@.len(),
    ;
}

/// Encodes all results of swapping from a source token to a destination token
#[derive(Debug)]
pub struct SwapResult {
    /// New amount of source token
    pub new_source_amount: u64,
    /// New amount of destination token
    pub new_destination_amount: u64,
    /// Amount of destination token swapped
    pub amount_swapped: u64,
}

/// Trait representing operations required on a swap curve
pub trait CurveCalculator: DynPack {
    /// What `swap` gives.
    spec fn spec_swap(
        &self,
        source_amount: u64,
        swap_source_amount: u64,
        swap_destination_amount: u64,
    ) -> Option<SwapResult>;

    /// What `new_pool_supply` gives.
    spec fn spec_new_pool_supply(&self) -> u64;

    /// What `liquidity_tokens` gives.
    spec fn spec_liquidity_tokens(
        &self,
        pool_tokens: u64,
        pool_token_supply: u64,
        total_liquidity_tokens: u64,
    ) -> Option<u64>;

    /// Calculate how much destination token will be provided given an amount
    /// of source token.
    fn swap(&self, source_amount: u64, swap_source_amount: u64, swap_destination_amount: u64) -> (r:
        Option<SwapResult>)
        ensures
            r == self.spec_swap(source_amount, swap_source_amount, swap_destination_amount),
    ;

    /// Get the supply of a new pool (can be a default amount or calculated
    /// based on parameters)
    fn new_pool_supply(&self) -> (r: u64)
        ensures
            r == self.spec_new_pool_supply(),
    ;

    /// Get the amount of liquidity tokens for pool tokens given the total amount
    /// of liquidity tokens in the pool
    fn liquidity_tokens(
        &self,
        pool_tokens: u64,
        pool_token_supply: u64,
        total_liquidity_tokens: u64,
    ) -> (r: Option<u64>)
        ensures
            r == self.spec_liquidity_tokens(pool_tokens, pool_token_supply, total_liquidity_tokens),
    ;
}

/// `x`, unless it is zero.
pub open spec fn spec_map_zero_to_none(x: u64) -> Option<u64> {
    if x == 0 {
        None
    } else {
        Some(x)
    }
}

/// Helper function for mapping to SwapError::CalculationFailure
fn map_zero_to_none(x: u64) -> (r: Option<u64>)
    ensures
        r == spec_map_zero_to_none(x),
{
    if x == 0 {
        None
    } else {
        Some(x)
    }
}

/// The fee on `source_amount`: `source_amount * numerator / denominator`,
/// at least one token.
pub open spec fn spec_fee(source_amount: u64, fee_numerator: u64, fee_denominator: u64) -> Option<
    u64,
> {
    if source_amount * fee_numerator > u64::MAX || fee_denominator == 0 {
        None
    } else {
        let fee = (source_amount * fee_numerator) / (fee_denominator as int);
        if fee == 0 {
            Some(1u64)
        } else {
            Some(fee as u64)
        }
    }
}

/// The pool's share `pool_tokens / pool_token_supply` of
/// `total_liquidity_tokens`, rounded down; nothing when it is zero.
pub open spec fn spec_ratio_tokens(
    pool_tokens: u64,
    pool_token_supply: u64,
    total_liquidity_tokens: u64,
) -> Option<u64> {
    if pool_tokens * total_liquidity_tokens > u64::MAX || pool_token_supply == 0 {
        None
    } else {
        spec_map_zero_to_none(
            ((pool_tokens * total_liquidity_tokens) / (pool_token_supply as int)) as u64,
        )
    }
}

fn ratio_tokens(pool_tokens: u64, pool_token_supply: u64, total_liquidity_tokens: u64) -> (r:
    Option<u64>)
    ensures
        r == spec_ratio_tokens(pool_tokens, pool_token_supply, total_liquidity_tokens),
{
    let product = pool_tokens.checked_mul(total_liquidity_tokens)?;
    match product.checked_div(pool_token_supply) {
        Some(x) => map_zero_to_none(x),
        None => None,
    }
}

fn fee_of(source_amount: u64, fee_numerator: u64, fee_denominator: u64) -> (r: Option<u64>)
    ensures
        r == spec_fee(source_amount, fee_numerator, fee_denominator),
{
    // debit the fee to calculate the amount swapped
    let mut fee = source_amount.checked_mul(fee_numerator)?.checked_div(fee_denominator)?;
    if fee == 0 {
        fee = 1;  // minimum fee of one token
    }
    Some(fee)
}

/// Simple constant 1:1 swap curve, example of different swap curve implementations
#[derive(Clone, Copy, Debug, PartialEq, Eq, Structural)]
pub struct FlatCurve {
    /// Fee numerator
    pub fee_numerator: u64,
    /// Fee denominator
    pub fee_denominator: u64,
}

/// The flat curve's swap: the source amount less the fee comes out 1:1.
pub open spec fn spec_flat_swap(
    curve: FlatCurve,
    source_amount: u64,
    swap_source_amount: u64,
    swap_destination_amount: u64,
) -> Option<SwapResult> {
    match spec_fee(source_amount, curve.fee_numerator, curve.fee_denominator) {
        None => None,
        Some(fee) => if fee > source_amount {
            None
        } else if source_amount - fee > swap_destination_amount {
            None
        } else if swap_source_amount + source_amount > u64::MAX {
            None
        } else {
            Some(
                SwapResult {
                    new_source_amount: (swap_source_amount + source_amount) as u64,
                    new_destination_amount: (swap_destination_amount - (source_amount - fee)) as u64,
                    amount_swapped: (source_amount - fee) as u64,
                },
            )
        },
    }
}

impl CurveCalculator for FlatCurve {
    open spec fn spec_swap(
        &self,
        source_amount: u64,
        swap_source_amount: u64,
        swap_destination_amount: u64,
    ) -> Option<SwapResult> {
        spec_flat_swap(*self, source_amount, swap_source_amount, swap_destination_amount)
    }

    open spec fn spec_new_pool_supply(&self) -> u64 {
        INITIAL_SWAP_POOL_AMOUNT
    }

    open spec fn spec_liquidity_tokens(
        &self,
        pool_tokens: u64,
        pool_token_supply: u64,
        total_liquidity_tokens: u64,
    ) -> Option<u64> {
        spec_ratio_tokens(pool_tokens, pool_token_supply, total_liquidity_tokens)
    }

    /// Flat curve swap always returns 1:1 (minus fee)
    fn swap(&self, source_amount: u64, swap_source_amount: u64, swap_destination_amount: u64) -> (r:
        Option<SwapResult>) {
        // debit the fee to calculate the amount swapped
        let fee = fee_of(source_amount, self.fee_numerator, self.fee_denominator)?;
        let amount_swapped = source_amount.checked_sub(fee)?;
        let new_destination_amount = swap_destination_amount.checked_sub(amount_swapped)?;

        // actually add the whole amount coming in
        let new_source_amount = swap_source_amount.checked_add(source_amount)?;
        Some(SwapResult { new_source_amount, new_destination_amount, amount_swapped })
    }

    /// Balancer-style fixed initial supply
    fn new_pool_supply(&self) -> (r: u64) {
        INITIAL_SWAP_POOL_AMOUNT
    }

    /// Simple ratio calculation for how many liquidity tokens correspond to
    /// a certain number of pool tokens
    fn liquidity_tokens(
        &self,
        pool_tokens: u64,
        pool_token_supply: u64,
        total_liquidity_tokens: u64,
    ) -> (r: Option<u64>) {
        ratio_tokens(pool_tokens, pool_token_supply, total_liquidity_tokens)
    }
}

/// The two fee fields, little-endian.
pub open spec fn fee_pair_bytes(fee_numerator: u64, fee_denominator: u64) -> Seq<u8> {
    le_u64(fee_numerator) + le_u64(fee_denominator)
}

fn pack_fee_pair(fee_numerator: u64, fee_denominator: u64, output: &mut [u8])
    requires
        old(output)@.len() >= 16,
    ensures
        final(output)@ == overwrite(old(output)@, 0, fee_pair_bytes(fee_numerator, fee_denominator)),
        final(output)@.len() == old(output)@.len(),
{
    let mut buf: Vec<u8> = Vec::new();
    append_u64(&mut buf, fee_numerator);
    append_u64(&mut buf, fee_denominator);
    proof {
        crate::packing::lemma_le_u64_roundtrip(fee_numerator);
        crate::packing::lemma_le_u64_roundtrip(fee_denominator);
        assert(buf@ =~= fee_pair_bytes(fee_numerator, fee_denominator));
    }
    write_bytes(output, 0, buf.as_slice());
}

proof fn lemma_fee_pair_roundtrip(fee_numerator: u64, fee_denominator: u64, dst: Seq<u8>)
    requires
        dst.len() >= 16,
    ensures
        read_le_u64(overwrite(dst, 0, fee_pair_bytes(fee_numerator, fee_denominator)), 0)
            == fee_numerator,
        read_le_u64(overwrite(dst, 0, fee_pair_bytes(fee_numerator, fee_denominator)), 8)
            == fee_denominator,
        overwrite(dst, 0, fee_pair_bytes(fee_numerator, fee_denominator)).len() == dst.len(),
{
    crate::packing::lemma_le_u64_roundtrip(fee_numerator);
    crate::packing::lemma_le_u64_roundtrip(fee_denominator);
    let w = overwrite(dst, 0, fee_pair_bytes(fee_numerator, fee_denominator));
    let rest = dst.skip(16);
    assert(w =~= Seq::<u8>::empty() + le_u64(fee_numerator) + (le_u64(fee_denominator) + rest));
    lemma_read_concat_u64(Seq::<u8>::empty(), fee_numerator, le_u64(fee_denominator) + rest);
    assert(w =~= le_u64(fee_numerator) + le_u64(fee_denominator) + rest);
    lemma_read_concat_u64(le_u64(fee_numerator), fee_denominator, rest);
}

impl DynPack for FlatCurve {
    open spec fn spec_dyn_len(&self) -> nat {
        16
    }

    open spec fn spec_dyn_pack_into(&self, dst: Seq<u8>) -> Seq<u8> {
        overwrite(dst, 0, fee_pair_bytes(self.fee_numerator, self.fee_denominator))
    }

    fn pack_into_slice(&self, output: &mut [u8]) {
        pack_fee_pair(self.fee_numerator, self.fee_denominator, output);
    }
}

impl FlatCurve {
    /// Size of the packed curve
    pub const LEN: usize = 16;
}

/// IsInitialized is required to use `Pack::pack` and `Pack::unpack`
impl IsInitialized for FlatCurve {
    open spec fn spec_is_initialized(&self) -> bool {
        true
    }

    fn is_initialized(&self) -> (b: bool) {
        true
    }
}

impl Pack for FlatCurve {
    open spec fn spec_packable(&self) -> bool {
        true
    }

    open spec fn spec_len() -> nat {
        16
    }

    open spec fn spec_pack_into(&self, dst: Seq<u8>) -> Seq<u8> {
        overwrite(dst, 0, fee_pair_bytes(self.fee_numerator, self.fee_denominator))
    }

    open spec fn spec_unpack_from_slice(src: Seq<u8>) -> Result<Self, ProgramError> {
        Ok(FlatCurve { fee_numerator: read_le_u64(src, 0), fee_denominator: read_le_u64(src, 8) })
    }

    fn get_packed_len() -> (n: usize) {
        16
    }

    fn pack_into_slice(&self, output: &mut [u8]) {
        pack_fee_pair(self.fee_numerator, self.fee_denominator, output);
    }

    /// Unpacks a byte buffer into a SwapCurve
    fn unpack_from_slice(input: &[u8]) -> (r: Result<FlatCurve, ProgramError>) {
        Ok(Self { fee_numerator: read_u64(input, 0), fee_denominator: read_u64(input, 8) })
    }
}

/// Default fields of zero
impl Default for FlatCurve {
    fn default() -> (r: Self)
        ensures
            r.fee_numerator == 0 && r.fee_denominator == 0,
    {
        FlatCurve { fee_numerator: 0, fee_denominator: 0 }
    }
}

/// Packing a flat curve and unpacking the bytes gives the curve back.
pub proof fn lemma_flat_curve_pack_roundtrip(curve: FlatCurve, dst: Seq<u8>)
    requires
        dst.len() >= 16,
    ensures
        FlatCurve::spec_unpack_from_slice(curve.spec_pack_into(dst)) == Ok::<
            FlatCurve,
            ProgramError,
        >(curve),
{
    lemma_fee_pair_roundtrip(curve.fee_numerator, curve.fee_denominator, dst);
}

/// The Uniswap invariant calculator.
#[derive(Clone, Copy, Debug, PartialEq, Eq, Structural)]
pub struct ConstantProductCurve {
    /// Fee numerator
    pub fee_numerator: u64,
    /// Fee denominator
    pub fee_denominator: u64,
}

/// The constant product swap: the source amount less the fee joins the
/// source side and the destination side drops so that the product does not
/// grow, rounded in favour of the pool; a swap of nothing is refused.
pub open spec fn spec_constant_product_swap(
    curve: ConstantProductCurve,
    source_amount: u64,
    swap_source_amount: u64,
    swap_destination_amount: u64,
) -> Option<SwapResult> {
    let pool_product = swap_source_amount * swap_destination_amount;
    if pool_product > u64::MAX {
        None
    } else {
        match spec_fee(source_amount, curve.fee_numerator, curve.fee_denominator) {
            None => None,
            Some(fee) => if swap_source_amount + source_amount > u64::MAX {
                None
            } else if swap_source_amount + source_amount < fee {
                None
            } else if swap_source_amount + source_amount - fee == 0 {
                None
            } else {
                let new_destination_amount = pool_product / (swap_source_amount + source_amount
                    - fee);
                if new_destination_amount >= swap_destination_amount {
                    None
                } else {
                    Some(
                        SwapResult {
                            new_source_amount: (swap_source_amount + source_amount) as u64,
                            new_destination_amount: new_destination_amount as u64,
                            amount_swapped: (swap_destination_amount
                                - new_destination_amount) as u64,
                        },
                    )
                }
            },
        }
    }
}

impl CurveCalculator for ConstantProductCurve {
    open spec fn spec_swap(
        &self,
        source_amount: u64,
        swap_source_amount: u64,
        swap_destination_amount: u64,
    ) -> Option<SwapResult> {
        spec_constant_product_swap(
            *self,
            source_amount,
            swap_source_amount,
            swap_destination_amount,
        )
    }

    open spec fn spec_new_pool_supply(&self) -> u64 {
        INITIAL_SWAP_POOL_AMOUNT
    }

    open spec fn spec_liquidity_tokens(
        &self,
        pool_tokens: u64,
        pool_token_supply: u64,
        total_liquidity_tokens: u64,
    ) -> Option<u64> {
        spec_ratio_tokens(pool_tokens, pool_token_supply, total_liquidity_tokens)
    }

    /// Constant product swap ensures x * y = constant
    fn swap(&self, source_amount: u64, swap_source_amount: u64, swap_destination_amount: u64) -> (r:
        Option<SwapResult>) {
        let pool_product = swap_source_amount.checked_mul(swap_destination_amount)?;

        // debit the fee to calculate the amount swapped
        let fee = fee_of(source_amount, self.fee_numerator, self.fee_denominator)?;
        let new_source_amount_less_fee = swap_source_amount.checked_add(
            source_amount,
        )?.checked_sub(fee)?;
        let new_destination_amount = pool_product.checked_div(new_source_amount_less_fee)?;
        let amount_swapped = map_zero_to_none(
            swap_destination_amount.checked_sub(new_destination_amount)?,
        )?;

        // actually add the whole amount coming in
        let new_source_amount = swap_source_amount.checked_add(source_amount)?;
        Some(SwapResult { new_source_amount, new_destination_amount, amount_swapped })
    }

    /// Balancer-style supply starts at a constant.  This could be modified to
    /// follow the geometric mean, as done in Uniswap v2.
    fn new_pool_supply(&self) -> (r: u64) {
        INITIAL_SWAP_POOL_AMOUNT
    }

    /// Simple ratio calculation to get the amount of liquidity tokens given
    /// pool information
    fn liquidity_tokens(
        &self,
        pool_tokens: u64,
        pool_token_supply: u64,
        total_liquidity_tokens: u64,
    ) -> (r: Option<u64>) {
        ratio_tokens(pool_tokens, pool_token_supply, total_liquidity_tokens)
    }
}

impl DynPack for ConstantProductCurve {
    open spec fn spec_dyn_len(&self) -> nat {
        16
    }

    open spec fn spec_dyn_pack_into(&self, dst: Seq<u8>) -> Seq<u8> {
        overwrite(dst, 0, fee_pair_bytes(self.fee_numerator, self.fee_denominator))
    }

    fn pack_into_slice(&self, output: &mut [u8]) {
        pack_fee_pair(self.fee_numerator, self.fee_denominator, output);
    }
}

impl ConstantProductCurve {
    /// Size of the packed curve
    pub const LEN: usize = 16;
}

/// IsInitialized is required to use `Pack::pack` and `Pack::unpack`
impl IsInitialized for ConstantProductCurve {
    open spec fn spec_is_initialized(&self) -> bool {
        true
    }

    fn is_initialized(&self) -> (b: bool) {
        true
    }
}

impl Pack for ConstantProductCurve {
    open spec fn spec_packable(&self) -> bool {
        true
    }

    open spec fn spec_len() -> nat {
        16
    }

    open spec fn spec_pack_into(&self, dst: Seq<u8>) -> Seq<u8> {
        overwrite(dst, 0, fee_pair_bytes(self.fee_numerator, self.fee_denominator))
    }

    open spec fn spec_unpack_from_slice(src: Seq<u8>) -> Result<Self, ProgramError> {
        Ok(
            ConstantProductCurve {
                fee_numerator: read_le_u64(src, 0),
                fee_denominator: read_le_u64(src, 8),
            },
        )
    }

    fn get_packed_len() -> (n: usize) {
        16
    }

    fn pack_into_slice(&self, output: &mut [u8]) {
        pack_fee_pair(self.fee_numerator, self.fee_denominator, output);
    }

    fn unpack_from_slice(input: &[u8]) -> (r: Result<ConstantProductCurve, ProgramError>) {
        Ok(Self { fee_numerator: read_u64(input, 0), fee_denominator: read_u64(input, 8) })
    }
}

/// Default fields of zero
impl Default for ConstantProductCurve {
    fn default() -> (r: Self)
        ensures
            r.fee_numerator == 0 && r.fee_denominator == 0,
    {
        ConstantProductCurve { fee_numerator: 0, fee_denominator: 0 }
    }
}

/// Packing a constant product curve and unpacking the bytes gives the curve
/// back.
pub proof fn lemma_constant_product_curve_pack_roundtrip(curve: ConstantProductCurve, dst: Seq<u8>)
    requires
        dst.len() >= 16,
    ensures
        ConstantProductCurve::spec_unpack_from_slice(curve.spec_pack_into(dst)) == Ok::<
            ConstantProductCurve,
            ProgramError,
        >(curve),
{
    lemma_fee_pair_roundtrip(curve.fee_numerator, curve.fee_denominator, dst);
}

/// The calculator held by a swap curve, one variant per curve type.
#[derive(Debug)]
pub enum Calculator {
    /// A constant product curve
    ConstantProduct(ConstantProductCurve),
    /// A flat curve
    Flat(FlatCurve),
}

impl DynPack for Calculator {
    open spec fn spec_dyn_len(&self) -> nat {
        16
    }

    open spec fn spec_dyn_pack_into(&self, dst: Seq<u8>) -> Seq<u8> {
        match self {
            Calculator::ConstantProduct(c) => c.spec_dyn_pack_into(dst),
            Calculator::Flat(c) => c.spec_dyn_pack_into(dst),
        }
    }

    fn pack_into_slice(&self, dst: &mut [u8]) {
        match self {
            Calculator::ConstantProduct(c) => DynPack::pack_into_slice(c, dst),
            Calculator::Flat(c) => DynPack::pack_into_slice(c, dst),
        }
    }
}

/// Concrete struct to wrap around the calculator which performs calculation.
#[derive(Debug)]
pub struct SwapCurve {
    /// The type of curve contained in the calculator, helpful for outside
    /// queries
    pub curve_type: CurveType,
    /// The actual calculator, one variant for each type of curve
    pub calculator: Calculator,
}

impl SwapCurve {
    /// Size of encoding of all curve parameters, which include fees and any other
    /// constants used to calculate swaps, deposits, and withdrawals.
    /// This includes 1 byte for the type, and 64 for the calculator to use as
    /// it needs.  Some calculators may be smaller than 64 bytes.
    pub const LEN: usize = 65;

    /// Whether the calculator is of the curve type the curve names.
    pub open spec fn well_formed(&self) -> bool {
        match self.calculator {
            Calculator::ConstantProduct(_) => self.curve_type == CurveType::ConstantProduct,
            Calculator::Flat(_) => self.curve_type == CurveType::Flat,
        }
    }

    /// The packed form of the curve over a zeroed buffer, which is what
    /// equality compares.
    pub open spec fn packed(&self) -> Seq<u8> {
        self.spec_pack_into(Seq::new(65, |i: int| 0u8))
    }
}

/// Default implementation for SwapCurve: a constant product curve without fees.
impl Default for SwapCurve {
    fn default() -> (r: Self)
        ensures
            r.curve_type == CurveType::ConstantProduct,
            r.calculator == Calculator::ConstantProduct(
                ConstantProductCurve { fee_numerator: 0, fee_denominator: 0 },
            ),
    {
        let curve_type: CurveType = CurveType::default();
        let calculator: ConstantProductCurve = ConstantProductCurve::default();
        Self { curve_type, calculator: Calculator::ConstantProduct(calculator) }
    }
}

/// Simple implementation for PartialEq which assumes that the output of
/// `Pack` is enough to guarantee equality
impl PartialEq for SwapCurve {
    fn eq(&self, other: &Self) -> (r: bool) {
        let mut packed_self: Vec<u8> = vec![0u8; 65];
        proof {
            assert(packed_self@ =~= Seq::new(65, |i: int| 0u8));
        }
        Pack::pack_into_slice(self, packed_self.as_mut_slice());
        let mut packed_other: Vec<u8> = vec![0u8; 65];
        proof {
            assert(packed_other@ =~= Seq::new(65, |i: int| 0u8));
        }
        Pack::pack_into_slice(other, packed_other.as_mut_slice());
        bytes_equal(packed_self.as_slice(), packed_other.as_slice())
    }
}

impl vstd::std_specs::cmp::PartialEqSpecImpl for SwapCurve {
    open spec fn obeys_eq_spec() -> bool {
        true
    }

    open spec fn eq_spec(&self, other: &SwapCurve) -> bool {
        self.packed() == other.packed()
    }
}

/// What unpacking the calculator of a curve of type `t` from `src` gives.
pub open spec fn spec_unpack_calculator(t: CurveType, src: Seq<u8>) -> Calculator {
    match t {
        CurveType::ConstantProduct => Calculator::ConstantProduct(
            ConstantProductCurve {
                fee_numerator: read_le_u64(src, 1),
                fee_denominator: read_le_u64(src, 9),
            },
        ),
        CurveType::Flat => Calculator::Flat(
            FlatCurve { fee_numerator: read_le_u64(src, 1), fee_denominator: read_le_u64(src, 9) },
        ),
    }
}

proof fn lemma_shifted_read(src: Seq<u8>, start: int, offset: int)
    requires
        0 <= start,
        0 <= offset,
        start + offset + 8 <= src.len(),
    ensures
        read_le_u64(src.subrange(start, src.len() as int), offset) == read_le_u64(
            src,
            start + offset,
        ),
{
    assert(src.subrange(start, src.len() as int).subrange(offset, offset + 8) =~= src.subrange(
        start + offset,
        start + offset + 8,
    ));
}

impl Pack for SwapCurve {
    open spec fn spec_packable(&self) -> bool {
        true
    }

    open spec fn spec_len() -> nat {
        65
    }

    open spec fn spec_pack_into(&self, dst: Seq<u8>) -> Seq<u8> {
        let with_type = dst.update(0, curve_type_byte(self.curve_type));
        overwrite(
            with_type,
            1,
            self.calculator.spec_dyn_pack_into(with_type.subrange(1, 65)),
        )
    }

    open spec fn spec_unpack_from_slice(src: Seq<u8>) -> Result<Self, ProgramError> {
        match curve_type_from_byte(src[0]) {
            Err(e) => Err(e),
            Ok(curve_type) => Ok(
                SwapCurve { curve_type, calculator: spec_unpack_calculator(curve_type, src) },
            ),
        }
    }

    fn get_packed_len() -> (n: usize) {
        65
    }

    /// Pack SwapCurve into a byte buffer
    fn pack_into_slice(&self, output: &mut [u8]) {
        output[0] = self.curve_type.to_byte();
        let region = vstd::slice::slice_subrange(output, 1, 65);
        let mut calculator: Vec<u8> = vstd::slice::slice_to_vec(region);
        self.calculator.pack_into_slice(calculator.as_mut_slice());
        write_bytes(output, 1, calculator.as_slice());
    }

    /// Unpacks a byte buffer into a SwapCurve
    fn unpack_from_slice(input: &[u8]) -> (r: Result<Self, ProgramError>) {
        let curve_type = CurveType::from_byte(input[0])?;
        let calculator = vstd::slice::slice_subrange(input, 1, 65);
        proof {
            lemma_shifted_read(input@.subrange(0, 65), 1, 0);
            lemma_shifted_read(input@.subrange(0, 65), 1, 8);
            assert(input@.subrange(0, 65).subrange(1, 65) =~= calculator@);
            assert(input@.subrange(0, 65).subrange(1, 9) =~= input@.subrange(1, 9));
            assert(input@.subrange(0, 65).subrange(9, 17) =~= input@.subrange(9, 17));
        }
        Ok(
            Self {
                curve_type,
                calculator: match curve_type {
                    CurveType::ConstantProduct => {
                        Calculator::ConstantProduct(
                            ConstantProductCurve::unpack_from_slice(calculator)?,
                        )
                    },
                    CurveType::Flat => Calculator::Flat(FlatCurve::unpack_from_slice(calculator)?),
                },
            },
        )
    }
}

/// Packing a well-formed swap curve and unpacking the bytes gives the curve
/// back.
pub proof fn lemma_swap_curve_pack_roundtrip(curve: SwapCurve, dst: Seq<u8>)
    requires
        curve.well_formed(),
        dst.len() >= 65,
    ensures
        SwapCurve::spec_unpack_from_slice(curve.spec_pack_into(dst)) == Ok::<
            SwapCurve,
            ProgramError,
        >(curve),
{
    let with_type = dst.update(0, curve_type_byte(curve.curve_type));
    let region = with_type.subrange(1, 65);
    let packed = curve.spec_pack_into(dst);
    let (n, d) = match curve.calculator {
        Calculator::ConstantProduct(c) => (c.fee_numerator, c.fee_denominator),
        Calculator::Flat(c) => (c.fee_numerator, c.fee_denominator),
    };
    lemma_fee_pair_roundtrip(n, d, region);
    let inner = overwrite(region, 0, fee_pair_bytes(n, d));
    assert(curve.calculator.spec_dyn_pack_into(region) == inner);
    assert(packed[0] == curve_type_byte(curve.curve_type));
    lemma_shifted_read(packed, 1, 0);
    lemma_shifted_read(packed, 1, 8);
    assert(packed.subrange(1, packed.len() as int).subrange(0, 8) =~= inner.subrange(0, 8));
    assert(packed.subrange(1, packed.len() as int).subrange(8, 16) =~= inner.subrange(8, 16));
}

/// The fee that the old-style curves take from `source_amount`.
pub open spec fn flat_fee(curve: FlatCurve, source_amount: u64) -> u64 {
    spec_fee(source_amount, curve.fee_numerator, curve.fee_denominator)->0
}

/// A flat swap moves tokens 1:1 less the fee: the fee and the amount swapped
/// make up the source amount, the source side takes in the whole source
/// amount, and the destination side gives up exactly the amount swapped.
pub proof fn lemma_flat_swap_conserves(
    curve: FlatCurve,
    source_amount: u64,
    swap_source_amount: u64,
    swap_destination_amount: u64,
)
    ensures
        spec_flat_swap(curve, source_amount, swap_source_amount, swap_destination_amount) matches Some(
            r,
        ) ==> {
            &&& r.amount_swapped + flat_fee(curve, source_amount) == source_amount
            &&& r.new_source_amount == swap_source_amount + source_amount
            &&& r.new_destination_amount + r.amount_swapped == swap_destination_amount
            &&& flat_fee(curve, source_amount) >= 1
        },
{
}

/// A constant product swap keeps the product of the pool's amounts, with the
/// fee left out of the source side: the new product is at most the old one,
/// and less than one destination token short of it; some token always comes
/// out.
pub proof fn lemma_constant_product_swap_keeps_product(
    curve: ConstantProductCurve,
    source_amount: u64,
    swap_source_amount: u64,
    swap_destination_amount: u64,
)
    ensures
        spec_constant_product_swap(
            curve,
            source_amount,
            swap_source_amount,
            swap_destination_amount,
        ) matches Some(r) ==> {
            let fee = spec_fee(source_amount, curve.fee_numerator, curve.fee_denominator)->0;
            let less_fee = r.new_source_amount - fee;
            &&& r.new_source_amount == swap_source_amount + source_amount
            &&& less_fee * r.new_destination_amount <= swap_source_amount * swap_destination_amount
            &&& swap_source_amount * swap_destination_amount < less_fee * (r.new_destination_amount
                + 1)
            &&& r.amount_swapped > 0
            &&& r.new_destination_amount + r.amount_swapped == swap_destination_amount
        },
{
    match spec_constant_product_swap(
        curve,
        source_amount,
        swap_source_amount,
        swap_destination_amount,
    ) {
        Some(r) => {
            let fee = spec_fee(source_amount, curve.fee_numerator, curve.fee_denominator)->0;
            let less_fee = swap_source_amount + source_amount - fee;
            let product = swap_source_amount * swap_destination_amount;
            assert(less_fee * (product / less_fee) <= product) by (nonlinear_arith)
                requires
                    less_fee > 0,
                    product >= 0,
            ;
            assert(product < less_fee * (product / less_fee + 1)) by (nonlinear_arith)
                requires
                    less_fee > 0,
                    product >= 0,
            ;
        },
        None => {},
    }
}

} // verus!
