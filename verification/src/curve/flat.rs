//! Simple constant 1:1 swap curve

use vstd::prelude::*;

use crate::curve::shared::{
    calculate_fee, fee_fields_bytes, lemma_fee_fields_roundtrip, pack_fee_fields,
    spec_calculate_fee, CurveCalculator, DynPack, SwapResult, INITIAL_SWAP_POOL_AMOUNT,
};
use crate::error::ProgramError;
use crate::packing::{overwrite, read_le_u64, read_u64, IsInitialized, Pack};

verus! {

/// FlatCurve struct implementing CurveCalculator
#[derive(Clone, Copy, Debug, PartialEq, Eq, Structural)]
pub struct FlatCurve {
    /// Fee numerator
    pub trade_fee_numerator: u64,
    /// Fee denominator
    pub trade_fee_denominator: u64,
    /// Owner trade fee numerator
    pub owner_trade_fee_numerator: u64,
    /// Owner trade fee denominator
    pub owner_trade_fee_denominator: u64,
    /// Owner withdraw fee numerator
    pub owner_withdraw_fee_numerator: u64,
    /// Owner withdraw fee denominator
    pub owner_withdraw_fee_denominator: u64,
    /// Host trading fee numerator
    pub host_fee_numerator: u64,
    /// Host trading fee denominator
    pub host_fee_denominator: u64,
}

/// The flat swap: both fees come off the source amount and the rest leaves
/// the destination side one for one, while the whole source amount enters
/// the pool.
pub open spec fn spec_flat_swap(
    curve: FlatCurve,
    source_amount: u128,
    swap_source_amount: u128,
    swap_destination_amount: u128,
) -> Option<SwapResult> {
    match spec_calculate_fee(
        source_amount,
        curve.trade_fee_numerator as u128,
        curve.trade_fee_denominator as u128,
    ) {
        None => None,
        Some(trade_fee) => match spec_calculate_fee(
            source_amount,
            curve.owner_trade_fee_numerator as u128,
            curve.owner_trade_fee_denominator as u128,
        ) {
            None => None,
            Some(owner_fee) => {
                let amount_swapped = source_amount - trade_fee - owner_fee;
                let new_destination_amount = swap_destination_amount - amount_swapped;
                let new_source_amount = swap_source_amount + source_amount;
                if amount_swapped < 0 || new_destination_amount < 0 || new_source_amount
                    > u128::MAX {
                    None
                } else {
                    Some(
                        SwapResult {
                            new_source_amount: new_source_amount as u128,
                            new_destination_amount: new_destination_amount as u128,
                            amount_swapped: amount_swapped as u128,
                            trade_fee,
                            owner_fee,
                        },
                    )
                }
            },
        },
    }
}

impl CurveCalculator for FlatCurve {
    open spec fn spec_swap(
        &self,
        source_amount: u128,
        swap_source_amount: u128,
        swap_destination_amount: u128,
    ) -> Option<SwapResult> {
        spec_flat_swap(*self, source_amount, swap_source_amount, swap_destination_amount)
    }

    open spec fn spec_owner_withdraw_fee(&self, pool_tokens: u128) -> Option<u128> {
        spec_calculate_fee(
            pool_tokens,
            self.owner_withdraw_fee_numerator as u128,
            self.owner_withdraw_fee_denominator as u128,
        )
    }

    open spec fn spec_trading_fee(&self, trading_tokens: u128) -> Option<u128> {
        Some(0)
    }

    open spec fn spec_host_fee(&self, owner_fee: u128) -> Option<u128> {
        spec_calculate_fee(
            owner_fee,
            self.host_fee_numerator as u128,
            self.host_fee_denominator as u128,
        )
    }

    open spec fn spec_new_pool_supply(&self) -> u128 {
        INITIAL_SWAP_POOL_AMOUNT
    }

    /// Flat curve swap always returns 1:1 (minus fee)
    fn swap(&self, source_amount: u128, swap_source_amount: u128, swap_destination_amount: u128) -> (r:
        Option<SwapResult>) {
        // debit the fee to calculate the amount swapped
        let trade_fee = calculate_fee(
            source_amount,
            self.trade_fee_numerator as u128,
            self.trade_fee_denominator as u128,
        )?;
        let owner_fee = calculate_fee(
            source_amount,
            self.owner_trade_fee_numerator as u128,
            self.owner_trade_fee_denominator as u128,
        )?;

        let amount_swapped = source_amount.checked_sub(trade_fee)?.checked_sub(owner_fee)?;
        let new_destination_amount = swap_destination_amount.checked_sub(amount_swapped)?;

        // actually add the whole amount coming in
        let new_source_amount = swap_source_amount.checked_add(source_amount)?;
        Some(SwapResult { new_source_amount, new_destination_amount, amount_swapped, trade_fee, owner_fee })
    }

    /// Calculate the withdraw fee in pool tokens
    fn owner_withdraw_fee(&self, pool_tokens: u128) -> (r: Option<u128>) {
        calculate_fee(
            pool_tokens,
            self.owner_withdraw_fee_numerator as u128,
            self.owner_withdraw_fee_denominator as u128,
        )
    }

    /// The flat curve takes no trading fee on its own.
    fn trading_fee(&self, _trading_tokens: u128) -> (r: Option<u128>) {
        Some(0)
    }

    fn new_pool_supply(&self) -> (r: u128) {
        INITIAL_SWAP_POOL_AMOUNT
    }

    /// Calculate the host fee based on the owner fee, only used in production
    /// situations where a program is hosted by multiple frontends
    fn host_fee(&self, owner_fee: u128) -> (r: Option<u128>) {
        calculate_fee(owner_fee, self.host_fee_numerator as u128, self.host_fee_denominator as u128)
    }
}

impl FlatCurve {
    /// Size of the packed curve: eight little-endian `u64` fees
    pub const LEN: usize = 64;

    /// The curve whose fees are read from the first 64 bytes of `src`.
    pub open spec fn spec_unpack_fields(src: Seq<u8>) -> FlatCurve {
        FlatCurve {
            trade_fee_numerator: read_le_u64(src, 0),
            trade_fee_denominator: read_le_u64(src, 8),
            owner_trade_fee_numerator: read_le_u64(src, 16),
            owner_trade_fee_denominator: read_le_u64(src, 24),
            owner_withdraw_fee_numerator: read_le_u64(src, 32),
            owner_withdraw_fee_denominator: read_le_u64(src, 40),
            host_fee_numerator: read_le_u64(src, 48),
            host_fee_denominator: read_le_u64(src, 56),
        }
    }

    /// The packed fees of the curve.
    pub open spec fn spec_fields_bytes(&self) -> Seq<u8> {
        fee_fields_bytes(
            self.trade_fee_numerator,
            self.trade_fee_denominator,
            self.owner_trade_fee_numerator,
            self.owner_trade_fee_denominator,
            self.owner_withdraw_fee_numerator,
            self.owner_withdraw_fee_denominator,
            self.host_fee_numerator,
            self.host_fee_denominator,
        )
    }

    fn pack_fields(&self, output: &mut [u8])
        requires
            old(output)@.len() >= 64,
        ensures
            final(output)@ == overwrite(old(output)@, 0, self.spec_fields_bytes()),
            final(output)@.len() == old(output)@.len(),
    {
        pack_fee_fields(
            output,
            self.trade_fee_numerator,
            self.trade_fee_denominator,
            self.owner_trade_fee_numerator,
            self.owner_trade_fee_denominator,
            self.owner_withdraw_fee_numerator,
            self.owner_withdraw_fee_denominator,
            self.host_fee_numerator,
            self.host_fee_denominator,
        );
    }

    /// Reads the curve's fees from the first 64 bytes of `input`.
    pub(crate) fn unpack_fields(input: &[u8]) -> (r: Self)
        requires
            input@.len() >= 64,
        ensures
            r == Self::spec_unpack_fields(input@),
    {
        Self {
            trade_fee_numerator: read_u64(input, 0),
            trade_fee_denominator: read_u64(input, 8),
            owner_trade_fee_numerator: read_u64(input, 16),
            owner_trade_fee_denominator: read_u64(input, 24),
            owner_withdraw_fee_numerator: read_u64(input, 32),
            owner_withdraw_fee_denominator: read_u64(input, 40),
            host_fee_numerator: read_u64(input, 48),
            host_fee_denominator: read_u64(input, 56),
        }
    }
}

/// IsInitialized is required to use `Pack::pack` and `Pack::unpack`
impl IsInitialized for FlatCurve {
    open spec fn spec_is_initialized(&self) -> bool {
        true
    }

    fn is_initialized(&self) -> (b: bool) {
        true
    }
}

impl Pack for FlatCurve {
    open spec fn spec_packable(&self) -> bool {
        true
    }

    open spec fn spec_len() -> nat {
        64
    }

    open spec fn spec_pack_into(&self, dst: Seq<u8>) -> Seq<u8> {
        overwrite(dst, 0, self.spec_fields_bytes())
    }

    open spec fn spec_unpack_from_slice(src: Seq<u8>) -> Result<Self, ProgramError> {
        Ok(FlatCurve::spec_unpack_fields(src))
    }

    fn get_packed_len() -> (n: usize) {
        64
    }

    fn pack_into_slice(&self, output: &mut [u8]) {
        self.pack_fields(output);
    }

    fn unpack_from_slice(input: &[u8]) -> (r: Result<FlatCurve, ProgramError>) {
        Ok(Self::unpack_fields(input))
    }
}

impl DynPack for FlatCurve {
    open spec fn spec_dyn_len(&self) -> nat {
        64
    }

    open spec fn spec_dyn_pack_into(&self, dst: Seq<u8>) -> Seq<u8> {
        overwrite(dst, 0, self.spec_fields_bytes())
    }

    fn pack_into_slice(&self, output: &mut [u8]) {
        self.pack_fields(output);
    }
}

impl Default for FlatCurve {
    fn default() -> (r: Self)
        ensures
            r == (FlatCurve {
                trade_fee_numerator: 0,
                trade_fee_denominator: 0,
                owner_trade_fee_numerator: 0,
                owner_trade_fee_denominator: 0,
                owner_withdraw_fee_numerator: 0,
                owner_withdraw_fee_denominator: 0,
                host_fee_numerator: 0,
                host_fee_denominator: 0,
            }),
    {
        FlatCurve {
            trade_fee_numerator: 0,
            trade_fee_denominator: 0,
            owner_trade_fee_numerator: 0,
            owner_trade_fee_denominator: 0,
            owner_withdraw_fee_numerator: 0,
            owner_withdraw_fee_denominator: 0,
            host_fee_numerator: 0,
            host_fee_denominator: 0,
        }
    }
}

/// Packing a flat curve and unpacking the bytes gives the curve back.
pub proof fn lemma_flat_curve_pack_roundtrip(curve: FlatCurve, dst: Seq<u8>)
    requires
        dst.len() >= 64,
    ensures
        FlatCurve::spec_unpack_from_slice(curve.spec_pack_into(dst)) == Ok::<FlatCurve, ProgramError>(
            curve,
        ),
        curve.spec_pack_into(dst).len() == dst.len(),
{
    lemma_fee_fields_roundtrip(
        dst,
        curve.trade_fee_numerator,
        curve.trade_fee_denominator,
        curve.owner_trade_fee_numerator,
        curve.owner_trade_fee_denominator,
        curve.owner_withdraw_fee_numerator,
        curve.owner_withdraw_fee_denominator,
        curve.host_fee_numerator,
        curve.host_fee_denominator,
    );
}

/// A flat swap moves tokens one for one: what enters the pool is the whole
/// source amount, what leaves it is the amount swapped, and the amount
/// swapped together with both fees is the source amount.
pub proof fn lemma_flat_swap_conserves(
    curve: FlatCurve,
    source_amount: u128,
    swap_source_amount: u128,
    swap_destination_amount: u128,
)
    ensures
        spec_flat_swap(curve, source_amount, swap_source_amount, swap_destination_amount) matches Some(
            res,
        ) ==> {
            &&& res.new_source_amount == swap_source_amount + source_amount
            &&& res.new_destination_amount + res.amount_swapped == swap_destination_amount
            &&& res.amount_swapped + res.trade_fee + res.owner_fee == source_amount
        },
{
}

} // verus!
