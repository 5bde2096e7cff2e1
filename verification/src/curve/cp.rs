//! The Uniswap invariant curve with its fee parameters, as the swap curve
//! stores it.

use vstd::prelude::*;

use crate::curve::shared::{fee_fields_bytes, lemma_fee_fields_roundtrip, pack_fee_fields, DynPack};
use crate::error::ProgramError;
use crate::packing::{overwrite, read_le_u64, read_u64, IsInitialized, Pack};

verus! {

/// The fee parameters of a constant product curve
#[derive(Clone, Copy, Debug, PartialEq, Eq, Structural)]
pub struct ConstantProductCurve {
    /// Fee numerator
    pub trade_fee_numerator: u64,
    /// Fee denominator
    pub trade_fee_denominator: u64,
    /// Owner trade fee numerator
    pub owner_trade_fee_numerator: u64,
    /// Owner trade fee denominator
    pub owner_trade_fee_denominator: u64,
    /// Owner withdraw fee numerator
    pub owner_withdraw_fee_numerator: u64,
    /// Owner withdraw fee denominator
    pub owner_withdraw_fee_denominator: u64,
    /// Host trading fee numerator
    pub host_fee_numerator: u64,
    /// Host trading fee denominator
    pub host_fee_denominator: u64,
}

impl ConstantProductCurve {
    /// Size of the packed curve: eight little-endian `u64` fees
    pub const LEN: usize = 64;

    /// The curve whose fees are read from the first 64 bytes of `src`.
    pub open spec fn spec_unpack_fields(src: Seq<u8>) -> ConstantProductCurve {
        ConstantProductCurve {
            trade_fee_numerator: read_le_u64(src, 0),
            trade_fee_denominator: read_le_u64(src, 8),
            owner_trade_fee_numerator: read_le_u64(src, 16),
            owner_trade_fee_denominator: read_le_u64(src, 24),
            owner_withdraw_fee_numerator: read_le_u64(src, 32),
            owner_withdraw_fee_denominator: read_le_u64(src, 40),
            host_fee_numerator: read_le_u64(src, 48),
            host_fee_denominator: read_le_u64(src, 56),
        }
    }

    /// The packed fees of the curve.
    pub open spec fn spec_fields_bytes(&self) -> Seq<u8> {
        fee_fields_bytes(
            self.trade_fee_numerator,
            self.trade_fee_denominator,
            self.owner_trade_fee_numerator,
            self.owner_trade_fee_denominator,
            self.owner_withdraw_fee_numerator,
            self.owner_withdraw_fee_denominator,
            self.host_fee_numerator,
            self.host_fee_denominator,
        )
    }

    fn pack_fields(&self, output: &mut [u8])
        requires
            old(output)@.len() >= 64,
        ensures
            final(output)@ == overwrite(old(output)@, 0, self.spec_fields_bytes()),
            final(output)@.len() == old(output)@.len(),
    {
        pack_fee_fields(
            output,
            self.trade_fee_numerator,
            self.trade_fee_denominator,
            self.owner_trade_fee_numerator,
            self.owner_trade_fee_denominator,
            self.owner_withdraw_fee_numerator,
            self.owner_withdraw_fee_denominator,
            self.host_fee_numerator,
            self.host_fee_denominator,
        );
    }

    /// Reads the curve's fees from the first 64 bytes of `input`.
    pub(crate) fn unpack_fields(input: &[u8]) -> (r: Self)
        requires
            input@.len() >= 64,
        ensures
            r == Self::spec_unpack_fields(input@),
    {
        Self {
            trade_fee_numerator: read_u64(input, 0),
            trade_fee_denominator: read_u64(input, 8),
            owner_trade_fee_numerator: read_u64(input, 16),
            owner_trade_fee_denominator: read_u64(input, 24),
            owner_withdraw_fee_numerator: read_u64(input, 32),
            owner_withdraw_fee_denominator: read_u64(input, 40),
            host_fee_numerator: read_u64(input, 48),
            host_fee_denominator: read_u64(input, 56),
        }
    }
}

/// IsInitialized is required to use `Pack::pack` and `Pack::unpack`
impl IsInitialized for ConstantProductCurve {
    open spec fn spec_is_initialized(&self) -> bool {
        true
    }

    fn is_initialized(&self) -> (b: bool) {
        true
    }
}

impl Pack for ConstantProductCurve {
    open spec fn spec_packable(&self) -> bool {
        true
    }

    open spec fn spec_len() -> nat {
        64
    }

    open spec fn spec_pack_into(&self, dst: Seq<u8>) -> Seq<u8> {
        overwrite(dst, 0, self.spec_fields_bytes())
    }

    open spec fn spec_unpack_from_slice(src: Seq<u8>) -> Result<Self, ProgramError> {
        Ok(ConstantProductCurve::spec_unpack_fields(src))
    }

    fn get_packed_len() -> (n: usize) {
        64
    }

    fn pack_into_slice(&self, output: &mut [u8]) {
        self.pack_fields(output);
    }

    fn unpack_from_slice(input: &[u8]) -> (r: Result<ConstantProductCurve, ProgramError>) {
        Ok(Self::unpack_fields(input))
    }
}

impl DynPack for ConstantProductCurve {
    open spec fn spec_dyn_len(&self) -> nat {
        64
    }

    open spec fn spec_dyn_pack_into(&self, dst: Seq<u8>) -> Seq<u8> {
        overwrite(dst, 0, self.spec_fields_bytes())
    }

    fn pack_into_slice(&self, output: &mut [u8]) {
        self.pack_fields(output);
    }
}

impl ConstantProductCurve {
    /// The curve without any fee.
    pub open spec fn zero() -> ConstantProductCurve {
        ConstantProductCurve {
            trade_fee_numerator: 0,
            trade_fee_denominator: 0,
            owner_trade_fee_numerator: 0,
            owner_trade_fee_denominator: 0,
            owner_withdraw_fee_numerator: 0,
            owner_withdraw_fee_denominator: 0,
            host_fee_numerator: 0,
            host_fee_denominator: 0,
        }
    }
}

impl Default for ConstantProductCurve {
    fn default() -> (r: Self)
        ensures
            r == ConstantProductCurve::zero(),
    {
        ConstantProductCurve {
            trade_fee_numerator: 0,
            trade_fee_denominator: 0,
            owner_trade_fee_numerator: 0,
            owner_trade_fee_denominator: 0,
            owner_withdraw_fee_numerator: 0,
            owner_withdraw_fee_denominator: 0,
            host_fee_numerator: 0,
            host_fee_denominator: 0,
        }
    }
}

/// Packing a constant product curve and unpacking the bytes gives the curve back.
pub proof fn lemma_constant_product_curve_pack_roundtrip(curve: ConstantProductCurve, dst: Seq<u8>)
    requires
        dst.len() >= 64,
    ensures
        ConstantProductCurve::spec_unpack_from_slice(curve.spec_pack_into(dst)) == Ok::<ConstantProductCurve, ProgramError>(
            curve,
        ),
        curve.spec_pack_into(dst).len() == dst.len(),
{
    lemma_fee_fields_roundtrip(
        dst,
        curve.trade_fee_numerator,
        curve.trade_fee_denominator,
        curve.owner_trade_fee_numerator,
        curve.owner_trade_fee_denominator,
        curve.owner_withdraw_fee_numerator,
        curve.owner_withdraw_fee_denominator,
        curve.host_fee_numerator,
        curve.host_fee_denominator,
    );
}

} // verus!
