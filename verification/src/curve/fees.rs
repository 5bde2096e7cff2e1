//! All fee information, to be used for validation currently

use vstd::prelude::*;

use crate::curve::shared::{calculate_fee, spec_calculate_fee};
use crate::error::ProgramError;
use crate::packing::{
    append_u64, le_u64, lemma_le_u64_roundtrip, overwrite, read_le_u64, read_u64, write_bytes,
    IsInitialized, Pack,
};

verus! {

/// Encapsulates all fee information and calculations for swap operations
#[derive(Clone, Copy, Debug, PartialEq, Eq, Structural)]
pub struct Fees {
    /// Trade fees are extra token amounts that are held inside the token
    /// accounts during a trade, making the value of liquidity tokens rise.
    /// Trade fee numerator
    pub trade_fee_numerator: u64,
    /// Trade fee denominator
    pub trade_fee_denominator: u64,
    /// Owner trading fees are extra token amounts that are held inside the token
    /// accounts during a trade, with the equivalent in pool tokens minted to
    /// the owner of the program.
    /// Owner trade fee numerator
    pub owner_trade_fee_numerator: u64,
    /// Owner trade fee denominator
    pub owner_trade_fee_denominator: u64,
    /// Owner withdraw fees are extra liquidity pool token amounts that are
    /// sent to the owner on every withdrawal.
    /// Owner withdraw fee numerator
    pub owner_withdraw_fee_numerator: u64,
    /// Owner withdraw fee denominator
    pub owner_withdraw_fee_denominator: u64,
}

impl Fees {
    /// Size of the packed fees: six little-endian `u64`
    pub const LEN: usize = 48;

    /// Calculate the withdraw fee in pool tokens
    pub fn owner_withdraw_fee(&self, pool_tokens: u128) -> (r: Option<u128>)
        ensures
            r == spec_calculate_fee(
                pool_tokens,
                self.owner_withdraw_fee_numerator as u128,
                self.owner_withdraw_fee_denominator as u128,
            ),
    {
        calculate_fee(
            pool_tokens,
            self.owner_withdraw_fee_numerator as u128,
            self.owner_withdraw_fee_denominator as u128,
        )
    }

    /// The packed fees, in field order.
    pub open spec fn spec_bytes(&self) -> Seq<u8> {
        le_u64(self.trade_fee_numerator) + le_u64(self.trade_fee_denominator) + le_u64(
            self.owner_trade_fee_numerator,
        ) + le_u64(self.owner_trade_fee_denominator) + le_u64(self.owner_withdraw_fee_numerator)
            + le_u64(self.owner_withdraw_fee_denominator)
    }

    /// The fees read from the first 48 bytes of `src`.
    pub open spec fn spec_read(src: Seq<u8>) -> Fees {
        Fees {
            trade_fee_numerator: read_le_u64(src, 0),
            trade_fee_denominator: read_le_u64(src, 8),
            owner_trade_fee_numerator: read_le_u64(src, 16),
            owner_trade_fee_denominator: read_le_u64(src, 24),
            owner_withdraw_fee_numerator: read_le_u64(src, 32),
            owner_withdraw_fee_denominator: read_le_u64(src, 40),
        }
    }

    /// The packed fees.
    pub fn to_bytes(&self) -> (r: Vec<u8>)
        ensures
            r@ == self.spec_bytes(),
            r@.len() == 48,
    {
        let mut bytes: Vec<u8> = Vec::new();
        append_u64(&mut bytes, self.trade_fee_numerator);
        append_u64(&mut bytes, self.trade_fee_denominator);
        append_u64(&mut bytes, self.owner_trade_fee_numerator);
        append_u64(&mut bytes, self.owner_trade_fee_denominator);
        append_u64(&mut bytes, self.owner_withdraw_fee_numerator);
        append_u64(&mut bytes, self.owner_withdraw_fee_denominator);
        proof {
            lemma_le_u64_roundtrip(self.trade_fee_numerator);
            lemma_le_u64_roundtrip(self.trade_fee_denominator);
            lemma_le_u64_roundtrip(self.owner_trade_fee_numerator);
            lemma_le_u64_roundtrip(self.owner_trade_fee_denominator);
            lemma_le_u64_roundtrip(self.owner_withdraw_fee_numerator);
            lemma_le_u64_roundtrip(self.owner_withdraw_fee_denominator);
            assert(bytes@ =~= self.spec_bytes());
        }
        bytes
    }
}

/// The packed fees hold each fee where reading expects it.
pub proof fn lemma_fees_bytes_roundtrip(fees: Fees, dst: Seq<u8>)
    requires
        dst.len() >= 48,
    ensures
        fees.spec_bytes().len() == 48,
        Fees::spec_read(overwrite(dst, 0, fees.spec_bytes())) == fees,
        Fees::spec_read(fees.spec_bytes()) == fees,
        overwrite(dst, 0, fees.spec_bytes()).len() == dst.len(),
{
    lemma_le_u64_roundtrip(fees.trade_fee_numerator);
    lemma_le_u64_roundtrip(fees.trade_fee_denominator);
    lemma_le_u64_roundtrip(fees.owner_trade_fee_numerator);
    lemma_le_u64_roundtrip(fees.owner_trade_fee_denominator);
    lemma_le_u64_roundtrip(fees.owner_withdraw_fee_numerator);
    lemma_le_u64_roundtrip(fees.owner_withdraw_fee_denominator);
    let b = fees.spec_bytes();
    let w = overwrite(dst, 0, b);
    assert(w.subrange(0, 8) =~= le_u64(fees.trade_fee_numerator));
    assert(w.subrange(8, 16) =~= le_u64(fees.trade_fee_denominator));
    assert(w.subrange(16, 24) =~= le_u64(fees.owner_trade_fee_numerator));
    assert(w.subrange(24, 32) =~= le_u64(fees.owner_trade_fee_denominator));
    assert(w.subrange(32, 40) =~= le_u64(fees.owner_withdraw_fee_numerator));
    assert(w.subrange(40, 48) =~= le_u64(fees.owner_withdraw_fee_denominator));
    assert(b.subrange(0, 8) =~= le_u64(fees.trade_fee_numerator));
    assert(b.subrange(8, 16) =~= le_u64(fees.trade_fee_denominator));
    assert(b.subrange(16, 24) =~= le_u64(fees.owner_trade_fee_numerator));
    assert(b.subrange(24, 32) =~= le_u64(fees.owner_trade_fee_denominator));
    assert(b.subrange(32, 40) =~= le_u64(fees.owner_withdraw_fee_numerator));
    assert(b.subrange(40, 48) =~= le_u64(fees.owner_withdraw_fee_denominator));
}

impl IsInitialized for Fees {
    open spec fn spec_is_initialized(&self) -> bool {
        true
    }

    fn is_initialized(&self) -> (b: bool) {
        true
    }
}

impl Pack for Fees {
    open spec fn spec_packable(&self) -> bool {
        true
    }

    open spec fn spec_len() -> nat {
        48
    }

    open spec fn spec_pack_into(&self, dst: Seq<u8>) -> Seq<u8> {
        overwrite(dst, 0, self.spec_bytes())
    }

    open spec fn spec_unpack_from_slice(src: Seq<u8>) -> Result<Self, ProgramError> {
        Ok(Fees::spec_read(src))
    }

    fn get_packed_len() -> (n: usize) {
        48
    }

    fn pack_into_slice(&self, output: &mut [u8]) {
        let bytes = self.to_bytes();
        write_bytes(output, 0, bytes.as_slice());
    }

    fn unpack_from_slice(input: &[u8]) -> (r: Result<Fees, ProgramError>) {
        Ok(
            Fees {
                trade_fee_numerator: read_u64(input, 0),
                trade_fee_denominator: read_u64(input, 8),
                owner_trade_fee_numerator: read_u64(input, 16),
                owner_trade_fee_denominator: read_u64(input, 24),
                owner_withdraw_fee_numerator: read_u64(input, 32),
                owner_withdraw_fee_denominator: read_u64(input, 40),
            },
        )
    }
}

/// The fees read from bytes that start with their packed form are those
/// fees.
pub proof fn lemma_fees_read_prefix(fees: Fees, tail: Seq<u8>)
    ensures
        Fees::spec_read(fees.spec_bytes() + tail) == fees,
        fees.spec_bytes().len() == 48,
{
    lemma_fees_bytes_roundtrip(fees, Seq::new(48, |i: int| 0u8));
    let b = fees.spec_bytes();
    let s = b + tail;
    assert(s.subrange(0, 8) =~= b.subrange(0, 8));
    assert(s.subrange(8, 16) =~= b.subrange(8, 16));
    assert(s.subrange(16, 24) =~= b.subrange(16, 24));
    assert(s.subrange(24, 32) =~= b.subrange(24, 32));
    assert(s.subrange(32, 40) =~= b.subrange(32, 40));
    assert(s.subrange(40, 48) =~= b.subrange(40, 48));
}

} // verus!
