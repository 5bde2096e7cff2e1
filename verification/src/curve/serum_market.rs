//! Swap price calculator based on the Serum market
//!
//! The prices come from the best bid and ask of each token's order books on
//! the market; reading those books is the caller's part, and the curve works
//! on what they show.

use vstd::prelude::*;

use crate::curve::shared::{
    calculate_fee, fee_fields_bytes, lemma_fee_fields_roundtrip, map_zero_to_none,
    spec_calculate_fee, DynPack, SwapResult,
};
use crate::error::{swap_error_code, ProgramError, SwapError};
use crate::packing::{
    append_bytes, append_u64, lemma_le_u64_roundtrip, overwrite, read_le_u64, read_u64,
    write_bytes, IsInitialized, Pack,
};
use crate::pubkey::Pubkey;
use crate::state::{key_at, lemma_key_at, read_key};

verus! {

/// Calculator based on observable Serum market
#[derive(Clone, Copy, Debug)]
pub struct SerumMarketCurve {
    /// Trade fee numerator
    pub trade_fee_numerator: u64,
    /// Trade fee denominator
    pub trade_fee_denominator: u64,
    /// Owner trade fee numerator
    pub owner_trade_fee_numerator: u64,
    /// Owner trade fee denominator
    pub owner_trade_fee_denominator: u64,
    /// Owner withdraw fee numerator
    pub owner_withdraw_fee_numerator: u64,
    /// Owner withdraw fee denominator
    pub owner_withdraw_fee_denominator: u64,
    /// Host trading fee numerator
    pub host_fee_numerator: u64,
    /// Host trading fee denominator
    pub host_fee_denominator: u64,
    /// Address of token A mint, for validation
    pub token_a_mint: Pubkey,
    /// Address of token A bids
    pub token_a_bids: Pubkey,
    /// Address of token A asks
    pub token_a_asks: Pubkey,
    /// Address of token B mint, for validation
    pub token_b_mint: Pubkey,
    /// Address of token B bids
    pub token_b_bids: Pubkey,
    /// Address of token B asks
    pub token_b_asks: Pubkey,
}

impl PartialEq for SerumMarketCurve {
    fn eq(&self, other: &Self) -> (r: bool) {
        self.trade_fee_numerator == other.trade_fee_numerator && self.trade_fee_denominator
            == other.trade_fee_denominator && self.owner_trade_fee_numerator
            == other.owner_trade_fee_numerator && self.owner_trade_fee_denominator
            == other.owner_trade_fee_denominator && self.owner_withdraw_fee_numerator
            == other.owner_withdraw_fee_numerator && self.owner_withdraw_fee_denominator
            == other.owner_withdraw_fee_denominator && self.host_fee_numerator
            == other.host_fee_numerator && self.host_fee_denominator == other.host_fee_denominator
            && self.token_a_mint.same(&other.token_a_mint) && self.token_a_bids.same(
            &other.token_a_bids,
        ) && self.token_a_asks.same(&other.token_a_asks) && self.token_b_mint.same(
            &other.token_b_mint,
        ) && self.token_b_bids.same(&other.token_b_bids) && self.token_b_asks.same(
            &other.token_b_asks,
        )
    }
}

impl vstd::std_specs::cmp::PartialEqSpecImpl for SerumMarketCurve {
    open spec fn obeys_eq_spec() -> bool {
        true
    }

    open spec fn eq_spec(&self, other: &SerumMarketCurve) -> bool {
        &&& self.trade_fee_numerator == other.trade_fee_numerator
        &&& self.trade_fee_denominator == other.trade_fee_denominator
        &&& self.owner_trade_fee_numerator == other.owner_trade_fee_numerator
        &&& self.owner_trade_fee_denominator == other.owner_trade_fee_denominator
        &&& self.owner_withdraw_fee_numerator == other.owner_withdraw_fee_numerator
        &&& self.owner_withdraw_fee_denominator == other.owner_withdraw_fee_denominator
        &&& self.host_fee_numerator == other.host_fee_numerator
        &&& self.host_fee_denominator == other.host_fee_denominator
        &&& self.token_a_mint == other.token_a_mint
        &&& self.token_a_bids == other.token_a_bids
        &&& self.token_a_asks == other.token_a_asks
        &&& self.token_b_mint == other.token_b_mint
        &&& self.token_b_bids == other.token_b_bids
        &&& self.token_b_asks == other.token_b_asks
    }
}

impl Default for SerumMarketCurve {
    fn default() -> (r: Self)
        ensures
            r == (SerumMarketCurve {
                trade_fee_numerator: 0,
                trade_fee_denominator: 0,
                owner_trade_fee_numerator: 0,
                owner_trade_fee_denominator: 0,
                owner_withdraw_fee_numerator: 0,
                owner_withdraw_fee_denominator: 0,
                host_fee_numerator: 0,
                host_fee_denominator: 0,
                token_a_mint: Pubkey::zero(),
                token_a_bids: Pubkey::zero(),
                token_a_asks: Pubkey::zero(),
                token_b_mint: Pubkey::zero(),
                token_b_bids: Pubkey::zero(),
                token_b_asks: Pubkey::zero(),
            }),
    {
        SerumMarketCurve {
            trade_fee_numerator: 0,
            trade_fee_denominator: 0,
            owner_trade_fee_numerator: 0,
            owner_trade_fee_denominator: 0,
            owner_withdraw_fee_numerator: 0,
            owner_withdraw_fee_denominator: 0,
            host_fee_numerator: 0,
            host_fee_denominator: 0,
            token_a_mint: Pubkey::default(),
            token_a_bids: Pubkey::default(),
            token_a_asks: Pubkey::default(),
            token_b_mint: Pubkey::default(),
            token_b_bids: Pubkey::default(),
            token_b_asks: Pubkey::default(),
        }
    }
}

/// The price midway between the best bid and the best ask of a token's
/// order books, rounded down; none when a book is empty or the sum does not
/// fit in 64 bits.
pub open spec fn spec_mid_price(best_bid: Option<u64>, best_ask: Option<u64>) -> Option<u128> {
    match (best_bid, best_ask) {
        (Some(bid), Some(ask)) => if bid + ask > u64::MAX {
            None
        } else {
            Some(((bid + ask) / 2) as u128)
        },
        _ => None,
    }
}

/// The price of a token from its order books: the mean of the best bid and
/// the best ask, rounded down.
pub fn mid_price(best_bid: Option<u64>, best_ask: Option<u64>) -> (r: Option<u128>)
    ensures
        r == spec_mid_price(best_bid, best_ask),
{
    let bid = best_bid?;
    let ask = best_ask?;
    let mid = bid.checked_add(ask)?.checked_div(2)?;
    Some(mid as u128)
}

/// The swap at the market's prices: both fees come off the source amount,
/// and the rest buys the destination token at the ratio of the source
/// token's price to the destination token's, rounded down; the whole source
/// amount enters the pool. None when a price is missing, a fee cannot be
/// taken, an intermediate result leaves 128 bits, nothing would be swapped,
/// or the pool holds too little of the destination token.
pub open spec fn spec_serum_swap(
    curve: SerumMarketCurve,
    source_amount: u128,
    swap_source_amount: u128,
    swap_destination_amount: u128,
    source_mid: Option<u128>,
    destination_mid: Option<u128>,
) -> Option<SwapResult> {
    match (source_mid, destination_mid) {
        (Some(source_price), Some(destination_price)) => match spec_calculate_fee(
            source_amount,
            curve.trade_fee_numerator as u128,
            curve.trade_fee_denominator as u128,
        ) {
            None => None,
            Some(trade_fee) => match spec_calculate_fee(
                source_amount,
                curve.owner_trade_fee_numerator as u128,
                curve.owner_trade_fee_denominator as u128,
            ) {
                None => None,
                Some(owner_fee) => {
                    let less_fees = source_amount - trade_fee - owner_fee;
                    if less_fees < 0 || less_fees * source_price > u128::MAX || destination_price
                        == 0 {
                        None
                    } else {
                        let amount_swapped = (less_fees * source_price) / (destination_price as int);
                        let new_destination_amount = swap_destination_amount - amount_swapped;
                        let new_source_amount = swap_source_amount + source_amount;
                        if amount_swapped == 0 || new_destination_amount < 0 || new_source_amount
                            > u128::MAX {
                            None
                        } else {
                            Some(
                                SwapResult {
                                    new_source_amount: new_source_amount as u128,
                                    new_destination_amount: new_destination_amount as u128,
                                    amount_swapped: amount_swapped as u128,
                                    trade_fee,
                                    owner_fee,
                                },
                            )
                        }
                    }
                },
            },
        },
        _ => None,
    }
}

/// The error a swap error becomes.
pub open spec fn curve_accounts_err() -> ProgramError {
    ProgramError::Custom(swap_error_code(SwapError::InvalidCurveAccounts))
}

/// What checking the order books named for a swap gives: each token's bid
/// and ask books must be the curve's books of the mint the token account
/// holds, source first.
pub open spec fn spec_validate_swap_accounts(
    curve: SerumMarketCurve,
    source_mint: Pubkey,
    destination_mint: Pubkey,
    curve_accounts: Seq<Pubkey>,
) -> Result<(), ProgramError> {
    if curve_accounts.len() < 4 {
        Err(ProgramError::NotEnoughAccountKeys)
    } else {
        let source_books = if source_mint == curve.token_a_mint {
            Some((curve.token_a_bids, curve.token_a_asks))
        } else if source_mint == curve.token_b_mint {
            Some((curve.token_b_bids, curve.token_b_asks))
        } else {
            None
        };
        let destination_books = if destination_mint == curve.token_a_mint {
            Some((curve.token_a_bids, curve.token_a_asks))
        } else if destination_mint == curve.token_b_mint {
            Some((curve.token_b_bids, curve.token_b_asks))
        } else {
            None
        };
        match (source_books, destination_books) {
            (Some((source_bids, source_asks)), Some((destination_bids, destination_asks))) => {
                if curve_accounts[0] != source_bids || curve_accounts[1] != source_asks
                    || curve_accounts[2] != destination_bids || curve_accounts[3]
                    != destination_asks {
                    Err(curve_accounts_err())
                } else {
                    Ok(())
                }
            },
            _ => Err(curve_accounts_err()),
        }
    }
}

impl SerumMarketCurve {
    /// Size of the packed curve: eight little-endian `u64` fees, then the
    /// six addresses.
    pub const LEN: usize = 256;

    /// Swaps one currency for another based on the ratio of the token
    /// prices on Serum, given the mid price of the source token and of the
    /// destination token as their order books show them.
    pub fn swap(
        &self,
        source_amount: u128,
        swap_source_amount: u128,
        swap_destination_amount: u128,
        source_mid: Option<u128>,
        destination_mid: Option<u128>,
    ) -> (r: Option<SwapResult>)
        ensures
            r == spec_serum_swap(
                *self,
                source_amount,
                swap_source_amount,
                swap_destination_amount,
                source_mid,
                destination_mid,
            ),
    {
        let source_mid = source_mid?;
        let destination_mid = destination_mid?;

        // debit the fee to calculate the amount swapped
        let trade_fee = self.trading_fee(source_amount)?;
        let owner_fee = calculate_fee(
            source_amount,
            self.owner_trade_fee_numerator as u128,
            self.owner_trade_fee_denominator as u128,
        )?;

        let source_amount_less_fee = source_amount.checked_sub(trade_fee)?.checked_sub(owner_fee)?;

        // The stronger currency buys more of the weaker: the amount is the
        // source amount times the source price over the destination price.
        let amount_swapped = map_zero_to_none(
            source_amount_less_fee.checked_mul(source_mid)?.checked_div(destination_mid)?,
        )?;
        let new_destination_amount = swap_destination_amount.checked_sub(amount_swapped)?;

        // actually add the whole amount coming in
        let new_source_amount = swap_source_amount.checked_add(source_amount)?;
        Some(
            SwapResult {
                new_source_amount,
                new_destination_amount,
                amount_swapped,
                trade_fee,
                owner_fee,
            },
        )
    }

    /// Calculate the withdraw fee in pool tokens
    pub fn owner_withdraw_fee(&self, pool_tokens: u128) -> (r: Option<u128>)
        ensures
            r == spec_calculate_fee(
                pool_tokens,
                self.owner_withdraw_fee_numerator as u128,
                self.owner_withdraw_fee_denominator as u128,
            ),
    {
        calculate_fee(
            pool_tokens,
            self.owner_withdraw_fee_numerator as u128,
            self.owner_withdraw_fee_denominator as u128,
        )
    }

    /// Calculate the trading fee in trading tokens
    pub fn trading_fee(&self, trading_tokens: u128) -> (r: Option<u128>)
        ensures
            r == spec_calculate_fee(
                trading_tokens,
                self.trade_fee_numerator as u128,
                self.trade_fee_denominator as u128,
            ),
    {
        calculate_fee(
            trading_tokens,
            self.trade_fee_numerator as u128,
            self.trade_fee_denominator as u128,
        )
    }

    /// Calculate the host fee based on the owner fee, only used in production
    /// situations where a program is hosted by multiple frontends
    pub fn host_fee(&self, owner_fee: u128) -> (r: Option<u128>)
        ensures
            r == spec_calculate_fee(
                owner_fee,
                self.host_fee_numerator as u128,
                self.host_fee_denominator as u128,
            ),
    {
        calculate_fee(owner_fee, self.host_fee_numerator as u128, self.host_fee_denominator as u128)
    }

    /// Validate the order books named for a swap, ensuring that they
    /// correspond to the source and destination tokens. The accounts are
    /// expected in the following order:
    /// 1. source token bid orderbook
    /// 2. source token ask orderbook
    /// 3. destination token bid orderbook
    /// 4. destination token ask orderbook
    pub fn validate_swap_accounts(
        &self,
        source_mint: &Pubkey,
        destination_mint: &Pubkey,
        curve_accounts: &[Pubkey],
    ) -> (r: Result<(), ProgramError>)
        ensures
            r == spec_validate_swap_accounts(*self, *source_mint, *destination_mint, curve_accounts@),
    {
        if curve_accounts.len() < 4 {
            return Err(ProgramError::NotEnoughAccountKeys);
        }
        let source_token_bid_key = &curve_accounts[0];
        let source_token_ask_key = &curve_accounts[1];
        let destination_token_bid_key = &curve_accounts[2];
        let destination_token_ask_key = &curve_accounts[3];

        let (curve_source_token_bid_key, curve_source_token_ask_key) = if source_mint.same(
            &self.token_a_mint,
        ) {
            (self.token_a_bids, self.token_a_asks)
        } else if source_mint.same(&self.token_b_mint) {
            (self.token_b_bids, self.token_b_asks)
        } else {
            return Err(ProgramError::from(SwapError::InvalidCurveAccounts));
        };

        let (curve_destination_token_bid_key, curve_destination_token_ask_key) =
            if destination_mint.same(&self.token_a_mint) {
            (self.token_a_bids, self.token_a_asks)
        } else if destination_mint.same(&self.token_b_mint) {
            (self.token_b_bids, self.token_b_asks)
        } else {
            return Err(ProgramError::from(SwapError::InvalidCurveAccounts));
        };

        if !source_token_bid_key.same(&curve_source_token_bid_key) {
            return Err(ProgramError::from(SwapError::InvalidCurveAccounts));
        }
        if !source_token_ask_key.same(&curve_source_token_ask_key) {
            return Err(ProgramError::from(SwapError::InvalidCurveAccounts));
        }
        if !destination_token_bid_key.same(&curve_destination_token_bid_key) {
            return Err(ProgramError::from(SwapError::InvalidCurveAccounts));
        }
        if !destination_token_ask_key.same(&curve_destination_token_ask_key) {
            return Err(ProgramError::from(SwapError::InvalidCurveAccounts));
        }
        Ok(())
    }

    /// The packed curve.
    pub open spec fn spec_bytes(&self) -> Seq<u8> {
        fee_fields_bytes(
            self.trade_fee_numerator,
            self.trade_fee_denominator,
            self.owner_trade_fee_numerator,
            self.owner_trade_fee_denominator,
            self.owner_withdraw_fee_numerator,
            self.owner_withdraw_fee_denominator,
            self.host_fee_numerator,
            self.host_fee_denominator,
        ) + self.token_a_mint.0@ + self.token_a_bids.0@ + self.token_a_asks.0@
            + self.token_b_mint.0@ + self.token_b_bids.0@ + self.token_b_asks.0@
    }

    /// The curve read from the first 256 bytes of `src`.
    pub open spec fn spec_unpack_fields(src: Seq<u8>) -> SerumMarketCurve {
        SerumMarketCurve {
            trade_fee_numerator: read_le_u64(src, 0),
            trade_fee_denominator: read_le_u64(src, 8),
            owner_trade_fee_numerator: read_le_u64(src, 16),
            owner_trade_fee_denominator: read_le_u64(src, 24),
            owner_withdraw_fee_numerator: read_le_u64(src, 32),
            owner_withdraw_fee_denominator: read_le_u64(src, 40),
            host_fee_numerator: read_le_u64(src, 48),
            host_fee_denominator: read_le_u64(src, 56),
            token_a_mint: key_at(src, 64),
            token_a_bids: key_at(src, 96),
            token_a_asks: key_at(src, 128),
            token_b_mint: key_at(src, 160),
            token_b_bids: key_at(src, 192),
            token_b_asks: key_at(src, 224),
        }
    }

    fn pack_fields(&self, output: &mut [u8])
        requires
            old(output)@.len() >= 256,
        ensures
            final(output)@ == overwrite(old(output)@, 0, self.spec_bytes()),
            final(output)@.len() == old(output)@.len(),
    {
        let mut bytes: Vec<u8> = Vec::new();
        append_u64(&mut bytes, self.trade_fee_numerator);
        append_u64(&mut bytes, self.trade_fee_denominator);
        append_u64(&mut bytes, self.owner_trade_fee_numerator);
        append_u64(&mut bytes, self.owner_trade_fee_denominator);
        append_u64(&mut bytes, self.owner_withdraw_fee_numerator);
        append_u64(&mut bytes, self.owner_withdraw_fee_denominator);
        append_u64(&mut bytes, self.host_fee_numerator);
        append_u64(&mut bytes, self.host_fee_denominator);
        append_bytes(&mut bytes, self.token_a_mint.0.as_slice());
        append_bytes(&mut bytes, self.token_a_bids.0.as_slice());
        append_bytes(&mut bytes, self.token_a_asks.0.as_slice());
        append_bytes(&mut bytes, self.token_b_mint.0.as_slice());
        append_bytes(&mut bytes, self.token_b_bids.0.as_slice());
        append_bytes(&mut bytes, self.token_b_asks.0.as_slice());
        proof {
            lemma_le_u64_roundtrip(self.trade_fee_numerator);
            lemma_le_u64_roundtrip(self.trade_fee_denominator);
            lemma_le_u64_roundtrip(self.owner_trade_fee_numerator);
            lemma_le_u64_roundtrip(self.owner_trade_fee_denominator);
            lemma_le_u64_roundtrip(self.owner_withdraw_fee_numerator);
            lemma_le_u64_roundtrip(self.owner_withdraw_fee_denominator);
            lemma_le_u64_roundtrip(self.host_fee_numerator);
            lemma_le_u64_roundtrip(self.host_fee_denominator);
            vstd::array::array_len_matches_n(&self.token_a_mint.0);
            vstd::array::array_len_matches_n(&self.token_a_bids.0);
            vstd::array::array_len_matches_n(&self.token_a_asks.0);
            vstd::array::array_len_matches_n(&self.token_b_mint.0);
            vstd::array::array_len_matches_n(&self.token_b_bids.0);
            vstd::array::array_len_matches_n(&self.token_b_asks.0);
            assert(bytes@ =~= self.spec_bytes());
        }
        write_bytes(output, 0, bytes.as_slice());
    }

    fn unpack_fields(input: &[u8]) -> (r: Self)
        requires
            input@.len() >= 256,
        ensures
            r == Self::spec_unpack_fields(input@),
    {
        SerumMarketCurve {
            trade_fee_numerator: read_u64(input, 0),
            trade_fee_denominator: read_u64(input, 8),
            owner_trade_fee_numerator: read_u64(input, 16),
            owner_trade_fee_denominator: read_u64(input, 24),
            owner_withdraw_fee_numerator: read_u64(input, 32),
            owner_withdraw_fee_denominator: read_u64(input, 40),
            host_fee_numerator: read_u64(input, 48),
            host_fee_denominator: read_u64(input, 56),
            token_a_mint: read_key(input, 64),
            token_a_bids: read_key(input, 96),
            token_a_asks: read_key(input, 128),
            token_b_mint: read_key(input, 160),
            token_b_bids: read_key(input, 192),
            token_b_asks: read_key(input, 224),
        }
    }
}

/// IsInitialized is required to use `Pack::pack` and `Pack::unpack`
impl IsInitialized for SerumMarketCurve {
    open spec fn spec_is_initialized(&self) -> bool {
        true
    }

    fn is_initialized(&self) -> (b: bool) {
        true
    }
}

impl Pack for SerumMarketCurve {
    open spec fn spec_packable(&self) -> bool {
        true
    }

    open spec fn spec_len() -> nat {
        256
    }

    open spec fn spec_pack_into(&self, dst: Seq<u8>) -> Seq<u8> {
        overwrite(dst, 0, self.spec_bytes())
    }

    open spec fn spec_unpack_from_slice(src: Seq<u8>) -> Result<Self, ProgramError> {
        Ok(SerumMarketCurve::spec_unpack_fields(src))
    }

    fn get_packed_len() -> (n: usize) {
        256
    }

    fn pack_into_slice(&self, output: &mut [u8]) {
        self.pack_fields(output);
    }

    fn unpack_from_slice(input: &[u8]) -> (r: Result<SerumMarketCurve, ProgramError>) {
        Ok(Self::unpack_fields(input))
    }
}

impl DynPack for SerumMarketCurve {
    open spec fn spec_dyn_len(&self) -> nat {
        256
    }

    open spec fn spec_dyn_pack_into(&self, dst: Seq<u8>) -> Seq<u8> {
        overwrite(dst, 0, self.spec_bytes())
    }

    fn pack_into_slice(&self, output: &mut [u8]) {
        self.pack_fields(output);
    }
}

/// Packing a market curve and unpacking the bytes gives the curve back.
pub proof fn lemma_serum_market_curve_pack_roundtrip(curve: SerumMarketCurve, dst: Seq<u8>)
    requires
        dst.len() >= 256,
    ensures
        curve.spec_pack_into(dst).len() == dst.len(),
        SerumMarketCurve::spec_unpack_from_slice(curve.spec_pack_into(dst)) == Ok::<
            SerumMarketCurve,
            ProgramError,
        >(curve),
{
    let fees = fee_fields_bytes(
        curve.trade_fee_numerator,
        curve.trade_fee_denominator,
        curve.owner_trade_fee_numerator,
        curve.owner_trade_fee_denominator,
        curve.owner_withdraw_fee_numerator,
        curve.owner_withdraw_fee_denominator,
        curve.host_fee_numerator,
        curve.host_fee_denominator,
    );
    lemma_fee_fields_roundtrip(
        dst,
        curve.trade_fee_numerator,
        curve.trade_fee_denominator,
        curve.owner_trade_fee_numerator,
        curve.owner_trade_fee_denominator,
        curve.owner_withdraw_fee_numerator,
        curve.owner_withdraw_fee_denominator,
        curve.host_fee_numerator,
        curve.host_fee_denominator,
    );
    vstd::array::array_len_matches_n(&curve.token_a_mint.0);
    vstd::array::array_len_matches_n(&curve.token_a_bids.0);
    vstd::array::array_len_matches_n(&curve.token_a_asks.0);
    vstd::array::array_len_matches_n(&curve.token_b_mint.0);
    vstd::array::array_len_matches_n(&curve.token_b_bids.0);
    vstd::array::array_len_matches_n(&curve.token_b_asks.0);
    lemma_le_u64_roundtrip(curve.trade_fee_numerator);
    lemma_le_u64_roundtrip(curve.trade_fee_denominator);
    lemma_le_u64_roundtrip(curve.owner_trade_fee_numerator);
    lemma_le_u64_roundtrip(curve.owner_trade_fee_denominator);
    lemma_le_u64_roundtrip(curve.owner_withdraw_fee_numerator);
    lemma_le_u64_roundtrip(curve.owner_withdraw_fee_denominator);
    lemma_le_u64_roundtrip(curve.host_fee_numerator);
    lemma_le_u64_roundtrip(curve.host_fee_denominator);
    let with_fees = overwrite(dst, 0, fees);
    let packed = curve.spec_pack_into(dst);
    assert(fees.len() == 64);
    assert(packed.subrange(0, 64) =~= with_fees.subrange(0, 64));
    assert(packed.subrange(0, 8) =~= with_fees.subrange(0, 8));
    assert(packed.subrange(8, 16) =~= with_fees.subrange(8, 16));
    assert(packed.subrange(16, 24) =~= with_fees.subrange(16, 24));
    assert(packed.subrange(24, 32) =~= with_fees.subrange(24, 32));
    assert(packed.subrange(32, 40) =~= with_fees.subrange(32, 40));
    assert(packed.subrange(40, 48) =~= with_fees.subrange(40, 48));
    assert(packed.subrange(48, 56) =~= with_fees.subrange(48, 56));
    assert(packed.subrange(56, 64) =~= with_fees.subrange(56, 64));
    assert(packed.subrange(64, 96) =~= curve.token_a_mint.0@);
    assert(packed.subrange(96, 128) =~= curve.token_a_bids.0@);
    assert(packed.subrange(128, 160) =~= curve.token_a_asks.0@);
    assert(packed.subrange(160, 192) =~= curve.token_b_mint.0@);
    assert(packed.subrange(192, 224) =~= curve.token_b_bids.0@);
    assert(packed.subrange(224, 256) =~= curve.token_b_asks.0@);
    lemma_key_at(packed, 64, curve.token_a_mint.0);
    lemma_key_at(packed, 96, curve.token_a_bids.0);
    lemma_key_at(packed, 128, curve.token_a_asks.0);
    lemma_key_at(packed, 160, curve.token_b_mint.0);
    lemma_key_at(packed, 192, curve.token_b_bids.0);
    lemma_key_at(packed, 224, curve.token_b_asks.0);
}

/// A swap at market prices takes both fees and the amount swapped out of
/// what enters and leaves the pool: the whole source amount enters the
/// pool, the amount swapped leaves it, and the amount swapped is the source
/// amount less both fees priced in the destination token, rounded down.
pub proof fn lemma_serum_swap_prices(
    curve: SerumMarketCurve,
    source_amount: u128,
    swap_source_amount: u128,
    swap_destination_amount: u128,
    source_mid: Option<u128>,
    destination_mid: Option<u128>,
)
    ensures
        spec_serum_swap(
            curve,
            source_amount,
            swap_source_amount,
            swap_destination_amount,
            source_mid,
            destination_mid,
        ) matches Some(res) ==> {
            &&& res.new_source_amount == swap_source_amount + source_amount
            &&& res.new_destination_amount + res.amount_swapped == swap_destination_amount
            &&& res.trade_fee + res.owner_fee <= source_amount
            &&& res.amount_swapped * destination_mid->0 <= (source_amount - res.trade_fee
                - res.owner_fee) * source_mid->0
            &&& (source_amount - res.trade_fee - res.owner_fee) * source_mid->0
                < (res.amount_swapped + 1) * destination_mid->0
        },
{
    if let (Some(sp), Some(dp)) = (source_mid, destination_mid) {
        if let Some(res) = spec_serum_swap(
            curve,
            source_amount,
            swap_source_amount,
            swap_destination_amount,
            source_mid,
            destination_mid,
        ) {
            let less = source_amount - res.trade_fee - res.owner_fee;
            let product = less * sp;
            assert(res.amount_swapped == product / (dp as int));
            assert(dp > 0);
            let q = product / (dp as int);
            assert(q * dp <= product && product < (q + 1) * dp) by (nonlinear_arith)
                requires
                    dp > 0,
                    q == product / (dp as int),
                    product >= 0,
            ;
        }
    }
}

} // verus!
