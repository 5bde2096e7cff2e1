//! Instruction types

pub mod swap_flags;

use vstd::prelude::*;

use crate::curve::base::{lemma_swap_curve_slot_roundtrip, SwapCurve};
use crate::curve::fees::{lemma_fees_read_prefix, Fees};
use crate::error::{swap_error_code, ProgramError, SwapError};
use crate::pubkey::Pubkey;
use crate::packing::{
    append_bytes, append_u64, le_u64, lemma_le_u64_roundtrip, lemma_read_concat_u64,
    lemma_read_skip_u64, lemma_read_take_u64, overwrite, read_le_u64, read_u64,
    Pack,
};

verus! {

/// Initialize instruction data
#[derive(Debug)]
pub struct Initialize {
    /// nonce used to create valid program address
    pub nonce: u8,
    /// all swap fees
    pub fees: Fees,
    /// swap curve info for pool, including CurveType and anything
    /// else that may be required
    pub swap_curve: SwapCurve,
    /// nonce used to create valid program address for the pool
    pub pool_nonce: u8,
}

/// Whether two initialize instructions are equal: their curves are compared
/// by their packed bytes.
pub open spec fn spec_initialize_eq(a: Initialize, b: Initialize) -> bool {
    &&& a.nonce == b.nonce
    &&& a.fees == b.fees
    &&& a.swap_curve.packed() == b.swap_curve.packed()
    &&& a.pool_nonce == b.pool_nonce
}

impl PartialEq for Initialize {
    fn eq(&self, other: &Self) -> (r: bool) {
        self.nonce == other.nonce && self.fees == other.fees && self.swap_curve
            == other.swap_curve && self.pool_nonce == other.pool_nonce
    }
}

impl vstd::std_specs::cmp::PartialEqSpecImpl for Initialize {
    open spec fn obeys_eq_spec() -> bool {
        true
    }

    open spec fn eq_spec(&self, other: &Initialize) -> bool {
        spec_initialize_eq(*self, *other)
    }
}

/// Swap instruction data
#[derive(Clone, Copy, Debug, PartialEq, Eq, Structural)]
pub struct Swap {
    /// SOURCE amount to transfer, output to DESTINATION is based on the exchange rate
    pub amount_in: u64,
    /// Minimum amount of DESTINATION token to output, prevents excessive slippage
    pub minimum_amount_out: u64,
    /// Flags defining swap behavior; see SwapFlags
    pub flags: u8,
}

/// DepositAllTokenTypes instruction data
#[derive(Clone, Copy, Debug, PartialEq, Eq, Structural)]
pub struct DepositAllTokenTypes {
    /// Pool token amount to transfer. token_a and token_b amount are set by
    /// the current exchange rate and size of the pool
    pub pool_token_amount: u64,
    /// Maximum token A amount to deposit, prevents excessive slippage
    pub maximum_token_a_amount: u64,
    /// Maximum token B amount to deposit, prevents excessive slippage
    pub maximum_token_b_amount: u64,
}

/// WithdrawAllTokenTypes instruction data
#[derive(Clone, Copy, Debug, PartialEq, Eq, Structural)]
pub struct WithdrawAllTokenTypes {
    /// Amount of pool tokens to burn. User receives an output of token a
    /// and b based on the percentage of the pool tokens that are returned.
    pub pool_token_amount: u64,
    /// Minimum amount of token A to receive, prevents excessive slippage
    pub minimum_token_a_amount: u64,
    /// Minimum amount of token B to receive, prevents excessive slippage
    pub minimum_token_b_amount: u64,
}

/// Deposit one token type, exact amount in instruction data
#[derive(Clone, Copy, Debug, PartialEq, Eq, Structural)]
pub struct DepositSingleTokenTypeExactAmountIn {
    /// Token amount to deposit
    pub source_token_amount: u64,
    /// Pool token amount to receive in exchange. The amount is set by
    /// the current exchange rate and size of the pool
    pub minimum_pool_token_amount: u64,
}

/// WithdrawSingleTokenTypeExactAmountOut instruction data
#[derive(Clone, Copy, Debug, PartialEq, Eq, Structural)]
pub struct WithdrawSingleTokenTypeExactAmountOut {
    /// Amount of token A or B to receive
    pub destination_token_amount: u64,
    /// Maximum amount of pool tokens to burn. User receives an output of token A
    /// or B based on the percentage of the pool tokens that are returned.
    pub maximum_pool_token_amount: u64,
}

/// DeregisterPool instruction data
#[derive(Clone, Copy, Debug, PartialEq, Eq, Structural)]
pub struct DeregisterPool {
    /// The pubkey of the pool to deregister
    pub pool_index: u64,
}

/// Instructions supported by the token swap program.
#[derive(Debug)]
pub enum SwapInstruction {
    ///   Initializes a new swap
    ///
    ///   0. `[signer]` Payer for token swap account creation.
    ///   1. `[writable]` New Token-swap to create PDA - [sorted(mintA, mintB), curve].
    ///   2. `[]` swap authority derived from `create_program_address(&[Token-swap account])`
    ///   3. `[]` token_a Account. Must be non zero, owned by swap authority.
    ///   4. `[]` token_b Account. Must be non zero, owned by swap authority.
    ///   5. `[writable]` Pool Token Mint. Must be empty, owned by swap authority.
    ///   6. `[]` Pool Token Account to deposit trading and withdraw fees.
    ///   Must be empty, not owned by swap authority
    ///   7. `[writable]` Pool Token Account to deposit the initial pool token
    ///   supply.  Must be empty, not owned by swap authority.
    ///   8. '[]` Token program id
    ///   9. '[writable]` Pool registry
    ///   10. '[]` System Program
    ///   11. '[]` Rent
    Initialize(Initialize),
    ///   Swap the tokens in the pool.
    ///
    ///   0. `[]` Token-swap
    ///   1. `[]` swap authority
    ///   2. `[]` user transfer authority
    ///   3. `[writable]` token_(A|B) SOURCE Account, amount is transferable by user transfer authority,
    ///   4. `[writable]` token_(A|B) Base Account to swap INTO.  Must be the SOURCE token.
    ///   5. `[writable]` token_(A|B) Base Account to swap FROM.  Must be the DESTINATION token.
    ///   6. `[writable]` token_(A|B) DESTINATION Account assigned to USER as the owner.
    ///   7. `[writable]` Pool token mint, to generate trading fees
    ///   8. `[writable]` Pool fee account
    ///   9. `[writable]` refund account to unwrap WSOL to
    ///   10. '[]` Token program id
    Swap(Swap),
    ///   Deposit both types of tokens into the pool.  The output is a "pool"
    ///   token representing ownership in the pool. Inputs are converted to
    ///   the current ratio.
    ///
    ///   0. `[]` Token-swap
    ///   1. `[]` swap authority
    ///   2. `[]` user transfer authority
    ///   3. `[writable]` token_a user transfer authority can transfer amount,
    ///   4. `[writable]` token_b user transfer authority can transfer amount,
    ///   5. `[writable]` token_a Base Account to deposit into.
    ///   6. `[writable]` token_b Base Account to deposit into.
    ///   7. `[writable]` Pool MINT account, swap authority is the owner.
    ///   8. `[writable]` Pool Account to deposit the generated tokens, user is the owner.
    ///   9. '[]` Token program id
    DepositAllTokenTypes(DepositAllTokenTypes),
    ///   Withdraw both types of tokens from the pool at the current ratio, given
    ///   pool tokens.  The pool tokens are burned in exchange for an equivalent
    ///   amount of token A and B.
    ///
    ///   0. `[]` Token-swap
    ///   1. `[]` swap authority
    ///   2. `[]` user transfer authority
    ///   3. `[writable]` Pool mint account, swap authority is the owner
    ///   4. `[writable]` SOURCE Pool account, amount is transferable by user transfer authority.
    ///   5. `[writable]` token_a Swap Account to withdraw FROM.
    ///   6. `[writable]` token_b Swap Account to withdraw FROM.
    ///   7. `[writable]` token_a user Account to credit.
    ///   8. `[writable]` token_b user Account to credit.
    ///   9. `[writable]` Fee account, to receive withdrawal fees
    ///   10 '[]` Token program id
    WithdrawAllTokenTypes(WithdrawAllTokenTypes),
    ///   Deposit one type of tokens into the pool.  The output is a "pool" token
    ///   representing ownership into the pool. Input token is converted as if
    ///   a swap and deposit all token types were performed.
    ///
    ///   0. `[]` Token-swap
    ///   1. `[]` swap authority
    ///   2. `[]` user transfer authority
    ///   3. `[writable]` token_(A|B) SOURCE Account, amount is transferable by user transfer authority,
    ///   4. `[writable]` token_a Swap Account, may deposit INTO.
    ///   5. `[writable]` token_b Swap Account, may deposit INTO.
    ///   6. `[writable]` Pool MINT account, swap authority is the owner.
    ///   7. `[writable]` Pool Account to deposit the generated tokens, user is the owner.
    ///   8. '[]` Token program id
    DepositSingleTokenTypeExactAmountIn(DepositSingleTokenTypeExactAmountIn),
    ///   Withdraw one token type from the pool at the current ratio given the
    ///   exact amount out expected.
    ///
    ///   0. `[]` Token-swap
    ///   1. `[]` swap authority
    ///   2. `[]` user transfer authority
    ///   3. `[writable]` Pool mint account, swap authority is the owner
    ///   4. `[writable]` SOURCE Pool account, amount is transferable by user transfer authority.
    ///   5. `[writable]` token_a Swap Account to potentially withdraw from.
    ///   6. `[writable]` token_b Swap Account to potentially withdraw from.
    ///   7. `[writable]` token_(A|B) User Account to credit
    ///   8. `[writable]` Fee account, to receive withdrawal fees
    ///   9. '[]` Token program id
    WithdrawSingleTokenTypeExactAmountOut(WithdrawSingleTokenTypeExactAmountOut),
    ///   Initializes the pool registry
    ///
    /// Accounts expected:
    ///
    /// 0. `[signer]` The account of deployer.
    /// 1. `[writable]` The pool registry account.
    InitializeRegistry(),
    ///   Swap across two pools.
    ///
    ///   0. `[]` Token-swap
    ///   1. `[]` swap authority
    ///   2. `[]` user transfer authority
    ///   3. `[writable]` token_(A|B) SOURCE Account, amount is transferable by user transfer authority,
    ///   4. `[writable]` token_(A|B) Base Account to swap INTO.  Must be the SOURCE token.
    ///   5. `[writable]` token_(A|B) Base Account to swap FROM.  Must be the MIDDLE token.
    ///   6. `[writable]` token_(A|B) MIDDLE Account assigned to USER as the owner.
    ///   7. `[writable]` Pool token mint, to generate trading fees
    ///   8. `[]` Swap 1 fee account
    ///   9. '[]` Token program id
    ///
    ///   10. `[]` Token-swap 2
    ///   11. `[]` swap authority 2
    ///   12. `[writable]` token_(A|B) Base Account to swap INTO.  Must be the MIDDLE token.
    ///   13. `[writable]` token_(A|B) Base Account to swap FROM.  Must be the DESTINATION token.
    ///   14. `[writable]` token_(A|B) DESTINATION Account assigned to USER as the owner.
    ///   15. `[writable]` Pool token mint, to generate trading fees
    ///   16. `[]` Swap 2 fee account
    ///   17. `[writable]` refund account to unwrap WSOL to
    RoutedSwap(Swap),
    ///   Deregisters a pool from the pool registry
    ///
    /// Accounts expected:
    ///
    /// 0. `[signer]` The account of deployer.
    /// 1. `[writable]` The pool registry account.
    DeregisterPool(DeregisterPool),
    ///   Repairs a token swap whose fee account is closed
    ///
    /// Accounts expected:
    ///
    /// 0. `[writable]` The token swap account to repair.
    /// 1. `[]` The old fee account this must be closed.
    /// 2. `[]` The new fee account. This must be the ATA for the mint and the owner fee account.
    RepairClosedFeeAccount(),
}

/// Whether two instructions are equal: the same kind with equal data.
pub open spec fn spec_instruction_eq(a: SwapInstruction, b: SwapInstruction) -> bool {
    match (a, b) {
        (SwapInstruction::Initialize(x), SwapInstruction::Initialize(y)) => spec_initialize_eq(x, y),
        (SwapInstruction::Swap(x), SwapInstruction::Swap(y)) => x == y,
        (SwapInstruction::DepositAllTokenTypes(x), SwapInstruction::DepositAllTokenTypes(y)) => x
            == y,
        (SwapInstruction::WithdrawAllTokenTypes(x), SwapInstruction::WithdrawAllTokenTypes(y)) => x
            == y,
        (
            SwapInstruction::DepositSingleTokenTypeExactAmountIn(x),
            SwapInstruction::DepositSingleTokenTypeExactAmountIn(y),
        ) => x == y,
        (
            SwapInstruction::WithdrawSingleTokenTypeExactAmountOut(x),
            SwapInstruction::WithdrawSingleTokenTypeExactAmountOut(y),
        ) => x == y,
        (SwapInstruction::InitializeRegistry(), SwapInstruction::InitializeRegistry()) => true,
        (SwapInstruction::RoutedSwap(x), SwapInstruction::RoutedSwap(y)) => x == y,
        (SwapInstruction::DeregisterPool(x), SwapInstruction::DeregisterPool(y)) => x == y,
        (SwapInstruction::RepairClosedFeeAccount(), SwapInstruction::RepairClosedFeeAccount()) => true,
        _ => false,
    }
}

impl PartialEq for SwapInstruction {
    fn eq(&self, other: &Self) -> (r: bool) {
        match (self, other) {
            (SwapInstruction::Initialize(x), SwapInstruction::Initialize(y)) => x == y,
            (SwapInstruction::Swap(x), SwapInstruction::Swap(y)) => x == y,
            (SwapInstruction::DepositAllTokenTypes(x), SwapInstruction::DepositAllTokenTypes(y)) => x
                == y,
            (
                SwapInstruction::WithdrawAllTokenTypes(x),
                SwapInstruction::WithdrawAllTokenTypes(y),
            ) => x == y,
            (
                SwapInstruction::DepositSingleTokenTypeExactAmountIn(x),
                SwapInstruction::DepositSingleTokenTypeExactAmountIn(y),
            ) => x == y,
            (
                SwapInstruction::WithdrawSingleTokenTypeExactAmountOut(x),
                SwapInstruction::WithdrawSingleTokenTypeExactAmountOut(y),
            ) => x == y,
            (SwapInstruction::InitializeRegistry(), SwapInstruction::InitializeRegistry()) => true,
            (SwapInstruction::RoutedSwap(x), SwapInstruction::RoutedSwap(y)) => x == y,
            (SwapInstruction::DeregisterPool(x), SwapInstruction::DeregisterPool(y)) => x == y,
            (
                SwapInstruction::RepairClosedFeeAccount(),
                SwapInstruction::RepairClosedFeeAccount(),
            ) => true,
            _ => false,
        }
    }
}

impl vstd::std_specs::cmp::PartialEqSpecImpl for SwapInstruction {
    open spec fn obeys_eq_spec() -> bool {
        true
    }

    open spec fn eq_spec(&self, other: &SwapInstruction) -> bool {
        spec_instruction_eq(*self, *other)
    }
}

/// The error every malformed instruction gives.
pub open spec fn invalid_instruction() -> ProgramError {
    ProgramError::Custom(swap_error_code(SwapError::InvalidInstruction))
}

/// The bytes of an instruction: a tag byte for its kind, then its data,
/// integers little-endian, the fees and the curve in their packed forms.
pub open spec fn spec_pack(ins: SwapInstruction) -> Seq<u8> {
    match ins {
        SwapInstruction::Initialize(i) => seq![0u8, i.nonce] + i.fees.spec_bytes()
            + i.swap_curve.slot_bytes() + seq![i.pool_nonce],
        SwapInstruction::Swap(s) => seq![1u8] + le_u64(s.amount_in) + le_u64(s.minimum_amount_out)
            + seq![s.flags],
        SwapInstruction::DepositAllTokenTypes(d) => seq![2u8] + le_u64(d.pool_token_amount)
            + le_u64(d.maximum_token_a_amount) + le_u64(d.maximum_token_b_amount),
        SwapInstruction::WithdrawAllTokenTypes(w) => seq![3u8] + le_u64(w.pool_token_amount)
            + le_u64(w.minimum_token_a_amount) + le_u64(w.minimum_token_b_amount),
        SwapInstruction::DepositSingleTokenTypeExactAmountIn(d) => seq![4u8] + le_u64(
            d.source_token_amount,
        ) + le_u64(d.minimum_pool_token_amount),
        SwapInstruction::WithdrawSingleTokenTypeExactAmountOut(w) => seq![5u8] + le_u64(
            w.destination_token_amount,
        ) + le_u64(w.maximum_pool_token_amount),
        SwapInstruction::InitializeRegistry() => seq![6u8],
        SwapInstruction::RoutedSwap(s) => seq![7u8] + le_u64(s.amount_in) + le_u64(
            s.minimum_amount_out,
        ) + seq![s.flags],
        SwapInstruction::DeregisterPool(d) => seq![8u8] + le_u64(d.pool_index),
        SwapInstruction::RepairClosedFeeAccount() => seq![9u8],
    }
}

/// Whether `input` starts an initialize instruction whose bytes end before
/// its pool nonce: either the curve is cut short, or it is complete and
/// valid but nothing follows it.  Decoding such bytes panics.
pub open spec fn initialize_truncated(input: Seq<u8>) -> bool {
    &&& input.len() >= 2 + Fees::LEN
    &&& input[0] == 0
    &&& {
        let rest = input.skip(2 + Fees::LEN);
        ||| rest.len() < SwapCurve::SLOT_LEN
        ||| (rest.len() == SwapCurve::SLOT_LEN && SwapCurve::spec_unpack_slot(rest) is Ok)
    }
}

/// What decoding gives: the kind from the tag byte, then its data; a
/// missing byte gives `InvalidInstruction`, and so does an unknown tag.  A
/// swap without its flags byte takes the default flags.
pub open spec fn spec_unpack(input: Seq<u8>) -> Result<SwapInstruction, ProgramError> {
    if input.len() == 0 {
        Err(invalid_instruction())
    } else {
        let tag = input[0];
        let rest = input.skip(1);
        if tag == 0 {
            if rest.len() < 1 + Fees::LEN {
                Err(invalid_instruction())
            } else {
                let fees = Fees::spec_read(rest.skip(1));
                let curve = rest.skip(1 + Fees::LEN);
                match SwapCurve::spec_unpack_slot(curve.take(SwapCurve::SLOT_LEN as int)) {
                    Err(e) => Err(e),
                    Ok(swap_curve) => Ok(
                        SwapInstruction::Initialize(
                            Initialize {
                                nonce: rest[0],
                                fees,
                                swap_curve,
                                pool_nonce: curve[SwapCurve::SLOT_LEN as int],
                            },
                        ),
                    ),
                }
            }
        } else if tag == 1 || tag == 7 {
            if rest.len() < 16 {
                Err(invalid_instruction())
            } else {
                let swap = Swap {
                    amount_in: read_le_u64(rest, 0),
                    minimum_amount_out: read_le_u64(rest, 8),
                    flags: if rest.len() > 16 {
                        rest[16]
                    } else if tag == 1 {
                        swap_flags::spec_default()
                    } else {
                        swap_flags::spec_default_routed()
                    },
                };
                if tag == 1 {
                    Ok(SwapInstruction::Swap(swap))
                } else {
                    Ok(SwapInstruction::RoutedSwap(swap))
                }
            }
        } else if tag == 2 {
            if rest.len() < 24 {
                Err(invalid_instruction())
            } else {
                Ok(
                    SwapInstruction::DepositAllTokenTypes(
                        DepositAllTokenTypes {
                            pool_token_amount: read_le_u64(rest, 0),
                            maximum_token_a_amount: read_le_u64(rest, 8),
                            maximum_token_b_amount: read_le_u64(rest, 16),
                        },
                    ),
                )
            }
        } else if tag == 3 {
            if rest.len() < 24 {
                Err(invalid_instruction())
            } else {
                Ok(
                    SwapInstruction::WithdrawAllTokenTypes(
                        WithdrawAllTokenTypes {
                            pool_token_amount: read_le_u64(rest, 0),
                            minimum_token_a_amount: read_le_u64(rest, 8),
                            minimum_token_b_amount: read_le_u64(rest, 16),
                        },
                    ),
                )
            }
        } else if tag == 4 {
            if rest.len() < 16 {
                Err(invalid_instruction())
            } else {
                Ok(
                    SwapInstruction::DepositSingleTokenTypeExactAmountIn(
                        DepositSingleTokenTypeExactAmountIn {
                            source_token_amount: read_le_u64(rest, 0),
                            minimum_pool_token_amount: read_le_u64(rest, 8),
                        },
                    ),
                )
            }
        } else if tag == 5 {
            if rest.len() < 16 {
                Err(invalid_instruction())
            } else {
                Ok(
                    SwapInstruction::WithdrawSingleTokenTypeExactAmountOut(
                        WithdrawSingleTokenTypeExactAmountOut {
                            destination_token_amount: read_le_u64(rest, 0),
                            maximum_pool_token_amount: read_le_u64(rest, 8),
                        },
                    ),
                )
            }
        } else if tag == 6 {
            Ok(SwapInstruction::InitializeRegistry())
        } else if tag == 8 {
            if rest.len() < 8 {
                Err(invalid_instruction())
            } else {
                Ok(SwapInstruction::DeregisterPool(DeregisterPool { pool_index: read_le_u64(rest, 0) }))
            }
        } else if tag == 9 {
            Ok(SwapInstruction::RepairClosedFeeAccount())
        } else {
            Err(invalid_instruction())
        }
    }
}

impl SwapInstruction {
    /// Unpacks a byte buffer into a [SwapInstruction](enum.SwapInstruction.html).
    pub fn unpack(input: &[u8]) -> (r: Result<Self, ProgramError>)
        requires
            !initialize_truncated(input@),
        ensures
            r == spec_unpack(input@),
    {
        if input.len() == 0 {
            return Err(ProgramError::from(SwapError::InvalidInstruction));
        }
        let tag = input[0];
        let rest = vstd::slice::slice_subrange(input, 1, input.len());
        proof {
            assert(rest@ =~= input@.skip(1));
        }
        match tag {
            0 => {
                if rest.len() == 0 {
                    return Err(ProgramError::from(SwapError::InvalidInstruction));
                }
                let nonce = rest[0];
                let rest = vstd::slice::slice_subrange(rest, 1, rest.len());
                if rest.len() >= Fees::LEN {
                    let fees_bytes = vstd::slice::slice_subrange(rest, 0, Fees::LEN);
                    let fees = Fees::unpack_unchecked(fees_bytes)?;
                    proof {
                        let after_nonce = input@.skip(2);
                        assert(rest@ =~= after_nonce);
                        assert(fees_bytes@ =~= after_nonce.take(48));
                        assert(input@.skip(1).skip(1) =~= after_nonce);
                        lemma_read_take_u64(after_nonce, 48, 0);
                        lemma_read_take_u64(after_nonce, 48, 8);
                        lemma_read_take_u64(after_nonce, 48, 16);
                        lemma_read_take_u64(after_nonce, 48, 24);
                        lemma_read_take_u64(after_nonce, 48, 32);
                        lemma_read_take_u64(after_nonce, 48, 40);
                    }
                    let rest = vstd::slice::slice_subrange(rest, Fees::LEN, rest.len());
                    let curve = vstd::slice::slice_subrange(rest, 0, SwapCurve::SLOT_LEN);
                    proof {
                        assert(rest@ =~= input@.skip(2 + Fees::LEN));
                        assert(input@.skip(1).skip(1 + Fees::LEN) =~= rest@);
                        assert(curve@ =~= rest@.take(33));
                    }
                    let swap_curve = SwapCurve::unpack_from_slot(curve)?;
                    let rest_after = vstd::slice::slice_subrange(
                        rest,
                        SwapCurve::SLOT_LEN,
                        rest.len(),
                    );
                    let pool_nonce = rest_after[0];
                    Ok(SwapInstruction::Initialize(Initialize { nonce, fees, swap_curve, pool_nonce }))
                } else {
                    Err(ProgramError::from(SwapError::InvalidInstruction))
                }
            },
            1 => {
                let (amount_in, rest1) = Self::unpack_u64(rest)?;
                let (minimum_amount_out, rest2) = Self::unpack_u64(rest1)?;
                proof {
                    lemma_read_skip_u64(input@.skip(1), 8, 0);
                    assert(rest2@ =~= input@.skip(1).skip(16));
                }
                let flags = if rest2.len() > 0 {
                    rest2[0]
                } else {
                    swap_flags::default()
                };
                Ok(SwapInstruction::Swap(Swap { amount_in, minimum_amount_out, flags }))
            },
            2 => {
                let (pool_token_amount, rest1) = Self::unpack_u64(rest)?;
                let (maximum_token_a_amount, rest2) = Self::unpack_u64(rest1)?;
                let (maximum_token_b_amount, _rest) = Self::unpack_u64(rest2)?;
                proof {
                    lemma_read_skip_u64(input@.skip(1), 8, 0);
                    assert(rest2@ =~= input@.skip(1).skip(16));
                    lemma_read_skip_u64(input@.skip(1), 16, 0);
                }
                Ok(
                    SwapInstruction::DepositAllTokenTypes(
                        DepositAllTokenTypes {
                            pool_token_amount,
                            maximum_token_a_amount,
                            maximum_token_b_amount,
                        },
                    ),
                )
            },
            3 => {
                let (pool_token_amount, rest1) = Self::unpack_u64(rest)?;
                let (minimum_token_a_amount, rest2) = Self::unpack_u64(rest1)?;
                let (minimum_token_b_amount, _rest) = Self::unpack_u64(rest2)?;
                proof {
                    lemma_read_skip_u64(input@.skip(1), 8, 0);
                    assert(rest2@ =~= input@.skip(1).skip(16));
                    lemma_read_skip_u64(input@.skip(1), 16, 0);
                }
                Ok(
                    SwapInstruction::WithdrawAllTokenTypes(
                        WithdrawAllTokenTypes {
                            pool_token_amount,
                            minimum_token_a_amount,
                            minimum_token_b_amount,
                        },
                    ),
                )
            },
            4 => {
                let (source_token_amount, rest1) = Self::unpack_u64(rest)?;
                let (minimum_pool_token_amount, _rest) = Self::unpack_u64(rest1)?;
                proof {
                    lemma_read_skip_u64(input@.skip(1), 8, 0);
                }
                Ok(
                    SwapInstruction::DepositSingleTokenTypeExactAmountIn(
                        DepositSingleTokenTypeExactAmountIn {
                            source_token_amount,
                            minimum_pool_token_amount,
                        },
                    ),
                )
            },
            5 => {
                let (destination_token_amount, rest1) = Self::unpack_u64(rest)?;
                let (maximum_pool_token_amount, _rest) = Self::unpack_u64(rest1)?;
                proof {
                    lemma_read_skip_u64(input@.skip(1), 8, 0);
                }
                Ok(
                    SwapInstruction::WithdrawSingleTokenTypeExactAmountOut(
                        WithdrawSingleTokenTypeExactAmountOut {
                            destination_token_amount,
                            maximum_pool_token_amount,
                        },
                    ),
                )
            },
            6 => Ok(SwapInstruction::InitializeRegistry()),
            7 => {
                let (amount_in, rest1) = Self::unpack_u64(rest)?;
                let (minimum_amount_out, rest2) = Self::unpack_u64(rest1)?;
                proof {
                    lemma_read_skip_u64(input@.skip(1), 8, 0);
                    assert(rest2@ =~= input@.skip(1).skip(16));
                }
                let flags = if rest2.len() > 0 {
                    rest2[0]
                } else {
                    swap_flags::default_routed()
                };
                Ok(SwapInstruction::RoutedSwap(Swap { amount_in, minimum_amount_out, flags }))
            },
            8 => {
                let (pool_index, _rest) = Self::unpack_u64(rest)?;
                Ok(SwapInstruction::DeregisterPool(DeregisterPool { pool_index }))
            },
            9 => Ok(SwapInstruction::RepairClosedFeeAccount()),
            _ => Err(ProgramError::from(SwapError::InvalidInstruction)),
        }
    }

    /// Reads a little-endian `u64` from the front of `input`, and gives the
    /// bytes after it.
    pub fn unpack_u64(input: &[u8]) -> (r: Result<(u64, &[u8]), ProgramError>)
        ensures
            input@.len() >= 8 ==> (r matches Ok((amount, rest)) && amount == read_le_u64(input@, 0)
                && rest@ == input@.skip(8)),
            input@.len() < 8 ==> r == Err::<(u64, &[u8]), ProgramError>(invalid_instruction()),
    {
        if input.len() >= 8 {
            let amount = read_u64(input, 0);
            let rest = vstd::slice::slice_subrange(input, 8, input.len());
            proof {
                assert(rest@ =~= input@.skip(8));
            }
            Ok((amount, rest))
        } else {
            Err(ProgramError::from(SwapError::InvalidInstruction))
        }
    }
    /// Packs a [SwapInstruction](enum.SwapInstruction.html) into a byte buffer.
    pub fn pack(&self) -> (r: Vec<u8>)
        requires
            *self matches SwapInstruction::Initialize(i) ==> i.swap_curve.fits_slot(),
        ensures
            r@ == spec_pack(*self),
    {
        let mut buf: Vec<u8> = Vec::new();
        match self {
            SwapInstruction::Initialize(init) => {
                buf.push(0);
                buf.push(init.nonce);
                let mut fees_slice: Vec<u8> = vec![0u8; 48];
                Pack::pack_into_slice(&init.fees, fees_slice.as_mut_slice());
                proof {
                    crate::curve::fees::lemma_fees_bytes_roundtrip(init.fees, fees_slice@);
                    assert(fees_slice@ =~= init.fees.spec_bytes());
                }
                append_bytes(&mut buf, fees_slice.as_slice());
                let mut swap_curve_slice: Vec<u8> = vec![0u8; 33];
                proof {
                    crate::curve::base::lemma_swap_curve_slot_len(init.swap_curve);
                }
                init.swap_curve.pack_into_slot(swap_curve_slice.as_mut_slice());
                proof {
                    assert(swap_curve_slice@ =~= init.swap_curve.slot_bytes());
                }
                append_bytes(&mut buf, swap_curve_slice.as_slice());
                buf.push(init.pool_nonce);
            },
            SwapInstruction::Swap(swap) => {
                buf.push(1);
                append_u64(&mut buf, swap.amount_in);
                append_u64(&mut buf, swap.minimum_amount_out);
                buf.push(swap.flags);
            },
            SwapInstruction::DepositAllTokenTypes(deposit) => {
                buf.push(2);
                append_u64(&mut buf, deposit.pool_token_amount);
                append_u64(&mut buf, deposit.maximum_token_a_amount);
                append_u64(&mut buf, deposit.maximum_token_b_amount);
            },
            SwapInstruction::WithdrawAllTokenTypes(withdraw) => {
                buf.push(3);
                append_u64(&mut buf, withdraw.pool_token_amount);
                append_u64(&mut buf, withdraw.minimum_token_a_amount);
                append_u64(&mut buf, withdraw.minimum_token_b_amount);
            },
            SwapInstruction::DepositSingleTokenTypeExactAmountIn(deposit) => {
                buf.push(4);
                append_u64(&mut buf, deposit.source_token_amount);
                append_u64(&mut buf, deposit.minimum_pool_token_amount);
            },
            SwapInstruction::WithdrawSingleTokenTypeExactAmountOut(withdraw) => {
                buf.push(5);
                append_u64(&mut buf, withdraw.destination_token_amount);
                append_u64(&mut buf, withdraw.maximum_pool_token_amount);
            },
            SwapInstruction::InitializeRegistry() => {
                buf.push(6);
            },
            SwapInstruction::RoutedSwap(swap) => {
                buf.push(7);
                append_u64(&mut buf, swap.amount_in);
                append_u64(&mut buf, swap.minimum_amount_out);
                buf.push(swap.flags);
            },
            SwapInstruction::DeregisterPool(deregister) => {
                buf.push(8);
                append_u64(&mut buf, deregister.pool_index);
            },
            SwapInstruction::RepairClosedFeeAccount() => {
                buf.push(9);
            },
        }
        proof {
            assert(buf@ =~= spec_pack(*self));
        }
        buf
    }
}

/// Decoding the bytes of an instruction gives the instruction back; for an
/// initialize instruction its curve must be of the type it names and fit its
/// slot.
pub proof fn lemma_unpack_pack_roundtrip(ins: SwapInstruction)
    requires
        ins matches SwapInstruction::Initialize(i) ==> i.swap_curve.well_formed()
            && i.swap_curve.fits_slot(),
    ensures
        !initialize_truncated(spec_pack(ins)),
        spec_unpack(spec_pack(ins)) == Ok::<SwapInstruction, ProgramError>(ins),
{
    let bytes = spec_pack(ins);
    let rest = bytes.skip(1);
    let empty = Seq::<u8>::empty();
    match ins {
        SwapInstruction::Initialize(i) => {
            let fees_bytes = i.fees.spec_bytes();
            let packed = i.swap_curve.slot_bytes();
            lemma_fees_read_prefix(i.fees, packed + seq![i.pool_nonce]);
            lemma_swap_curve_slot_roundtrip(i.swap_curve);
            assert(rest.skip(1) =~= fees_bytes + (packed + seq![i.pool_nonce]));
            let curve = rest.skip(1 + Fees::LEN);
            assert(curve =~= packed + seq![i.pool_nonce]);
            assert(curve.take(33) =~= packed);
            assert(bytes.skip(2 + Fees::LEN) =~= curve);
        },
        SwapInstruction::Swap(x) => {
            lemma_le_u64_roundtrip(x.amount_in);
            lemma_le_u64_roundtrip(x.minimum_amount_out);
            lemma_read_concat_u64(empty, x.amount_in, le_u64(x.minimum_amount_out) + seq![x.flags]);
            lemma_read_concat_u64(le_u64(x.amount_in), x.minimum_amount_out, seq![x.flags]);
            assert(rest =~= empty + le_u64(x.amount_in) + (le_u64(x.minimum_amount_out) + seq![
                x.flags,
            ]));
            assert(rest =~= le_u64(x.amount_in) + le_u64(x.minimum_amount_out) + seq![x.flags]);
        },
        SwapInstruction::RoutedSwap(x) => {
            lemma_le_u64_roundtrip(x.amount_in);
            lemma_le_u64_roundtrip(x.minimum_amount_out);
            lemma_read_concat_u64(empty, x.amount_in, le_u64(x.minimum_amount_out) + seq![x.flags]);
            lemma_read_concat_u64(le_u64(x.amount_in), x.minimum_amount_out, seq![x.flags]);
            assert(rest =~= empty + le_u64(x.amount_in) + (le_u64(x.minimum_amount_out) + seq![
                x.flags,
            ]));
            assert(rest =~= le_u64(x.amount_in) + le_u64(x.minimum_amount_out) + seq![x.flags]);
        },
        SwapInstruction::DepositAllTokenTypes(x) => {
            lemma_le_u64_roundtrip(x.pool_token_amount);
            lemma_le_u64_roundtrip(x.maximum_token_a_amount);
            lemma_le_u64_roundtrip(x.maximum_token_b_amount);
            let (a, b, c) = (
                le_u64(x.pool_token_amount),
                le_u64(x.maximum_token_a_amount),
                le_u64(x.maximum_token_b_amount),
            );
            lemma_read_concat_u64(empty, x.pool_token_amount, b + c);
            lemma_read_concat_u64(a, x.maximum_token_a_amount, c);
            lemma_read_concat_u64(a + b, x.maximum_token_b_amount, empty);
            assert(rest =~= empty + a + (b + c));
            assert(rest =~= a + b + c);
            assert(rest =~= (a + b) + c + empty);
        },
        SwapInstruction::WithdrawAllTokenTypes(x) => {
            lemma_le_u64_roundtrip(x.pool_token_amount);
            lemma_le_u64_roundtrip(x.minimum_token_a_amount);
            lemma_le_u64_roundtrip(x.minimum_token_b_amount);
            let (a, b, c) = (
                le_u64(x.pool_token_amount),
                le_u64(x.minimum_token_a_amount),
                le_u64(x.minimum_token_b_amount),
            );
            lemma_read_concat_u64(empty, x.pool_token_amount, b + c);
            lemma_read_concat_u64(a, x.minimum_token_a_amount, c);
            lemma_read_concat_u64(a + b, x.minimum_token_b_amount, empty);
            assert(rest =~= empty + a + (b + c));
            assert(rest =~= a + b + c);
            assert(rest =~= (a + b) + c + empty);
        },
        SwapInstruction::DepositSingleTokenTypeExactAmountIn(x) => {
            lemma_le_u64_roundtrip(x.source_token_amount);
            lemma_le_u64_roundtrip(x.minimum_pool_token_amount);
            let (a, b) = (le_u64(x.source_token_amount), le_u64(x.minimum_pool_token_amount));
            lemma_read_concat_u64(empty, x.source_token_amount, b);
            lemma_read_concat_u64(a, x.minimum_pool_token_amount, empty);
            assert(rest =~= empty + a + b);
            assert(rest =~= a + b + empty);
        },
        SwapInstruction::WithdrawSingleTokenTypeExactAmountOut(x) => {
            lemma_le_u64_roundtrip(x.destination_token_amount);
            lemma_le_u64_roundtrip(x.maximum_pool_token_amount);
            let (a, b) = (le_u64(x.destination_token_amount), le_u64(x.maximum_pool_token_amount));
            lemma_read_concat_u64(empty, x.destination_token_amount, b);
            lemma_read_concat_u64(a, x.maximum_pool_token_amount, empty);
            assert(rest =~= empty + a + b);
            assert(rest =~= a + b + empty);
        },
        SwapInstruction::DeregisterPool(x) => {
            lemma_le_u64_roundtrip(x.pool_index);
            lemma_read_concat_u64(empty, x.pool_index, empty);
            assert(rest =~= empty + le_u64(x.pool_index) + empty);
        },
        SwapInstruction::InitializeRegistry() => {},
        SwapInstruction::RepairClosedFeeAccount() => {},
    }
}

/// Describes a single account read or written by a program during
/// instruction execution.
#[derive(Clone, Copy, Debug)]
pub struct AccountMeta {
    /// An account's public key.
    pub pubkey: Pubkey,
    /// True if an `Instruction` requires a `Transaction` signature matching
    /// `pubkey`.
    pub is_signer: bool,
    /// True if the account data or metadata may be mutated during program
    /// execution.
    pub is_writable: bool,
}

/// A writable account.
pub open spec fn writable(pubkey: Pubkey, is_signer: bool) -> AccountMeta {
    AccountMeta { pubkey, is_signer, is_writable: true }
}

/// A read-only account.
pub open spec fn readonly(pubkey: Pubkey, is_signer: bool) -> AccountMeta {
    AccountMeta { pubkey, is_signer, is_writable: false }
}

impl AccountMeta {
    /// Construct metadata for a writable account.
    pub fn new(pubkey: Pubkey, is_signer: bool) -> (r: AccountMeta)
        ensures
            r == writable(pubkey, is_signer),
    {
        AccountMeta { pubkey, is_signer, is_writable: true }
    }

    /// Construct metadata for a read-only account.
    pub fn new_readonly(pubkey: Pubkey, is_signer: bool) -> (r: AccountMeta)
        ensures
            r == readonly(pubkey, is_signer),
    {
        AccountMeta { pubkey, is_signer, is_writable: false }
    }
}

/// A directive for a single invocation of a program: the program, the
/// accounts it reads or writes, and its packed instruction.
#[derive(Debug)]
pub struct Instruction {
    /// Pubkey of the program that executes this instruction.
    pub program_id: Pubkey,
    /// Metadata describing accounts that should be passed to the program.
    pub accounts: Vec<AccountMeta>,
    /// Opaque data passed to the program for its own interpretation.
    pub data: Vec<u8>,
}

/// The address of the system program: 32 zero bytes.
pub fn system_program_id() -> (r: Pubkey)
    ensures
        r == Pubkey::zero(),
{
    Pubkey::default()
}

/// The bytes of the rent sysvar's address,
/// `SysvarRent111111111111111111111111111111111` in base 58.
pub open spec fn rent_sysvar_bytes() -> Seq<u8> {
    seq![
        6u8, 167, 213, 23, 25, 44, 92, 81, 33, 140, 201, 76, 61, 74, 241, 127, 88, 218, 238, 8,
        155, 161, 253, 68, 227, 219, 217, 138, 0, 0, 0, 0,
    ]
}

/// The address of the rent sysvar, from `solana_program::sysvar::rent::id`,
/// which declares it as `SysvarRent111111111111111111111111111111111`; the
/// contract gives the bytes of that base-58 string.
#[verifier::external_body]
fn rent_sysvar_id() -> (r: Pubkey)
    ensures
        r.0@ == rent_sysvar_bytes(),
{
    Pubkey(solana_program::sysvar::rent::id().to_bytes())
}

/// Creates an 'initialize' instruction.
pub fn initialize(
    program_id: &Pubkey,
    token_program_id: &Pubkey,
    payer_pubkey: &Pubkey,
    swap_pubkey: &Pubkey,
    authority_pubkey: &Pubkey,
    token_a_pubkey: &Pubkey,
    token_b_pubkey: &Pubkey,
    pool_pubkey: &Pubkey,
    fee_pubkey: &Pubkey,
    destination_pubkey: &Pubkey,
    nonce: u8,
    fees: Fees,
    swap_curve: SwapCurve,
    pool_registry_pubkey: &Pubkey,
    pool_nonce: u8,
) -> (r: Result<Instruction, ProgramError>)
    requires
        swap_curve.fits_slot(),
    ensures
        r matches Ok(ix) && {
            &&& ix.program_id == *program_id
            &&& ix.data@ == spec_pack(
                SwapInstruction::Initialize(Initialize { nonce, fees, swap_curve, pool_nonce }),
            )
            &&& ix.accounts@.len() == 12
            &&& ix.accounts@.take(10) == seq![
                writable(*payer_pubkey, true),
                writable(*swap_pubkey, false),
                readonly(*authority_pubkey, false),
                readonly(*token_a_pubkey, false),
                readonly(*token_b_pubkey, false),
                writable(*pool_pubkey, false),
                readonly(*fee_pubkey, false),
                writable(*destination_pubkey, false),
                readonly(*token_program_id, false),
                writable(*pool_registry_pubkey, false),
            ]
            &&& ix.accounts@[10] == readonly(Pubkey::zero(), false)
            &&& ix.accounts@[11].pubkey.0@ == rent_sysvar_bytes()
            &&& !ix.accounts@[11].is_signer && !ix.accounts@[11].is_writable
        },
{
    let init_data = SwapInstruction::Initialize(Initialize { nonce, fees, swap_curve, pool_nonce });
    let data = init_data.pack();

    let accounts = vec![
        AccountMeta::new(*payer_pubkey, true),
        AccountMeta::new(*swap_pubkey, false),
        AccountMeta::new_readonly(*authority_pubkey, false),
        AccountMeta::new_readonly(*token_a_pubkey, false),
        AccountMeta::new_readonly(*token_b_pubkey, false),
        AccountMeta::new(*pool_pubkey, false),
        AccountMeta::new_readonly(*fee_pubkey, false),
        AccountMeta::new(*destination_pubkey, false),
        AccountMeta::new_readonly(*token_program_id, false),
        AccountMeta::new(*pool_registry_pubkey, false),
        AccountMeta::new_readonly(system_program_id(), false),
        AccountMeta::new_readonly(rent_sysvar_id(), false),
    ];
    proof {
        assert(accounts@.take(10) =~= seq![
            writable(*payer_pubkey, true),
            writable(*swap_pubkey, false),
            readonly(*authority_pubkey, false),
            readonly(*token_a_pubkey, false),
            readonly(*token_b_pubkey, false),
            writable(*pool_pubkey, false),
            readonly(*fee_pubkey, false),
            writable(*destination_pubkey, false),
            readonly(*token_program_id, false),
            writable(*pool_registry_pubkey, false),
        ]);
    }

    Ok(Instruction { program_id: *program_id, accounts, data })
}

/// Creates a 'deposit_all_token_types' instruction.
pub fn deposit_all_token_types(
    program_id: &Pubkey,
    token_program_id: &Pubkey,
    swap_pubkey: &Pubkey,
    authority_pubkey: &Pubkey,
    user_transfer_authority_pubkey: &Pubkey,
    deposit_token_a_pubkey: &Pubkey,
    deposit_token_b_pubkey: &Pubkey,
    swap_token_a_pubkey: &Pubkey,
    swap_token_b_pubkey: &Pubkey,
    pool_mint_pubkey: &Pubkey,
    destination_pubkey: &Pubkey,
    instruction: DepositAllTokenTypes,
) -> (r: Result<Instruction, ProgramError>)
    ensures
        r matches Ok(ix) && {
            &&& ix.program_id == *program_id
            &&& ix.data@ == spec_pack(SwapInstruction::DepositAllTokenTypes(instruction))
            &&& ix.accounts@ == seq![
                readonly(*swap_pubkey, false),
                readonly(*authority_pubkey, false),
                readonly(*user_transfer_authority_pubkey, true),
                writable(*deposit_token_a_pubkey, false),
                writable(*deposit_token_b_pubkey, false),
                writable(*swap_token_a_pubkey, false),
                writable(*swap_token_b_pubkey, false),
                writable(*pool_mint_pubkey, false),
                writable(*destination_pubkey, false),
                readonly(*token_program_id, false),
            ]
        },
{
    let data = SwapInstruction::DepositAllTokenTypes(instruction).pack();

    let accounts = vec![
        AccountMeta::new_readonly(*swap_pubkey, false),
        AccountMeta::new_readonly(*authority_pubkey, false),
        AccountMeta::new_readonly(*user_transfer_authority_pubkey, true),
        AccountMeta::new(*deposit_token_a_pubkey, false),
        AccountMeta::new(*deposit_token_b_pubkey, false),
        AccountMeta::new(*swap_token_a_pubkey, false),
        AccountMeta::new(*swap_token_b_pubkey, false),
        AccountMeta::new(*pool_mint_pubkey, false),
        AccountMeta::new(*destination_pubkey, false),
        AccountMeta::new_readonly(*token_program_id, false),
    ];

    Ok(Instruction { program_id: *program_id, accounts, data })
}

/// Creates a 'withdraw_all_token_types' instruction.
pub fn withdraw_all_token_types(
    program_id: &Pubkey,
    token_program_id: &Pubkey,
    swap_pubkey: &Pubkey,
    authority_pubkey: &Pubkey,
    user_transfer_authority_pubkey: &Pubkey,
    pool_mint_pubkey: &Pubkey,
    fee_account_pubkey: &Pubkey,
    source_pubkey: &Pubkey,
    swap_token_a_pubkey: &Pubkey,
    swap_token_b_pubkey: &Pubkey,
    destination_token_a_pubkey: &Pubkey,
    destination_token_b_pubkey: &Pubkey,
    instruction: WithdrawAllTokenTypes,
) -> (r: Result<Instruction, ProgramError>)
    ensures
        r matches Ok(ix) && {
            &&& ix.program_id == *program_id
            &&& ix.data@ == spec_pack(SwapInstruction::WithdrawAllTokenTypes(instruction))
            &&& ix.accounts@ == seq![
                readonly(*swap_pubkey, false),
                readonly(*authority_pubkey, false),
                readonly(*user_transfer_authority_pubkey, true),
                writable(*pool_mint_pubkey, false),
                writable(*source_pubkey, false),
                writable(*swap_token_a_pubkey, false),
                writable(*swap_token_b_pubkey, false),
                writable(*destination_token_a_pubkey, false),
                writable(*destination_token_b_pubkey, false),
                writable(*fee_account_pubkey, false),
                readonly(*token_program_id, false),
            ]
        },
{
    let data = SwapInstruction::WithdrawAllTokenTypes(instruction).pack();

    let accounts = vec![
        AccountMeta::new_readonly(*swap_pubkey, false),
        AccountMeta::new_readonly(*authority_pubkey, false),
        AccountMeta::new_readonly(*user_transfer_authority_pubkey, true),
        AccountMeta::new(*pool_mint_pubkey, false),
        AccountMeta::new(*source_pubkey, false),
        AccountMeta::new(*swap_token_a_pubkey, false),
        AccountMeta::new(*swap_token_b_pubkey, false),
        AccountMeta::new(*destination_token_a_pubkey, false),
        AccountMeta::new(*destination_token_b_pubkey, false),
        AccountMeta::new(*fee_account_pubkey, false),
        AccountMeta::new_readonly(*token_program_id, false),
    ];

    Ok(Instruction { program_id: *program_id, accounts, data })
}

/// Creates a 'deposit_single_token_type_exact_amount_in' instruction.
pub fn deposit_single_token_type_exact_amount_in(
    program_id: &Pubkey,
    token_program_id: &Pubkey,
    swap_pubkey: &Pubkey,
    authority_pubkey: &Pubkey,
    user_transfer_authority_pubkey: &Pubkey,
    source_token_pubkey: &Pubkey,
    swap_token_a_pubkey: &Pubkey,
    swap_token_b_pubkey: &Pubkey,
    pool_mint_pubkey: &Pubkey,
    destination_pubkey: &Pubkey,
    instruction: DepositSingleTokenTypeExactAmountIn,
) -> (r: Result<Instruction, ProgramError>)
    ensures
        r matches Ok(ix) && {
            &&& ix.program_id == *program_id
            &&& ix.data@ == spec_pack(
                SwapInstruction::DepositSingleTokenTypeExactAmountIn(instruction),
            )
            &&& ix.accounts@ == seq![
                readonly(*swap_pubkey, false),
                readonly(*authority_pubkey, false),
                readonly(*user_transfer_authority_pubkey, true),
                writable(*source_token_pubkey, false),
                writable(*swap_token_a_pubkey, false),
                writable(*swap_token_b_pubkey, false),
                writable(*pool_mint_pubkey, false),
                writable(*destination_pubkey, false),
                readonly(*token_program_id, false),
            ]
        },
{
    let data = SwapInstruction::DepositSingleTokenTypeExactAmountIn(instruction).pack();

    let accounts = vec![
        AccountMeta::new_readonly(*swap_pubkey, false),
        AccountMeta::new_readonly(*authority_pubkey, false),
        AccountMeta::new_readonly(*user_transfer_authority_pubkey, true),
        AccountMeta::new(*source_token_pubkey, false),
        AccountMeta::new(*swap_token_a_pubkey, false),
        AccountMeta::new(*swap_token_b_pubkey, false),
        AccountMeta::new(*pool_mint_pubkey, false),
        AccountMeta::new(*destination_pubkey, false),
        AccountMeta::new_readonly(*token_program_id, false),
    ];

    Ok(Instruction { program_id: *program_id, accounts, data })
}

/// Creates a 'withdraw_single_token_type_exact_amount_out' instruction.
pub fn withdraw_single_token_type_exact_amount_out(
    program_id: &Pubkey,
    token_program_id: &Pubkey,
    swap_pubkey: &Pubkey,
    authority_pubkey: &Pubkey,
    user_transfer_authority_pubkey: &Pubkey,
    pool_mint_pubkey: &Pubkey,
    fee_account_pubkey: &Pubkey,
    pool_token_source_pubkey: &Pubkey,
    swap_token_a_pubkey: &Pubkey,
    swap_token_b_pubkey: &Pubkey,
    destination_pubkey: &Pubkey,
    instruction: WithdrawSingleTokenTypeExactAmountOut,
) -> (r: Result<Instruction, ProgramError>)
    ensures
        r matches Ok(ix) && {
            &&& ix.program_id == *program_id
            &&& ix.data@ == spec_pack(
                SwapInstruction::WithdrawSingleTokenTypeExactAmountOut(instruction),
            )
            &&& ix.accounts@ == seq![
                readonly(*swap_pubkey, false),
                readonly(*authority_pubkey, false),
                readonly(*user_transfer_authority_pubkey, true),
                writable(*pool_mint_pubkey, false),
                writable(*pool_token_source_pubkey, false),
                writable(*swap_token_a_pubkey, false),
                writable(*swap_token_b_pubkey, false),
                writable(*destination_pubkey, false),
                writable(*fee_account_pubkey, false),
                readonly(*token_program_id, false),
            ]
        },
{
    let data = SwapInstruction::WithdrawSingleTokenTypeExactAmountOut(instruction).pack();

    let accounts = vec![
        AccountMeta::new_readonly(*swap_pubkey, false),
        AccountMeta::new_readonly(*authority_pubkey, false),
        AccountMeta::new_readonly(*user_transfer_authority_pubkey, true),
        AccountMeta::new(*pool_mint_pubkey, false),
        AccountMeta::new(*pool_token_source_pubkey, false),
        AccountMeta::new(*swap_token_a_pubkey, false),
        AccountMeta::new(*swap_token_b_pubkey, false),
        AccountMeta::new(*destination_pubkey, false),
        AccountMeta::new(*fee_account_pubkey, false),
        AccountMeta::new_readonly(*token_program_id, false),
    ];

    Ok(Instruction { program_id: *program_id, accounts, data })
}

/// The accounts of a swap instruction, with the host fee account last when
/// there is one.
pub open spec fn swap_accounts(
    token_program_id: Pubkey,
    swap_pubkey: Pubkey,
    authority_pubkey: Pubkey,
    user_transfer_authority_pubkey: Pubkey,
    source_pubkey: Pubkey,
    swap_source_pubkey: Pubkey,
    swap_destination_pubkey: Pubkey,
    destination_pubkey: Pubkey,
    pool_mint_pubkey: Pubkey,
    pool_fee_pubkey: Pubkey,
    host_fee_pubkey: Option<Pubkey>,
    refund_pubkey: Pubkey,
) -> Seq<AccountMeta> {
    let accounts = seq![
        readonly(swap_pubkey, false),
        readonly(authority_pubkey, false),
        readonly(user_transfer_authority_pubkey, true),
        writable(source_pubkey, false),
        writable(swap_source_pubkey, false),
        writable(swap_destination_pubkey, false),
        writable(destination_pubkey, false),
        writable(pool_mint_pubkey, false),
        writable(pool_fee_pubkey, false),
        writable(refund_pubkey, false),
        readonly(token_program_id, false),
    ];
    match host_fee_pubkey {
        Some(host) => accounts.push(writable(host, false)),
        None => accounts,
    }
}

/// Creates a 'swap' instruction.
pub fn swap(
    program_id: &Pubkey,
    token_program_id: &Pubkey,
    swap_pubkey: &Pubkey,
    authority_pubkey: &Pubkey,
    user_transfer_authority_pubkey: &Pubkey,
    source_pubkey: &Pubkey,
    swap_source_pubkey: &Pubkey,
    swap_destination_pubkey: &Pubkey,
    destination_pubkey: &Pubkey,
    pool_mint_pubkey: &Pubkey,
    pool_fee_pubkey: &Pubkey,
    host_fee_pubkey: Option<&Pubkey>,
    refund_pubkey: &Pubkey,
    instruction: Swap,
) -> (r: Result<Instruction, ProgramError>)
    ensures
        r matches Ok(ix) && {
            &&& ix.program_id == *program_id
            &&& ix.data@ == spec_pack(SwapInstruction::Swap(instruction))
            &&& ix.accounts@ == swap_accounts(
                *token_program_id,
                *swap_pubkey,
                *authority_pubkey,
                *user_transfer_authority_pubkey,
                *source_pubkey,
                *swap_source_pubkey,
                *swap_destination_pubkey,
                *destination_pubkey,
                *pool_mint_pubkey,
                *pool_fee_pubkey,
                match host_fee_pubkey {
                    Some(k) => Some(*k),
                    None => None,
                },
                *refund_pubkey,
            )
        },
{
    let data = SwapInstruction::Swap(instruction).pack();

    let mut accounts = vec![
        AccountMeta::new_readonly(*swap_pubkey, false),
        AccountMeta::new_readonly(*authority_pubkey, false),
        AccountMeta::new_readonly(*user_transfer_authority_pubkey, true),
        AccountMeta::new(*source_pubkey, false),
        AccountMeta::new(*swap_source_pubkey, false),
        AccountMeta::new(*swap_destination_pubkey, false),
        AccountMeta::new(*destination_pubkey, false),
        AccountMeta::new(*pool_mint_pubkey, false),
        AccountMeta::new(*pool_fee_pubkey, false),
        AccountMeta::new(*refund_pubkey, false),
        AccountMeta::new_readonly(*token_program_id, false),
    ];
    if let Some(host_fee_pubkey) = host_fee_pubkey {
        accounts.push(AccountMeta::new(*host_fee_pubkey, false));
    }

    Ok(Instruction { program_id: *program_id, accounts, data })
}

/// Creates a 'routedswap' instruction.
pub fn routed_swap(
    program_id: &Pubkey,
    token_program_id: &Pubkey,
    swap_pubkey: &Pubkey,
    authority_pubkey: &Pubkey,
    user_transfer_authority_pubkey: &Pubkey,
    source_pubkey: &Pubkey,
    swap_source_pubkey: &Pubkey,
    swap_destination_pubkey: &Pubkey,
    destination_pubkey: &Pubkey,
    pool_mint_pubkey: &Pubkey,
    pool_fee_pubkey: &Pubkey,
    swap_pubkey2: &Pubkey,
    authority_pubkey2: &Pubkey,
    swap_source_pubkey2: &Pubkey,
    swap_destination_pubkey2: &Pubkey,
    destination_pubkey2: &Pubkey,
    pool_mint_pubkey2: &Pubkey,
    pool_fee_pubkey2: &Pubkey,
    refund_pubkey: &Pubkey,
    instruction: Swap,
) -> (r: Result<Instruction, ProgramError>)
    ensures
        r matches Ok(ix) && {
            &&& ix.program_id == *program_id
            &&& ix.data@ == spec_pack(SwapInstruction::RoutedSwap(instruction))
            &&& ix.accounts@ == seq![
                readonly(*swap_pubkey, false),
                readonly(*authority_pubkey, false),
                readonly(*user_transfer_authority_pubkey, true),
                writable(*source_pubkey, false),
                writable(*swap_source_pubkey, false),
                writable(*swap_destination_pubkey, false),
                writable(*destination_pubkey, false),
                writable(*pool_mint_pubkey, false),
                writable(*pool_fee_pubkey, false),
                readonly(*token_program_id, false),
                readonly(*swap_pubkey2, false),
                readonly(*authority_pubkey2, false),
                writable(*swap_source_pubkey2, false),
                writable(*swap_destination_pubkey2, false),
                writable(*destination_pubkey2, false),
                writable(*pool_mint_pubkey2, false),
                writable(*pool_fee_pubkey2, false),
                writable(*refund_pubkey, false),
            ]
        },
{
    let data = SwapInstruction::RoutedSwap(instruction).pack();

    let accounts = vec![
        AccountMeta::new_readonly(*swap_pubkey, false),
        AccountMeta::new_readonly(*authority_pubkey, false),
        AccountMeta::new_readonly(*user_transfer_authority_pubkey, true),
        AccountMeta::new(*source_pubkey, false),
        AccountMeta::new(*swap_source_pubkey, false),
        AccountMeta::new(*swap_destination_pubkey, false),
        AccountMeta::new(*destination_pubkey, false),
        AccountMeta::new(*pool_mint_pubkey, false),
        AccountMeta::new(*pool_fee_pubkey, false),
        AccountMeta::new_readonly(*token_program_id, false),
        AccountMeta::new_readonly(*swap_pubkey2, false),
        AccountMeta::new_readonly(*authority_pubkey2, false),
        AccountMeta::new(*swap_source_pubkey2, false),
        AccountMeta::new(*swap_destination_pubkey2, false),
        AccountMeta::new(*destination_pubkey2, false),
        AccountMeta::new(*pool_mint_pubkey2, false),
        AccountMeta::new(*pool_fee_pubkey2, false),
        AccountMeta::new(*refund_pubkey, false),
    ];

    Ok(Instruction { program_id: *program_id, accounts, data })
}

/// Creates an 'initialize_registry' instruction.
pub fn initialize_registry(program_id: &Pubkey, payer: &Pubkey, pool_registry_pubkey: &Pubkey) -> (r:
    Result<Instruction, ProgramError>)
    ensures
        r matches Ok(ix) && {
            &&& ix.program_id == *program_id
            &&& ix.data@ == spec_pack(SwapInstruction::InitializeRegistry())
            &&& ix.accounts@ == seq![writable(*payer, true), writable(*pool_registry_pubkey, false)]
        },
{
    let init_data = SwapInstruction::InitializeRegistry();
    let data = init_data.pack();

    let accounts = vec![
        AccountMeta::new(*payer, true),
        AccountMeta::new(*pool_registry_pubkey, false),
    ];

    Ok(Instruction { program_id: *program_id, accounts, data })
}

/// Creates an 'deregister_pool' instruction.
pub fn deregister_pool(
    program_id: &Pubkey,
    payer: &Pubkey,
    pool_registry_pubkey: &Pubkey,
    pool_index: u64,
) -> (r: Result<Instruction, ProgramError>)
    ensures
        r matches Ok(ix) && {
            &&& ix.program_id == *program_id
            &&& ix.data@ == spec_pack(SwapInstruction::DeregisterPool(DeregisterPool { pool_index }))
            &&& ix.accounts@ == seq![writable(*payer, true), writable(*pool_registry_pubkey, false)]
        },
{
    let init_data = SwapInstruction::DeregisterPool(DeregisterPool { pool_index });
    let data = init_data.pack();

    let accounts = vec![
        AccountMeta::new(*payer, true),
        AccountMeta::new(*pool_registry_pubkey, false),
    ];

    Ok(Instruction { program_id: *program_id, accounts, data })
}

/// Creates an 'repair_closed_fee_account' instruction.
pub fn repair_closed_fee_account(
    program_id: &Pubkey,
    token_swap: &Pubkey,
    old_fee_account: &Pubkey,
    new_fee_account: &Pubkey,
) -> (r: Result<Instruction, ProgramError>)
    ensures
        r matches Ok(ix) && {
            &&& ix.program_id == *program_id
            &&& ix.data@ == spec_pack(SwapInstruction::RepairClosedFeeAccount())
            &&& ix.accounts@ == seq![
                writable(*token_swap, false),
                writable(*old_fee_account, false),
                writable(*new_fee_account, false),
            ]
        },
{
    let init_data = SwapInstruction::RepairClosedFeeAccount();
    let data = init_data.pack();

    let accounts = vec![
        AccountMeta::new(*token_swap, false),
        AccountMeta::new(*old_fee_account, false),
        AccountMeta::new(*new_fee_account, false),
    ];

    Ok(Instruction { program_id: *program_id, accounts, data })
}

} // verus!
