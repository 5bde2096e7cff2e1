//! Error types

use vstd::prelude::*;

verus! {

/// Errors that may be returned by the token-swap program.
#[derive(Clone, Copy, Debug, PartialEq, Eq, Structural)]
pub enum SwapError {
    /// The account cannot be initialized because it is already being used.
    AlreadyInUse,
    /// The program address provided doesn't match the value generated by the program.
    InvalidProgramAddress,
    /// The owner of the input isn't set to the program address generated by the program.
    InvalidOwner,
    /// The owner of the pool token output is set to the program address generated by the program.
    InvalidOutputOwner,
    /// The deserialization of the account returned something besides State::Mint.
    ExpectedMint,
    /// The deserialization of the account returned something besides State::Account.
    ExpectedAccount,
    /// The input token account is empty.
    EmptySupply,
    /// The pool token mint has a non-zero supply.
    InvalidSupply,
    /// Swap input token accounts have the same mint
    RepeatedMint,
    /// The provided token account has a delegate.
    InvalidDelegate,
    /// The input token is invalid for swap.
    InvalidInput,
    /// Address of the provided swap token account is incorrect.
    IncorrectSwapAccount,
    /// Address of the provided pool token mint is incorrect
    IncorrectPoolMint,
    /// The output token is invalid for swap.
    InvalidOutput,
    /// General calculation failure due to overflow or underflow
    CalculationFailure,
    /// Invalid instruction number passed in.
    InvalidInstruction,
    /// Swap instruction exceeds desired slippage limit
    ExceededSlippage,
    /// The provided token account has a close authority.
    InvalidCloseAuthority,
    /// The pool token mint has a freeze authority.
    InvalidFreezeAuthority,
    /// The pool fee token account is incorrect
    IncorrectFeeAccount,
    /// Given pool token amount results in zero trading tokens
    ZeroTradingTokens,
    /// The fee calculation failed due to overflow, underflow, or unexpected 0
    FeeCalculationFailure,
    /// ConversionFailure
    ConversionFailure,
    /// The provided fee does not match the program owner's constraints
    InvalidFee,
    /// The provided token program does not match the token program expected by the swap
    IncorrectTokenProgramId,
    /// The provided curve type is not supported by the program owner
    UnsupportedCurveType,
    /// The provided curve parameters are invalid
    InvalidCurve,
    /// The operation cannot be performed on the given curve
    UnsupportedCurveOperation,
    /// The provided order book account is not a valid order book
    InvalidOrderbook,
    /// The accounts provided for the curve do not match the curve
    InvalidCurveAccounts,
}

/// The numeric code of a swap error, as carried by `ProgramError::Custom`.
pub open spec fn swap_error_code(e: SwapError) -> u32 {
    match e {
        SwapError::AlreadyInUse => 0,
        SwapError::InvalidProgramAddress => 1,
        SwapError::InvalidOwner => 2,
        SwapError::InvalidOutputOwner => 3,
        SwapError::ExpectedMint => 4,
        SwapError::ExpectedAccount => 5,
        SwapError::EmptySupply => 6,
        SwapError::InvalidSupply => 7,
        SwapError::RepeatedMint => 8,
        SwapError::InvalidDelegate => 9,
        SwapError::InvalidInput => 10,
        SwapError::IncorrectSwapAccount => 11,
        SwapError::IncorrectPoolMint => 12,
        SwapError::InvalidOutput => 13,
        SwapError::CalculationFailure => 14,
        SwapError::InvalidInstruction => 15,
        SwapError::ExceededSlippage => 16,
        SwapError::InvalidCloseAuthority => 17,
        SwapError::InvalidFreezeAuthority => 18,
        SwapError::IncorrectFeeAccount => 19,
        SwapError::ZeroTradingTokens => 20,
        SwapError::FeeCalculationFailure => 21,
        SwapError::ConversionFailure => 22,
        SwapError::InvalidFee => 23,
        SwapError::IncorrectTokenProgramId => 24,
        SwapError::UnsupportedCurveType => 25,
        SwapError::InvalidCurve => 26,
        SwapError::UnsupportedCurveOperation => 27,
        SwapError::InvalidOrderbook => 28,
        SwapError::InvalidCurveAccounts => 29,
    }
}

impl SwapError {
    /// The numeric code of this error.
    pub fn code(&self) -> (c: u32)
        ensures
            c == swap_error_code(*self),
    {
        match self {
            SwapError::AlreadyInUse => 0,
            SwapError::InvalidProgramAddress => 1,
            SwapError::InvalidOwner => 2,
            SwapError::InvalidOutputOwner => 3,
            SwapError::ExpectedMint => 4,
            SwapError::ExpectedAccount => 5,
            SwapError::EmptySupply => 6,
            SwapError::InvalidSupply => 7,
            SwapError::RepeatedMint => 8,
            SwapError::InvalidDelegate => 9,
            SwapError::InvalidInput => 10,
            SwapError::IncorrectSwapAccount => 11,
            SwapError::IncorrectPoolMint => 12,
            SwapError::InvalidOutput => 13,
            SwapError::CalculationFailure => 14,
            SwapError::InvalidInstruction => 15,
            SwapError::ExceededSlippage => 16,
            SwapError::InvalidCloseAuthority => 17,
            SwapError::InvalidFreezeAuthority => 18,
            SwapError::IncorrectFeeAccount => 19,
            SwapError::ZeroTradingTokens => 20,
            SwapError::FeeCalculationFailure => 21,
            SwapError::ConversionFailure => 22,
            SwapError::InvalidFee => 23,
            SwapError::IncorrectTokenProgramId => 24,
            SwapError::UnsupportedCurveType => 25,
            SwapError::InvalidCurve => 26,
            SwapError::UnsupportedCurveOperation => 27,
            SwapError::InvalidOrderbook => 28,
            SwapError::InvalidCurveAccounts => 29,
        }
    }
}

/// The errors a program may return to the runtime: the builtin conditions
/// that this program reports, and a custom code for each `SwapError`.
#[derive(Clone, Copy, Debug, PartialEq, Eq, Structural)]
pub enum ProgramError {
    /// A program-specific error, carrying its numeric code
    Custom(u32),
    /// The arguments provided to a program were invalid
    InvalidArgument,
    /// An account's data contents was invalid
    InvalidAccountData,
    /// An account's data was too small
    AccountDataTooSmall,
    /// An account expected to be initialized was not
    UninitializedAccount,
    /// The account did not have the expected program id
    IncorrectProgramId,
    /// An instruction named fewer accounts than it needs
    NotEnoughAccountKeys,
}

impl From<SwapError> for ProgramError {
    fn from(e: SwapError) -> (r: Self) {
        ProgramError::Custom(e.code())
    }
}

impl vstd::std_specs::convert::FromSpecImpl<SwapError> for ProgramError {
    open spec fn obeys_from_spec() -> bool {
        true
    }

    open spec fn from_spec(e: SwapError) -> ProgramError {
        ProgramError::Custom(swap_error_code(e))
    }
}

} // verus!
