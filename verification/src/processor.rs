//! Program state processor: the checks on the accounts an instruction names,
//! and the conversions its amounts go through.

use vstd::prelude::*;

use crate::curve::calculator::{div_rounded, CurveCalculator, RoundDirection, TradeDirection};
use crate::curve::fees::Fees;
use crate::curve::shared::spec_calculate_fee;
use crate::error::{swap_error_code, ProgramError, SwapError};
use crate::pubkey::Pubkey;
use crate::curve::base::SwapCurve;
use crate::state::{SwapState, SwapV1, SwapVersion};

verus! {

/// The address that `solana_program::pubkey::Pubkey::create_program_address`
/// derives under the program `program_id` from the two seeds `my_info` and
/// `[bump_seed]`, or `None` where it refuses them (the hash lies on the
/// curve).
pub uninterp spec fn derived_address(my_info: Seq<u8>, bump_seed: u8, program_id: Seq<u8>) -> Option<
    Seq<u8>,
>;

/// The bytes of an optional address.
pub open spec fn opt_key_bytes(k: Option<Pubkey>) -> Option<Seq<u8>> {
    match k {
        Some(k) => Some(k.0@),
        None => None,
    }
}

/// Derives a program address with `solana_program::pubkey::Pubkey::create_program_address`
/// from the seeds `my_info` and `[bump_seed]`; the contract names its result
/// and says nothing more of the hash it computes.
#[verifier::external_body]
fn create_program_address(my_info: &Pubkey, bump_seed: u8, program_id: &Pubkey) -> (r: Option<
    Pubkey,
>)
    ensures
        opt_key_bytes(r) == derived_address(my_info.0@, bump_seed, program_id.0@),
{
    let program_id = solana_program::pubkey::Pubkey::new_from_array(program_id.0);
    match solana_program::pubkey::Pubkey::create_program_address(
        &[&my_info.0[..], &[bump_seed]],
        &program_id,
    ) {
        Ok(address) => Some(Pubkey(address.to_bytes())),
        Err(_) => None,
    }
}

/// Whether `bump` is the bump seed that a search from 255 down to 1 meets
/// first: it derives an address from the seeds `my_info` and `[bump]`, and
/// no larger bump seed derives one.
pub open spec fn is_first_bump(my_info: Seq<u8>, program_id: Seq<u8>, bump: u8) -> bool {
    &&& 1 <= bump
    &&& derived_address(my_info, bump, program_id) is Some
    &&& forall|b: u8| bump < b ==> #[trigger] derived_address(my_info, b, program_id) is None
}

/// The bump seed that the search for a program address finds, if any.
pub open spec fn found_bump(my_info: Seq<u8>, program_id: Seq<u8>) -> Option<u8> {
    if exists|b: u8| is_first_bump(my_info, program_id, b) {
        Some(choose|b: u8| is_first_bump(my_info, program_id, b))
    } else {
        None
    }
}

/// Searches, with `solana_program::pubkey::Pubkey::try_find_program_address`,
/// the bump seeds from 255 down to 1 for the first with which the seeds
/// `my_info` and `[bump]` derive an address, and gives that address and bump
/// seed; `None` where none does.
#[verifier::external_body]
fn try_find_program_address(my_info: &Pubkey, program_id: &Pubkey) -> (r: Option<(Pubkey, u8)>)
    ensures
        match r {
            Some((address, bump)) => is_first_bump(my_info.0@, program_id.0@, bump)
                && derived_address(my_info.0@, bump, program_id.0@) == Some(address.0@),
            None => forall|b: u8|
                1 <= b ==> #[trigger] derived_address(my_info.0@, b, program_id.0@) is None,
        },
{
    let program_id = solana_program::pubkey::Pubkey::new_from_array(program_id.0);
    match solana_program::pubkey::Pubkey::try_find_program_address(&[&my_info.0[..]], &program_id) {
        Some((address, bump)) => Some((Pubkey(address.to_bytes()), bump)),
        None => None,
    }
}

/// The error a swap error becomes.
pub open spec fn swap_err(e: SwapError) -> ProgramError {
    ProgramError::Custom(swap_error_code(e))
}

/// Program state handler.
pub struct Processor {}

/// What checking the accounts of an instruction on a pool gives: the first
/// check that fails, in the order the program makes them.
pub open spec fn spec_check_accounts(
    token_swap: SwapV1,
    program_id: Pubkey,
    swap_account_key: Pubkey,
    swap_account_owner: Pubkey,
    authority: Pubkey,
    token_a: Pubkey,
    token_b: Pubkey,
    pool_mint: Pubkey,
    pool_token_program: Pubkey,
    user_token_a: Option<Pubkey>,
    user_token_b: Option<Pubkey>,
    pool_fee_account: Option<Pubkey>,
) -> Result<(), ProgramError> {
    if swap_account_owner != program_id {
        Err(ProgramError::IncorrectProgramId)
    } else if derived_address(swap_account_key.0@, token_swap.nonce, program_id.0@) != Some(
        authority.0@,
    ) {
        Err(swap_err(SwapError::InvalidProgramAddress))
    } else if token_a != token_swap.token_a {
        Err(swap_err(SwapError::IncorrectSwapAccount))
    } else if token_b != token_swap.token_b {
        Err(swap_err(SwapError::IncorrectSwapAccount))
    } else if pool_mint != token_swap.pool_mint {
        Err(swap_err(SwapError::IncorrectPoolMint))
    } else if pool_token_program != token_swap.token_program_id {
        Err(swap_err(SwapError::IncorrectTokenProgramId))
    } else if user_token_a == Some(token_a) {
        Err(swap_err(SwapError::InvalidInput))
    } else if user_token_b == Some(token_b) {
        Err(swap_err(SwapError::InvalidInput))
    } else if pool_fee_account is Some && pool_fee_account != Some(token_swap.pool_fee_account) {
        Err(swap_err(SwapError::IncorrectFeeAccount))
    } else {
        Ok(())
    }
}

/// What checking the accounts of a swap gives: the first check that fails,
/// in the order the program makes them, else the direction of the trade,
/// from token A when the pool's source account is its token A account.
pub open spec fn spec_check_swap_accounts(
    token_swap: SwapV1,
    program_id: Pubkey,
    swap_account_key: Pubkey,
    swap_account_owner: Pubkey,
    authority: Pubkey,
    source: Pubkey,
    swap_source: Pubkey,
    swap_destination: Pubkey,
    destination: Pubkey,
    pool_mint: Pubkey,
    pool_fee_account: Pubkey,
    pool_token_program: Pubkey,
) -> Result<TradeDirection, ProgramError> {
    if swap_account_owner != program_id {
        Err(ProgramError::IncorrectProgramId)
    } else if derived_address(swap_account_key.0@, token_swap.nonce, program_id.0@) != Some(
        authority.0@,
    ) {
        Err(swap_err(SwapError::InvalidProgramAddress))
    } else if !(swap_source == token_swap.token_a || swap_source == token_swap.token_b) {
        Err(swap_err(SwapError::IncorrectSwapAccount))
    } else if !(swap_destination == token_swap.token_a || swap_destination == token_swap.token_b) {
        Err(swap_err(SwapError::IncorrectSwapAccount))
    } else if swap_source == swap_destination {
        Err(swap_err(SwapError::InvalidInput))
    } else if swap_source == source {
        Err(swap_err(SwapError::InvalidInput))
    } else if swap_destination == destination {
        Err(swap_err(SwapError::InvalidInput))
    } else if pool_mint != token_swap.pool_mint {
        Err(swap_err(SwapError::IncorrectPoolMint))
    } else if pool_fee_account != token_swap.pool_fee_account {
        Err(swap_err(SwapError::IncorrectFeeAccount))
    } else if pool_token_program != token_swap.token_program_id {
        Err(swap_err(SwapError::IncorrectTokenProgramId))
    } else if swap_source == token_swap.token_a {
        Ok(TradeDirection::AtoB)
    } else {
        Ok(TradeDirection::BtoA)
    }
}

/// What the checks of a new pool read of a token account.
#[derive(Clone, Copy, Debug)]
pub struct TokenAccountData {
    /// The mint of the tokens the account holds.
    pub mint: Pubkey,
    /// The owner of the account.
    pub owner: Pubkey,
    /// The number of tokens the account holds.
    pub amount: u64,
    /// The delegate of the account, if any.
    pub delegate: Option<Pubkey>,
    /// The authority that may close the account, if any.
    pub close_authority: Option<Pubkey>,
}

/// What the checks of a new pool read of its pool token mint.
#[derive(Clone, Copy, Debug)]
pub struct MintData {
    /// The authority that may mint new tokens, if any.
    pub mint_authority: Option<Pubkey>,
    /// The number of tokens in circulation.
    pub supply: u64,
    /// The authority that may freeze accounts, if any.
    pub freeze_authority: Option<Pubkey>,
    /// The authority that may close the mint, if any.
    pub close_authority: Option<Pubkey>,
}

/// What checking the unpacked accounts of a new pool gives: the first check
/// that fails, in the order the program makes them.
pub open spec fn spec_check_new_pool_accounts<C: CurveCalculator>(
    calculator: C,
    authority: Pubkey,
    token_a: TokenAccountData,
    token_b: TokenAccountData,
    fee_account: TokenAccountData,
    destination: TokenAccountData,
    pool_mint_key: Pubkey,
    pool_mint: MintData,
) -> Result<(), SwapError> {
    if pool_mint.close_authority is Some {
        Err(SwapError::InvalidCloseAuthority)
    } else if authority != token_a.owner {
        Err(SwapError::InvalidOwner)
    } else if authority != token_b.owner {
        Err(SwapError::InvalidOwner)
    } else if authority == destination.owner {
        Err(SwapError::InvalidOutputOwner)
    } else if authority == fee_account.owner {
        Err(SwapError::InvalidOutputOwner)
    } else if pool_mint.mint_authority != Some(authority) {
        Err(SwapError::InvalidOwner)
    } else if token_a.mint == token_b.mint {
        Err(SwapError::RepeatedMint)
    } else if calculator.spec_validate_supply(token_a.amount, token_b.amount) is Err {
        calculator.spec_validate_supply(token_a.amount, token_b.amount)
    } else if token_a.delegate is Some {
        Err(SwapError::InvalidDelegate)
    } else if token_b.delegate is Some {
        Err(SwapError::InvalidDelegate)
    } else if token_a.close_authority is Some {
        Err(SwapError::InvalidCloseAuthority)
    } else if token_b.close_authority is Some {
        Err(SwapError::InvalidCloseAuthority)
    } else if pool_mint.supply != 0 {
        Err(SwapError::InvalidSupply)
    } else if pool_mint.freeze_authority is Some {
        Err(SwapError::InvalidFreezeAuthority)
    } else if pool_mint_key != fee_account.mint {
        Err(SwapError::IncorrectPoolMint)
    } else {
        Ok(())
    }
}

/// What checking the accounts of a new pool gives: the first check that
/// fails, in the order the program makes them, else the bump seed of the
/// pool's authority. Each account comes as what unpacking it gave.
pub open spec fn spec_check_initialize<C: CurveCalculator>(
    calculator: C,
    program_id: Pubkey,
    swap_account_key: Pubkey,
    swap_is_initialized: bool,
    authority: Pubkey,
    token_a: Result<TokenAccountData, ProgramError>,
    token_b: Result<TokenAccountData, ProgramError>,
    fee_account: Result<TokenAccountData, ProgramError>,
    destination: Result<TokenAccountData, ProgramError>,
    pool_mint_key: Pubkey,
    pool_mint: Result<MintData, ProgramError>,
) -> Result<u8, ProgramError> {
    if swap_is_initialized {
        Err(swap_err(SwapError::AlreadyInUse))
    } else {
        match found_bump(swap_account_key.0@, program_id.0@) {
            None => Err(swap_err(SwapError::InvalidProgramAddress)),
            Some(bump) => if derived_address(swap_account_key.0@, bump, program_id.0@) != Some(
                authority.0@,
            ) {
                Err(swap_err(SwapError::InvalidProgramAddress))
            } else {
                match (token_a, token_b, fee_account, destination, pool_mint) {
                    (Err(e), _, _, _, _) => Err(e),
                    (Ok(_), Err(e), _, _, _) => Err(e),
                    (Ok(_), Ok(_), Err(e), _, _) => Err(e),
                    (Ok(_), Ok(_), Ok(_), Err(e), _) => Err(e),
                    (Ok(_), Ok(_), Ok(_), Ok(_), Err(e)) => Err(e),
                    (Ok(a), Ok(b), Ok(fee), Ok(dest), Ok(mint)) => match spec_check_new_pool_accounts(
                        calculator,
                        authority,
                        a,
                        b,
                        fee,
                        dest,
                        pool_mint_key,
                        mint,
                    ) {
                        Err(e) => Err(swap_err(e)),
                        Ok(()) => Ok(bump),
                    },
                }
            },
        }
    }
}

/// What depositing both tokens into a pool moves: the tokens the user pays
/// into each side and the pool tokens minted to the user.
#[derive(Clone, Copy, Debug, PartialEq, Eq, Structural)]
pub struct DepositAllPlan {
    /// Token A the user pays in
    pub token_a_amount: u64,
    /// Token B the user pays in
    pub token_b_amount: u64,
    /// Pool tokens minted to the user
    pub pool_token_amount: u64,
}

/// What withdrawing both tokens from a pool moves: the withdraw fee in pool
/// tokens sent to the fee account, the pool tokens burned, and the tokens
/// paid out of each side.
#[derive(Clone, Copy, Debug, PartialEq, Eq, Structural)]
pub struct WithdrawAllPlan {
    /// Pool tokens sent to the pool's fee account
    pub withdraw_fee: u64,
    /// Pool tokens burned
    pub pool_token_amount: u64,
    /// Token A paid to the user
    pub token_a_amount: u64,
    /// Token B paid to the user
    pub token_b_amount: u64,
}

/// What depositing both tokens gives: a curve that does not allow deposits
/// refuses them first; then, once the accounts are checked, a new pool (no
/// pool tokens yet) takes the curve's initial supply as both the amount and
/// the supply; the curve converts the pool tokens into the tokens owed on
/// each side, rounded up; each must fit 64 bits, be at most the user's
/// maximum (else the slippage is exceeded) and be something.
pub open spec fn spec_plan_deposit_all_token_types<C: CurveCalculator>(
    calculator: C,
    pool_token_amount: u64,
    maximum_token_a_amount: u64,
    maximum_token_b_amount: u64,
    swap_token_a_amount: u64,
    swap_token_b_amount: u64,
    pool_mint_supply: u64,
) -> Result<DepositAllPlan, SwapError> {
    if !calculator.spec_allows_deposits() {
        Err(SwapError::UnsupportedCurveOperation)
    } else {
        spec_deposit_all_amounts(
            calculator,
            pool_token_amount,
            maximum_token_a_amount,
            maximum_token_b_amount,
            swap_token_a_amount,
            swap_token_b_amount,
            pool_mint_supply,
        )
    }
}

/// The amounts of a deposit of both tokens into a curve that allows it.
pub open spec fn spec_deposit_all_amounts<C: CurveCalculator>(
    calculator: C,
    pool_token_amount: u64,
    maximum_token_a_amount: u64,
    maximum_token_b_amount: u64,
    swap_token_a_amount: u64,
    swap_token_b_amount: u64,
    pool_mint_supply: u64,
) -> Result<DepositAllPlan, SwapError> {
    let pool_tokens: u128 = if pool_mint_supply > 0 {
        pool_token_amount as u128
    } else {
        calculator.spec_new_pool_supply()
    };
    let supply: u128 = if pool_mint_supply > 0 {
        pool_mint_supply as u128
    } else {
        calculator.spec_new_pool_supply()
    };
    match calculator.spec_pool_tokens_to_trading_tokens_rounded(
        pool_tokens,
        supply,
        swap_token_a_amount as u128,
        swap_token_b_amount as u128,
        RoundDirection::Ceiling,
    ) {
        None => Err(SwapError::ZeroTradingTokens),
        Some(results) => if results.token_a_amount > u64::MAX {
            Err(SwapError::ConversionFailure)
        } else if results.token_a_amount > maximum_token_a_amount {
            Err(SwapError::ExceededSlippage)
        } else if results.token_a_amount == 0 {
            Err(SwapError::ZeroTradingTokens)
        } else if results.token_b_amount > u64::MAX {
            Err(SwapError::ConversionFailure)
        } else if results.token_b_amount > maximum_token_b_amount {
            Err(SwapError::ExceededSlippage)
        } else if results.token_b_amount == 0 {
            Err(SwapError::ZeroTradingTokens)
        } else if pool_tokens > u64::MAX {
            Err(SwapError::ConversionFailure)
        } else {
            Ok(
                DepositAllPlan {
                    token_a_amount: results.token_a_amount as u64,
                    token_b_amount: results.token_b_amount as u64,
                    pool_token_amount: pool_tokens as u64,
                },
            )
        },
    }
}

/// The smaller of two amounts.
pub open spec fn min_u64(a: u64, b: u64) -> u64 {
    if a <= b {
        a
    } else {
        b
    }
}

/// What withdrawing both tokens gives, once the accounts are checked: the
/// owner's withdraw fee comes off the pool tokens when it is assessed; the
/// curve converts what is left into the tokens owed from each side, capped
/// by what the side holds; each must fit 64 bits, be at least the user's
/// minimum (else the slippage is exceeded), and be something unless the
/// side is empty.
pub open spec fn spec_plan_withdraw_all_token_types<C: CurveCalculator>(
    calculator: C,
    fees: Fees,
    assess_withdraw_fee: bool,
    pool_token_amount: u64,
    minimum_token_a_amount: u64,
    minimum_token_b_amount: u64,
    swap_token_a_amount: u64,
    swap_token_b_amount: u64,
    pool_mint_supply: u64,
) -> Result<WithdrawAllPlan, SwapError> {
    let fee = if assess_withdraw_fee {
        spec_calculate_fee(
            pool_token_amount as u128,
            fees.owner_withdraw_fee_numerator as u128,
            fees.owner_withdraw_fee_denominator as u128,
        )
    } else {
        Some(0u128)
    };
    match fee {
        None => Err(SwapError::FeeCalculationFailure),
        Some(withdraw_fee) => if withdraw_fee > pool_token_amount {
            Err(SwapError::CalculationFailure)
        } else {
            let pool_tokens = (pool_token_amount - withdraw_fee) as u128;
            match calculator.spec_pool_tokens_to_trading_tokens(
                pool_tokens,
                pool_mint_supply as u128,
                swap_token_a_amount as u128,
                swap_token_b_amount as u128,
            ) {
                None => Err(SwapError::ZeroTradingTokens),
                Some(results) => if results.token_a_amount > u64::MAX {
                    Err(SwapError::ConversionFailure)
                } else if min_u64(swap_token_a_amount, results.token_a_amount as u64)
                    < minimum_token_a_amount {
                    Err(SwapError::ExceededSlippage)
                } else if min_u64(swap_token_a_amount, results.token_a_amount as u64) == 0
                    && swap_token_a_amount != 0 {
                    Err(SwapError::ZeroTradingTokens)
                } else if results.token_b_amount > u64::MAX {
                    Err(SwapError::ConversionFailure)
                } else if min_u64(swap_token_b_amount, results.token_b_amount as u64)
                    < minimum_token_b_amount {
                    Err(SwapError::ExceededSlippage)
                } else if min_u64(swap_token_b_amount, results.token_b_amount as u64) == 0
                    && swap_token_b_amount != 0 {
                    Err(SwapError::ZeroTradingTokens)
                } else {
                    Ok(
                        WithdrawAllPlan {
                            withdraw_fee: withdraw_fee as u64,
                            pool_token_amount: pool_tokens as u64,
                            token_a_amount: min_u64(
                                swap_token_a_amount,
                                results.token_a_amount as u64,
                            ),
                            token_b_amount: min_u64(
                                swap_token_b_amount,
                                results.token_b_amount as u64,
                            ),
                        },
                    )
                },
            }
        },
    }
}

/// The direction of a single-sided deposit or withdrawal: from token A when
/// the user's account holds the pool's token A mint, from token B when it
/// holds token B's; any other mint is the wrong account.
pub open spec fn spec_single_sided_direction(
    user_mint: Pubkey,
    swap_token_a_mint: Pubkey,
    swap_token_b_mint: Pubkey,
) -> Result<TradeDirection, SwapError> {
    if user_mint == swap_token_a_mint {
        Ok(TradeDirection::AtoB)
    } else if user_mint == swap_token_b_mint {
        Ok(TradeDirection::BtoA)
    } else {
        Err(SwapError::IncorrectSwapAccount)
    }
}

/// What depositing one token gives: a curve that does not allow deposits
/// refuses them first; then, once the accounts are checked, the pool tokens
/// the curve gives for the deposit when pool tokens are out (none means no
/// trading tokens), else the curve's initial supply; the amount must fit
/// 64 bits, be at least the user's minimum (else the slippage is exceeded)
/// and be something.
pub open spec fn spec_plan_deposit_single_token_type<C: CurveCalculator>(
    calculator: C,
    curve_pool_tokens: Option<u128>,
    pool_mint_supply: u64,
    minimum_pool_token_amount: u64,
) -> Result<u64, SwapError> {
    let pool_tokens = if !calculator.spec_allows_deposits() {
        None
    } else if pool_mint_supply > 0 {
        curve_pool_tokens
    } else {
        Some(calculator.spec_new_pool_supply())
    };
    match pool_tokens {
        None => if !calculator.spec_allows_deposits() {
            Err(SwapError::UnsupportedCurveOperation)
        } else {
            Err(SwapError::ZeroTradingTokens)
        },
        Some(amount) => if amount > u64::MAX {
            Err(SwapError::ConversionFailure)
        } else if amount < minimum_pool_token_amount {
            Err(SwapError::ExceededSlippage)
        } else if amount == 0 {
            Err(SwapError::ZeroTradingTokens)
        } else {
            Ok(amount as u64)
        },
    }
}

/// What withdrawing one token gives, once the accounts are checked.
#[derive(Clone, Copy, Debug, PartialEq, Eq, Structural)]
pub struct WithdrawSinglePlan {
    /// Pool tokens sent to the pool's fee account
    pub withdraw_fee: u64,
    /// Pool tokens burned
    pub burn_pool_token_amount: u64,
}

/// What withdrawing one token gives, once the accounts are checked: the
/// pool tokens the curve asks for the tokens taken out (none means no
/// trading tokens) are burned, and the owner's withdraw fee on them, when
/// assessed, is paid on top; the total must fit 64 bits, be at most the
/// user's maximum (else the slippage is exceeded) and be something.
pub open spec fn spec_plan_withdraw_single_token_type(
    fees: Fees,
    assess_withdraw_fee: bool,
    curve_pool_tokens: Option<u128>,
    maximum_pool_token_amount: u64,
) -> Result<WithdrawSinglePlan, SwapError> {
    match curve_pool_tokens {
        None => Err(SwapError::ZeroTradingTokens),
        Some(burn) => {
            let fee = if assess_withdraw_fee {
                spec_calculate_fee(
                    burn,
                    fees.owner_withdraw_fee_numerator as u128,
                    fees.owner_withdraw_fee_denominator as u128,
                )
            } else {
                Some(0u128)
            };
            match fee {
                None => Err(SwapError::FeeCalculationFailure),
                Some(withdraw_fee) => if burn + withdraw_fee > u128::MAX {
                    Err(SwapError::CalculationFailure)
                } else if burn + withdraw_fee > u64::MAX {
                    Err(SwapError::ConversionFailure)
                } else if burn + withdraw_fee > maximum_pool_token_amount {
                    Err(SwapError::ExceededSlippage)
                } else if burn + withdraw_fee == 0 {
                    Err(SwapError::ZeroTradingTokens)
                } else {
                    Ok(
                        WithdrawSinglePlan {
                            withdraw_fee: withdraw_fee as u64,
                            burn_pool_token_amount: burn as u64,
                        },
                    )
                },
            }
        },
    }
}

/// What the curve gives for a swap with fees: the amounts swapped on each
/// side, the pool's new amounts on each side, and the fees taken from the
/// source amount.
#[derive(Clone, Copy, Debug, PartialEq, Eq, Structural)]
pub struct CurveSwapResult {
    /// New amount of source token in the pool
    pub new_swap_source_amount: u128,
    /// New amount of destination token in the pool
    pub new_swap_destination_amount: u128,
    /// Amount of source token swapped, fees included
    pub source_amount_swapped: u128,
    /// Amount of destination token swapped
    pub destination_amount_swapped: u128,
    /// Amount of source tokens going to pool holders
    pub trade_fee: u128,
    /// Amount of source tokens going to owner
    pub owner_fee: u128,
}

/// What a swap moves: the source tokens the user pays in, the destination
/// tokens paid out, the pool's new token A and B amounts, and the owner's
/// fee in pool tokens, split into the host's share and the rest.
#[derive(Clone, Copy, Debug, PartialEq, Eq, Structural)]
pub struct SwapPlan {
    /// Source tokens transferred in, including what the source mint charges
    pub source_transfer_amount: u64,
    /// Destination tokens transferred out of the pool
    pub destination_transfer_amount: u64,
    /// The pool's token A amount after the swap
    pub swap_token_a_amount: u128,
    /// The pool's token B amount after the swap
    pub swap_token_b_amount: u128,
    /// Pool tokens minted to the host fee account
    pub host_fee: u64,
    /// Pool tokens minted to the pool's fee account
    pub owner_fee_pool_tokens: u64,
}

/// The pool's token A and B amounts after a swap in `trade_direction` that
/// leaves `new_source` on the source side and `new_destination` on the other.
pub open spec fn amounts_by_direction(
    trade_direction: TradeDirection,
    new_source: u128,
    new_destination: u128,
) -> (u128, u128) {
    match trade_direction {
        TradeDirection::AtoB => (new_source, new_destination),
        TradeDirection::BtoA => (new_destination, new_source),
    }
}

/// The sum of two amounts, capped at the largest `u64`.
pub open spec fn saturating_add_u64(a: u64, b: u64) -> u64 {
    if a + b > u64::MAX {
        u64::MAX
    } else {
        (a + b) as u64
    }
}

/// The difference of two amounts, or zero.
pub open spec fn saturating_sub_u64(a: u64, b: u64) -> u64 {
    if a < b {
        0
    } else {
        (a - b) as u64
    }
}

/// The owner's fee in pool tokens after the host's share: nothing without
/// an owner fee; else the pool tokens worth the owner fee (none is a fee
/// failure), less the host's fee on them when a host fee account is named
/// (a host account of another mint is the wrong pool mint).
pub open spec fn spec_split_owner_fee(
    owner_fee: u128,
    owner_fee_pool_tokens: Option<u128>,
    host_fee_account: Option<bool>,
    host_fee: Option<u128>,
) -> Result<(u128, u128), SwapError> {
    if owner_fee == 0 {
        Ok((0u128, 0u128))
    } else {
        match owner_fee_pool_tokens {
            None => Err(SwapError::FeeCalculationFailure),
            Some(pool_tokens) => match host_fee_account {
                None => Ok((0u128, pool_tokens)),
                Some(mint_matches) => if !mint_matches {
                    Err(SwapError::IncorrectPoolMint)
                } else {
                    match host_fee {
                        None => Err(SwapError::FeeCalculationFailure),
                        Some(fee) => if fee > pool_tokens {
                            Err(SwapError::FeeCalculationFailure)
                        } else {
                            Ok((fee, (pool_tokens - fee) as u128))
                        },
                    }
                },
            },
        }
    }
}

/// What a swap gives once the accounts are checked and the curve has
/// priced it: none from the curve means no trading tokens; the source
/// tokens paid in are the amount swapped plus what the source mint charges
/// on it; the destination tokens paid out are the amount swapped, and what
/// the user receives after the destination mint's charge must reach the
/// minimum, else the slippage is exceeded; the owner's fee goes out in
/// pool tokens, the host's share first and the rest to the pool's fee
/// account when it is valid; every amount moved must fit 64 bits.
pub open spec fn spec_plan_swap(
    trade_direction: TradeDirection,
    curve_result: Option<CurveSwapResult>,
    minimum_amount_out: u64,
    source_transfer_fee: u64,
    destination_transfer_fee: u64,
    owner_fee_pool_tokens: Option<u128>,
    host_fee_account: Option<bool>,
    host_fee: Option<u128>,
    pool_fee_account_valid: bool,
) -> Result<SwapPlan, SwapError> {
    match curve_result {
        None => Err(SwapError::ZeroTradingTokens),
        Some(result) => if result.source_amount_swapped > u64::MAX {
            Err(SwapError::ConversionFailure)
        } else if result.destination_amount_swapped > u64::MAX {
            Err(SwapError::ConversionFailure)
        } else if saturating_sub_u64(
            result.destination_amount_swapped as u64,
            destination_transfer_fee,
        ) < minimum_amount_out {
            Err(SwapError::ExceededSlippage)
        } else {
            match spec_split_owner_fee(
                result.owner_fee,
                owner_fee_pool_tokens,
                host_fee_account,
                host_fee,
            ) {
                Err(e) => Err(e),
                Ok((host, owner)) => if host > u64::MAX || (pool_fee_account_valid && owner
                    > u64::MAX) {
                    Err(SwapError::ConversionFailure)
                } else {
                    let (a, b) = amounts_by_direction(
                        trade_direction,
                        result.new_swap_source_amount,
                        result.new_swap_destination_amount,
                    );
                    Ok(
                        SwapPlan {
                            source_transfer_amount: saturating_add_u64(
                                result.source_amount_swapped as u64,
                                source_transfer_fee,
                            ),
                            destination_transfer_amount: result.destination_amount_swapped as u64,
                            swap_token_a_amount: a,
                            swap_token_b_amount: b,
                            host_fee: host as u64,
                            owner_fee_pool_tokens: if pool_fee_account_valid {
                                owner as u64
                            } else {
                                0
                            },
                        },
                    )
                },
            }
        },
    }
}

/// What creating a pool settles: the bump seed of the pool's authority and
/// the pool tokens minted to the depositor.
#[derive(Clone, Copy, Debug, PartialEq, Eq, Structural)]
pub struct InitializePlan {
    /// The bump seed of the pool's authority
    pub bump_seed: u8,
    /// Pool tokens minted to the destination account
    pub initial_pool_tokens: u64,
}

/// What creating a pool gives: the account checks first, then the curve's
/// own check of its parameters, then the curve's initial supply, which
/// must fit 64 bits.
pub open spec fn spec_plan_initialize<C: CurveCalculator>(
    calculator: C,
    program_id: Pubkey,
    swap_account_key: Pubkey,
    swap_is_initialized: bool,
    authority: Pubkey,
    token_a: Result<TokenAccountData, ProgramError>,
    token_b: Result<TokenAccountData, ProgramError>,
    fee_account: Result<TokenAccountData, ProgramError>,
    destination: Result<TokenAccountData, ProgramError>,
    pool_mint_key: Pubkey,
    pool_mint: Result<MintData, ProgramError>,
) -> Result<InitializePlan, ProgramError> {
    match spec_check_initialize(
        calculator,
        program_id,
        swap_account_key,
        swap_is_initialized,
        authority,
        token_a,
        token_b,
        fee_account,
        destination,
        pool_mint_key,
        pool_mint,
    ) {
        Err(e) => Err(e),
        Ok(bump_seed) => match calculator.spec_validate() {
            Err(e) => Err(swap_err(e)),
            Ok(()) => if calculator.spec_new_pool_supply() > u64::MAX {
                Err(swap_err(SwapError::ConversionFailure))
            } else {
                Ok(
                    InitializePlan {
                        bump_seed,
                        initial_pool_tokens: calculator.spec_new_pool_supply() as u64,
                    },
                )
            },
        },
    }
}

impl Processor {
    /// Calculates the authority id by generating a program address.
    pub fn authority_id(program_id: &Pubkey, my_info: &Pubkey, bump_seed: u8) -> (r: Result<
        Pubkey,
        SwapError,
    >)
        ensures
            match derived_address(my_info.0@, bump_seed, program_id.0@) {
                Some(k) => r matches Ok(key) && key.0@ == k,
                None => r == Err::<Pubkey, SwapError>(SwapError::InvalidProgramAddress),
            },
    {
        match create_program_address(my_info, bump_seed, program_id) {
            Some(key) => Ok(key),
            None => Err(SwapError::InvalidProgramAddress),
        }
    }

    /// Whether `authority` is the address the pool's nonce derives, as the
    /// program checks it: a refused derivation is an invalid program address
    /// too.
    fn check_authority(program_id: &Pubkey, swap_account_key: &Pubkey, nonce: u8, authority: &Pubkey) -> (r: Result<
        (),
        ProgramError,
    >)
        ensures
            derived_address(swap_account_key.0@, nonce, program_id.0@) == Some(authority.0@)
                ==> r is Ok,
            derived_address(swap_account_key.0@, nonce, program_id.0@) != Some(authority.0@)
                ==> r == Err::<(), ProgramError>(swap_err(SwapError::InvalidProgramAddress)),
    {
        let expected = match Self::authority_id(program_id, swap_account_key, nonce) {
            Ok(key) => key,
            Err(e) => {
                return Err(ProgramError::from(e));
            },
        };
        proof {
            vstd::array::axiom_array_ext_equal(authority.0, expected.0);
            if authority.0@ == expected.0@ {
                assert(authority.0 =~= expected.0);
            }
        }
        if !authority.same(&expected) {
            return Err(ProgramError::from(SwapError::InvalidProgramAddress));
        }
        Ok(())
    }

    /// Checks the accounts an instruction on a pool names against the
    /// pool's state: the owner of the swap account, the authority the pool's
    /// nonce derives, the pool's token accounts, mint, token program and fee
    /// account, and that the user's accounts are not the pool's.
    pub fn check_accounts(
        token_swap: &SwapV1,
        program_id: &Pubkey,
        swap_account_key: &Pubkey,
        swap_account_owner: &Pubkey,
        authority: &Pubkey,
        token_a: &Pubkey,
        token_b: &Pubkey,
        pool_mint: &Pubkey,
        pool_token_program: &Pubkey,
        user_token_a: Option<Pubkey>,
        user_token_b: Option<Pubkey>,
        pool_fee_account: Option<Pubkey>,
    ) -> (r: Result<(), ProgramError>)
        ensures
            r == spec_check_accounts(
                *token_swap,
                *program_id,
                *swap_account_key,
                *swap_account_owner,
                *authority,
                *token_a,
                *token_b,
                *pool_mint,
                *pool_token_program,
                user_token_a,
                user_token_b,
                pool_fee_account,
            ),
    {
        if !swap_account_owner.same(program_id) {
            return Err(ProgramError::IncorrectProgramId);
        }
        Self::check_authority(program_id, swap_account_key, token_swap.nonce(), authority)?;
        if !token_a.same(token_swap.token_a_account()) {
            return Err(ProgramError::from(SwapError::IncorrectSwapAccount));
        }
        if !token_b.same(token_swap.token_b_account()) {
            return Err(ProgramError::from(SwapError::IncorrectSwapAccount));
        }
        if !pool_mint.same(token_swap.pool_mint()) {
            return Err(ProgramError::from(SwapError::IncorrectPoolMint));
        }
        if !pool_token_program.same(token_swap.token_program_id()) {
            return Err(ProgramError::from(SwapError::IncorrectTokenProgramId));
        }
        if let Some(user_token_a) = user_token_a {
            if token_a.same(&user_token_a) {
                return Err(ProgramError::from(SwapError::InvalidInput));
            }
        }
        if let Some(user_token_b) = user_token_b {
            if token_b.same(&user_token_b) {
                return Err(ProgramError::from(SwapError::InvalidInput));
            }
        }
        if let Some(pool_fee_account) = pool_fee_account {
            if !pool_fee_account.same(token_swap.pool_fee_account()) {
                return Err(ProgramError::from(SwapError::IncorrectFeeAccount));
            }
        }
        Ok(())
    }

    /// Checks the unpacked accounts of a new pool: the owners of its token
    /// accounts and of the accounts that receive pool tokens, the pool mint's
    /// authorities and supply, the curve's view of the initial supply, and
    /// the delegates and close authorities of the token accounts.
    fn check_new_pool_accounts<C: CurveCalculator>(
        calculator: &C,
        authority: &Pubkey,
        token_a: &TokenAccountData,
        token_b: &TokenAccountData,
        fee_account: &TokenAccountData,
        destination: &TokenAccountData,
        pool_mint_key: &Pubkey,
        pool_mint: &MintData,
    ) -> (r: Result<(), SwapError>)
        ensures
            r == spec_check_new_pool_accounts(
                *calculator,
                *authority,
                *token_a,
                *token_b,
                *fee_account,
                *destination,
                *pool_mint_key,
                *pool_mint,
            ),
    {
        if pool_mint.close_authority.is_some() {
            return Err(SwapError::InvalidCloseAuthority);
        }
        if !authority.same(&token_a.owner) {
            return Err(SwapError::InvalidOwner);
        }
        if !authority.same(&token_b.owner) {
            return Err(SwapError::InvalidOwner);
        }
        if authority.same(&destination.owner) {
            return Err(SwapError::InvalidOutputOwner);
        }
        if authority.same(&fee_account.owner) {
            return Err(SwapError::InvalidOutputOwner);
        }
        match pool_mint.mint_authority {
            Some(mint_authority) => {
                if !mint_authority.same(authority) {
                    return Err(SwapError::InvalidOwner);
                }
            },
            None => {
                return Err(SwapError::InvalidOwner);
            },
        }
        if token_a.mint.same(&token_b.mint) {
            return Err(SwapError::RepeatedMint);
        }
        calculator.validate_supply(token_a.amount, token_b.amount)?;
        if token_a.delegate.is_some() {
            return Err(SwapError::InvalidDelegate);
        }
        if token_b.delegate.is_some() {
            return Err(SwapError::InvalidDelegate);
        }
        if token_a.close_authority.is_some() {
            return Err(SwapError::InvalidCloseAuthority);
        }
        if token_b.close_authority.is_some() {
            return Err(SwapError::InvalidCloseAuthority);
        }
        if pool_mint.supply != 0 {
            return Err(SwapError::InvalidSupply);
        }
        if pool_mint.freeze_authority.is_some() {
            return Err(SwapError::InvalidFreezeAuthority);
        }
        if !pool_mint_key.same(&fee_account.mint) {
            return Err(SwapError::IncorrectPoolMint);
        }
        Ok(())
    }

    /// Checks the accounts of a new pool as the program does before it
    /// mints the first pool tokens, and gives the bump seed of the pool's
    /// authority: the swap account must not be in use, the authority must be
    /// the address found for the swap account, and the accounts, each given
    /// as what unpacking it gave, must pass the checks of
    /// `spec_check_new_pool_accounts`. Where no bump seed derives an address
    /// (a search that never fails in practice), the authority is refused as
    /// an invalid program address.
    pub fn check_initialize<C: CurveCalculator>(
        calculator: &C,
        program_id: &Pubkey,
        swap_account_key: &Pubkey,
        swap_is_initialized: bool,
        authority: &Pubkey,
        token_a: Result<TokenAccountData, ProgramError>,
        token_b: Result<TokenAccountData, ProgramError>,
        fee_account: Result<TokenAccountData, ProgramError>,
        destination: Result<TokenAccountData, ProgramError>,
        pool_mint_key: &Pubkey,
        pool_mint: Result<MintData, ProgramError>,
    ) -> (r: Result<u8, ProgramError>)
        ensures
            r == spec_check_initialize(
                *calculator,
                *program_id,
                *swap_account_key,
                swap_is_initialized,
                *authority,
                token_a,
                token_b,
                fee_account,
                destination,
                *pool_mint_key,
                pool_mint,
            ),
    {
        if swap_is_initialized {
            return Err(ProgramError::from(SwapError::AlreadyInUse));
        }
        let (swap_authority, bump_seed) = match try_find_program_address(swap_account_key, program_id) {
            Some(found) => found,
            None => {
                proof {
                    assert forall|b: u8| !is_first_bump(swap_account_key.0@, program_id.0@, b) by {
                        if 1 <= b {
                            assert(derived_address(swap_account_key.0@, b, program_id.0@) is None);
                        }
                    }
                }
                return Err(ProgramError::from(SwapError::InvalidProgramAddress));
            },
        };
        proof {
            let k = swap_account_key.0@;
            let p = program_id.0@;
            let c = choose|b: u8| is_first_bump(k, p, b);
            assert(is_first_bump(k, p, c));
            assert(derived_address(k, c, p) is Some);
            assert(derived_address(k, bump_seed, p) is Some);
            assert(c == bump_seed);
            assert(found_bump(k, p) == Some(bump_seed));
            vstd::array::axiom_array_ext_equal(authority.0, swap_authority.0);
            if authority.0@ == swap_authority.0@ {
                assert(authority.0 =~= swap_authority.0);
            }
        }
        if !authority.same(&swap_authority) {
            return Err(ProgramError::from(SwapError::InvalidProgramAddress));
        }
        let token_a = match token_a {
            Ok(account) => account,
            Err(e) => {
                return Err(e);
            },
        };
        let token_b = match token_b {
            Ok(account) => account,
            Err(e) => {
                return Err(e);
            },
        };
        let fee_account = match fee_account {
            Ok(account) => account,
            Err(e) => {
                return Err(e);
            },
        };
        let destination = match destination {
            Ok(account) => account,
            Err(e) => {
                return Err(e);
            },
        };
        let pool_mint = match pool_mint {
            Ok(mint) => mint,
            Err(e) => {
                return Err(e);
            },
        };
        match Self::check_new_pool_accounts(
            calculator,
            authority,
            &token_a,
            &token_b,
            &fee_account,
            &destination,
            pool_mint_key,
            &pool_mint,
        ) {
            Ok(()) => Ok(bump_seed),
            Err(e) => Err(ProgramError::from(e)),
        }
    }

    /// Works out a deposit of both tokens into a pool holding
    /// `swap_token_a_amount` and `swap_token_b_amount` with
    /// `pool_mint_supply` pool tokens out, once the instruction's accounts
    /// are checked: the tokens the user pays and the pool tokens minted.
    pub fn plan_deposit_all_token_types<C: CurveCalculator>(
        calculator: &C,
        pool_token_amount: u64,
        maximum_token_a_amount: u64,
        maximum_token_b_amount: u64,
        swap_token_a_amount: u64,
        swap_token_b_amount: u64,
        pool_mint_supply: u64,
    ) -> (r: Result<DepositAllPlan, SwapError>)
        ensures
            r == spec_plan_deposit_all_token_types(
                *calculator,
                pool_token_amount,
                maximum_token_a_amount,
                maximum_token_b_amount,
                swap_token_a_amount,
                swap_token_b_amount,
                pool_mint_supply,
            ),
    {
        if !calculator.allows_deposits() {
            return Err(SwapError::UnsupportedCurveOperation);
        }
        let current_pool_mint_supply = pool_mint_supply as u128;
        let (pool_token_amount, pool_mint_supply) = if current_pool_mint_supply > 0 {
            (pool_token_amount as u128, current_pool_mint_supply)
        } else {
            (calculator.new_pool_supply(), calculator.new_pool_supply())
        };
        let results = match calculator.pool_tokens_to_trading_tokens_rounded(
            pool_token_amount,
            pool_mint_supply,
            swap_token_a_amount as u128,
            swap_token_b_amount as u128,
            RoundDirection::Ceiling,
        ) {
            Some(results) => results,
            None => {
                return Err(SwapError::ZeroTradingTokens);
            },
        };
        let token_a_amount = to_u64(results.token_a_amount)?;
        if token_a_amount > maximum_token_a_amount {
            return Err(SwapError::ExceededSlippage);
        }
        if token_a_amount == 0 {
            return Err(SwapError::ZeroTradingTokens);
        }
        let token_b_amount = to_u64(results.token_b_amount)?;
        if token_b_amount > maximum_token_b_amount {
            return Err(SwapError::ExceededSlippage);
        }
        if token_b_amount == 0 {
            return Err(SwapError::ZeroTradingTokens);
        }
        let pool_token_amount = to_u64(pool_token_amount)?;
        Ok(DepositAllPlan { token_a_amount, token_b_amount, pool_token_amount })
    }

    /// Works out a withdrawal of both tokens from a pool holding
    /// `swap_token_a_amount` and `swap_token_b_amount` with
    /// `pool_mint_supply` pool tokens out, once the instruction's accounts
    /// are checked: the owner's withdraw fee is assessed when
    /// `assess_withdraw_fee` holds (the pool's fee account is valid and is
    /// not the one the pool tokens come from).
    pub fn plan_withdraw_all_token_types<C: CurveCalculator>(
        calculator: &C,
        fees: &Fees,
        assess_withdraw_fee: bool,
        pool_token_amount: u64,
        minimum_token_a_amount: u64,
        minimum_token_b_amount: u64,
        swap_token_a_amount: u64,
        swap_token_b_amount: u64,
        pool_mint_supply: u64,
    ) -> (r: Result<WithdrawAllPlan, SwapError>)
        ensures
            r == spec_plan_withdraw_all_token_types(
                *calculator,
                *fees,
                assess_withdraw_fee,
                pool_token_amount,
                minimum_token_a_amount,
                minimum_token_b_amount,
                swap_token_a_amount,
                swap_token_b_amount,
                pool_mint_supply,
            ),
    {
        let withdraw_fee: u128 = if assess_withdraw_fee {
            match fees.owner_withdraw_fee(pool_token_amount as u128) {
                Some(fee) => fee,
                None => {
                    return Err(SwapError::FeeCalculationFailure);
                },
            }
        } else {
            0
        };
        if withdraw_fee > pool_token_amount as u128 {
            return Err(SwapError::CalculationFailure);
        }
        let pool_token_amount = pool_token_amount as u128 - withdraw_fee;
        let results = match calculator.pool_tokens_to_trading_tokens(
            pool_token_amount,
            pool_mint_supply as u128,
            swap_token_a_amount as u128,
            swap_token_b_amount as u128,
        ) {
            Some(results) => results,
            None => {
                return Err(SwapError::ZeroTradingTokens);
            },
        };
        let token_a_amount = to_u64(results.token_a_amount)?;
        let token_a_amount = if swap_token_a_amount <= token_a_amount {
            swap_token_a_amount
        } else {
            token_a_amount
        };
        if token_a_amount < minimum_token_a_amount {
            return Err(SwapError::ExceededSlippage);
        }
        if token_a_amount == 0 && swap_token_a_amount != 0 {
            return Err(SwapError::ZeroTradingTokens);
        }
        let token_b_amount = to_u64(results.token_b_amount)?;
        let token_b_amount = if swap_token_b_amount <= token_b_amount {
            swap_token_b_amount
        } else {
            token_b_amount
        };
        if token_b_amount < minimum_token_b_amount {
            return Err(SwapError::ExceededSlippage);
        }
        if token_b_amount == 0 && swap_token_b_amount != 0 {
            return Err(SwapError::ZeroTradingTokens);
        }
        Ok(
            WithdrawAllPlan {
                withdraw_fee: withdraw_fee as u64,
                pool_token_amount: pool_token_amount as u64,
                token_a_amount,
                token_b_amount,
            },
        )
    }

    /// The direction of a single-sided deposit or withdrawal, from the mint
    /// of the user's token account.
    pub fn single_sided_direction(
        user_mint: &Pubkey,
        swap_token_a_mint: &Pubkey,
        swap_token_b_mint: &Pubkey,
    ) -> (r: Result<TradeDirection, SwapError>)
        ensures
            r == spec_single_sided_direction(*user_mint, *swap_token_a_mint, *swap_token_b_mint),
    {
        if user_mint.same(swap_token_a_mint) {
            Ok(TradeDirection::AtoB)
        } else if user_mint.same(swap_token_b_mint) {
            Ok(TradeDirection::BtoA)
        } else {
            Err(SwapError::IncorrectSwapAccount)
        }
    }

    /// Works out a deposit of one token, once the instruction's accounts are
    /// checked, from the pool tokens the curve gives for it: the pool tokens
    /// minted to the user.
    pub fn plan_deposit_single_token_type_exact_amount_in<C: CurveCalculator>(
        calculator: &C,
        curve_pool_tokens: Option<u128>,
        pool_mint_supply: u64,
        minimum_pool_token_amount: u64,
    ) -> (r: Result<u64, SwapError>)
        ensures
            r == spec_plan_deposit_single_token_type(
                *calculator,
                curve_pool_tokens,
                pool_mint_supply,
                minimum_pool_token_amount,
            ),
    {
        if !calculator.allows_deposits() {
            return Err(SwapError::UnsupportedCurveOperation);
        }
        let pool_token_amount = if pool_mint_supply > 0 {
            match curve_pool_tokens {
                Some(amount) => amount,
                None => {
                    return Err(SwapError::ZeroTradingTokens);
                },
            }
        } else {
            calculator.new_pool_supply()
        };
        let pool_token_amount = to_u64(pool_token_amount)?;
        if pool_token_amount < minimum_pool_token_amount {
            return Err(SwapError::ExceededSlippage);
        }
        if pool_token_amount == 0 {
            return Err(SwapError::ZeroTradingTokens);
        }
        Ok(pool_token_amount)
    }

    /// Works out a withdrawal of one token, once the instruction's accounts
    /// are checked, from the pool tokens the curve asks for it: the withdraw
    /// fee, assessed when `assess_withdraw_fee` holds, and the pool tokens
    /// burned.
    pub fn plan_withdraw_single_token_type_exact_amount_out(
        fees: &Fees,
        assess_withdraw_fee: bool,
        curve_pool_tokens: Option<u128>,
        maximum_pool_token_amount: u64,
    ) -> (r: Result<WithdrawSinglePlan, SwapError>)
        ensures
            r == spec_plan_withdraw_single_token_type(
                *fees,
                assess_withdraw_fee,
                curve_pool_tokens,
                maximum_pool_token_amount,
            ),
    {
        let burn_pool_token_amount = match curve_pool_tokens {
            Some(amount) => amount,
            None => {
                return Err(SwapError::ZeroTradingTokens);
            },
        };
        let withdraw_fee: u128 = if assess_withdraw_fee {
            match fees.owner_withdraw_fee(burn_pool_token_amount) {
                Some(fee) => fee,
                None => {
                    return Err(SwapError::FeeCalculationFailure);
                },
            }
        } else {
            0
        };
        let pool_token_amount = match burn_pool_token_amount.checked_add(withdraw_fee) {
            Some(amount) => amount,
            None => {
                return Err(SwapError::CalculationFailure);
            },
        };
        if to_u64(pool_token_amount)? > maximum_pool_token_amount {
            return Err(SwapError::ExceededSlippage);
        }
        if pool_token_amount == 0 {
            return Err(SwapError::ZeroTradingTokens);
        }
        Ok(
            WithdrawSinglePlan {
                withdraw_fee: withdraw_fee as u64,
                burn_pool_token_amount: burn_pool_token_amount as u64,
            },
        )
    }

    /// Splits the owner's trade fee, in pool tokens, between the host fee
    /// account, when one is named, and the pool's fee account.
    fn split_owner_fee(
        owner_fee: u128,
        owner_fee_pool_tokens: Option<u128>,
        host_fee_account: Option<bool>,
        host_fee: Option<u128>,
    ) -> (r: Result<(u128, u128), SwapError>)
        ensures
            r == spec_split_owner_fee(owner_fee, owner_fee_pool_tokens, host_fee_account, host_fee),
    {
        if owner_fee == 0 {
            return Ok((0, 0));
        }
        let pool_token_amount = match owner_fee_pool_tokens {
            Some(amount) => amount,
            None => {
                return Err(SwapError::FeeCalculationFailure);
            },
        };
        match host_fee_account {
            None => Ok((0, pool_token_amount)),
            Some(mint_matches) => {
                if !mint_matches {
                    return Err(SwapError::IncorrectPoolMint);
                }
                let fee = match host_fee {
                    Some(fee) => fee,
                    None => {
                        return Err(SwapError::FeeCalculationFailure);
                    },
                };
                match pool_token_amount.checked_sub(fee) {
                    Some(rest) => Ok((fee, rest)),
                    None => Err(SwapError::FeeCalculationFailure),
                }
            },
        }
    }

    /// Works out a swap once the instruction's accounts are checked and the
    /// curve has priced it (`curve_result`), given what the source mint
    /// charges on the amount swapped, what the destination mint charges on
    /// the amount paid out, the pool tokens worth the owner's fee, whether a
    /// host fee account is named and holds the pool mint, and the host's fee
    /// on those pool tokens; the rest of the owner's fee goes to the pool's fee
    /// account when `pool_fee_account_valid` holds.
    pub fn plan_swap(
        trade_direction: TradeDirection,
        curve_result: Option<CurveSwapResult>,
        minimum_amount_out: u64,
        source_transfer_fee: u64,
        destination_transfer_fee: u64,
        owner_fee_pool_tokens: Option<u128>,
        host_fee_account: Option<bool>,
        host_fee: Option<u128>,
        pool_fee_account_valid: bool,
    ) -> (r: Result<SwapPlan, SwapError>)
        ensures
            r == spec_plan_swap(
                trade_direction,
                curve_result,
                minimum_amount_out,
                source_transfer_fee,
                destination_transfer_fee,
                owner_fee_pool_tokens,
                host_fee_account,
                host_fee,
                pool_fee_account_valid,
            ),
    {
        let result = match curve_result {
            Some(result) => result,
            None => {
                return Err(SwapError::ZeroTradingTokens);
            },
        };
        let source_amount_swapped = to_u64(result.source_amount_swapped)?;
        let source_transfer_amount = source_amount_swapped.saturating_add(source_transfer_fee);
        let amount_out = to_u64(result.destination_amount_swapped)?;
        let amount_received = amount_out.saturating_sub(destination_transfer_fee);
        if amount_received < minimum_amount_out {
            return Err(SwapError::ExceededSlippage);
        }
        let (swap_token_a_amount, swap_token_b_amount) = match trade_direction {
            TradeDirection::AtoB => (
                result.new_swap_source_amount,
                result.new_swap_destination_amount,
            ),
            TradeDirection::BtoA => (
                result.new_swap_destination_amount,
                result.new_swap_source_amount,
            ),
        };
        let (host, owner) = Self::split_owner_fee(
            result.owner_fee,
            owner_fee_pool_tokens,
            host_fee_account,
            host_fee,
        )?;
        let host = to_u64(host)?;
        let owner = if pool_fee_account_valid {
            to_u64(owner)?
        } else {
            0
        };
        Ok(
            SwapPlan {
                source_transfer_amount,
                destination_transfer_amount: amount_out,
                swap_token_a_amount,
                swap_token_b_amount,
                host_fee: host,
                owner_fee_pool_tokens: owner,
            },
        )
    }

    /// Works out the creation of a pool: the checks of `check_initialize`,
    /// then the curve's check of its parameters, and the pool tokens minted
    /// to the depositor, the curve's initial supply.
    pub fn plan_initialize<C: CurveCalculator>(
        calculator: &C,
        program_id: &Pubkey,
        swap_account_key: &Pubkey,
        swap_is_initialized: bool,
        authority: &Pubkey,
        token_a: Result<TokenAccountData, ProgramError>,
        token_b: Result<TokenAccountData, ProgramError>,
        fee_account: Result<TokenAccountData, ProgramError>,
        destination: Result<TokenAccountData, ProgramError>,
        pool_mint_key: &Pubkey,
        pool_mint: Result<MintData, ProgramError>,
    ) -> (r: Result<InitializePlan, ProgramError>)
        ensures
            r == spec_plan_initialize(
                *calculator,
                *program_id,
                *swap_account_key,
                swap_is_initialized,
                *authority,
                token_a,
                token_b,
                fee_account,
                destination,
                *pool_mint_key,
                pool_mint,
            ),
    {
        let bump_seed = Self::check_initialize(
            calculator,
            program_id,
            swap_account_key,
            swap_is_initialized,
            authority,
            token_a,
            token_b,
            fee_account,
            destination,
            pool_mint_key,
            pool_mint,
        )?;
        match calculator.validate() {
            Ok(()) => {},
            Err(e) => {
                return Err(ProgramError::from(e));
            },
        }
        let initial_amount = calculator.new_pool_supply();
        match to_u64(initial_amount) {
            Ok(initial_pool_tokens) => Ok(InitializePlan { bump_seed, initial_pool_tokens }),
            Err(e) => Err(ProgramError::from(e)),
        }
    }

    /// The state a new pool stores once its checks pass: initialized, with
    /// the authority's bump seed, the token program, the pool's token
    /// accounts and mint, the mints those accounts hold, the fee account,
    /// the fees, the curve and the pool nonce.
    pub fn new_pool_state(
        bump_seed: u8,
        token_program_id: &Pubkey,
        token_a_key: &Pubkey,
        token_b_key: &Pubkey,
        pool_mint_key: &Pubkey,
        token_a: &TokenAccountData,
        token_b: &TokenAccountData,
        fee_account_key: &Pubkey,
        fees: Fees,
        swap_curve: SwapCurve,
        pool_nonce: u8,
    ) -> (r: SwapVersion)
        ensures
            r == SwapVersion::SwapV1(
                SwapV1 {
                    is_initialized: true,
                    nonce: bump_seed,
                    token_program_id: *token_program_id,
                    token_a: *token_a_key,
                    token_b: *token_b_key,
                    pool_mint: *pool_mint_key,
                    token_a_mint: token_a.mint,
                    token_b_mint: token_b.mint,
                    pool_fee_account: *fee_account_key,
                    fees,
                    swap_curve,
                    pool_nonce,
                },
            ),
    {
        SwapVersion::SwapV1(
            SwapV1 {
                is_initialized: true,
                nonce: bump_seed,
                token_program_id: *token_program_id,
                token_a: *token_a_key,
                token_b: *token_b_key,
                pool_mint: *pool_mint_key,
                token_a_mint: token_a.mint,
                token_b_mint: token_b.mint,
                pool_fee_account: *fee_account_key,
                fees,
                swap_curve,
                pool_nonce,
            },
        )
    }

    /// Checks the accounts a swap names against the pool's state, as the
    /// swap does before it moves any token, and gives the direction of the
    /// trade.
    pub fn check_swap_accounts(
        token_swap: &SwapV1,
        program_id: &Pubkey,
        swap_account_key: &Pubkey,
        swap_account_owner: &Pubkey,
        authority: &Pubkey,
        source: &Pubkey,
        swap_source: &Pubkey,
        swap_destination: &Pubkey,
        destination: &Pubkey,
        pool_mint: &Pubkey,
        pool_fee_account: &Pubkey,
        pool_token_program: &Pubkey,
    ) -> (r: Result<TradeDirection, ProgramError>)
        ensures
            r == spec_check_swap_accounts(
                *token_swap,
                *program_id,
                *swap_account_key,
                *swap_account_owner,
                *authority,
                *source,
                *swap_source,
                *swap_destination,
                *destination,
                *pool_mint,
                *pool_fee_account,
                *pool_token_program,
            ),
    {
        if !swap_account_owner.same(program_id) {
            return Err(ProgramError::IncorrectProgramId);
        }
        Self::check_authority(program_id, swap_account_key, token_swap.nonce(), authority)?;
        if !(swap_source.same(token_swap.token_a_account()) || swap_source.same(
            token_swap.token_b_account(),
        )) {
            return Err(ProgramError::from(SwapError::IncorrectSwapAccount));
        }
        if !(swap_destination.same(token_swap.token_a_account()) || swap_destination.same(
            token_swap.token_b_account(),
        )) {
            return Err(ProgramError::from(SwapError::IncorrectSwapAccount));
        }
        if swap_source.same(swap_destination) {
            return Err(ProgramError::from(SwapError::InvalidInput));
        }
        if swap_source.same(source) {
            return Err(ProgramError::from(SwapError::InvalidInput));
        }
        if swap_destination.same(destination) {
            return Err(ProgramError::from(SwapError::InvalidInput));
        }
        if !pool_mint.same(token_swap.pool_mint()) {
            return Err(ProgramError::from(SwapError::IncorrectPoolMint));
        }
        if !pool_fee_account.same(token_swap.pool_fee_account()) {
            return Err(ProgramError::from(SwapError::IncorrectFeeAccount));
        }
        if !pool_token_program.same(token_swap.token_program_id()) {
            return Err(ProgramError::from(SwapError::IncorrectTokenProgramId));
        }
        if swap_source.same(token_swap.token_a_account()) {
            Ok(TradeDirection::AtoB)
        } else {
            Ok(TradeDirection::BtoA)
        }
    }
}

/// The amount as a `u64`, unless it is larger.
pub fn to_u64(val: u128) -> (r: Result<u64, SwapError>)
    ensures
        val <= u64::MAX ==> r == Ok::<u64, SwapError>(val as u64),
        val > u64::MAX ==> r == Err::<u64, SwapError>(SwapError::ConversionFailure),
{
    if val <= u64::MAX as u128 {
        Ok(val as u64)
    } else {
        Err(SwapError::ConversionFailure)
    }
}


/// A deposit of both tokens never charges the user more than the maxima it
/// names on either side, and charges something on each; for a curve that
/// converts pool tokens by the pool's share, a deposit into a pool with
/// pool tokens out charges each side its share of that side, rounded down.
pub proof fn lemma_deposit_all_within_maxima<C: CurveCalculator>(
    calculator: C,
    pool_token_amount: u64,
    maximum_token_a_amount: u64,
    maximum_token_b_amount: u64,
    swap_token_a_amount: u64,
    swap_token_b_amount: u64,
    pool_mint_supply: u64,
)
    ensures
        spec_plan_deposit_all_token_types(
            calculator,
            pool_token_amount,
            maximum_token_a_amount,
            maximum_token_b_amount,
            swap_token_a_amount,
            swap_token_b_amount,
            pool_mint_supply,
        ) matches Ok(plan) ==> {
            &&& 0 < plan.token_a_amount <= maximum_token_a_amount
            &&& 0 < plan.token_b_amount <= maximum_token_b_amount
            &&& pool_mint_supply > 0 ==> plan.pool_token_amount == pool_token_amount
        },
{
}

/// A share rounded up is at least the exact share, and less than one more.
proof fn lemma_ceiling_share(n: int, d: int)
    requires
        n >= 0,
        d > 0,
    ensures
        div_rounded(n, d, RoundDirection::Ceiling) * d >= n,
        (div_rounded(n, d, RoundDirection::Ceiling) - 1) * d < n,
        0 <= div_rounded(n, d, RoundDirection::Ceiling) <= n,
{
    let q = n / d;
    let r = n % d;
    assert(n == q * d + r && 0 <= r < d) by (nonlinear_arith)
        requires
            d > 0,
            q == n / d,
            r == n % d,
    ;
    assert(q >= 0 && q * d >= q) by (nonlinear_arith)
        requires
            d > 0,
            n >= 0,
            q == n / d,
    ;
    assert((q + 1) * d == q * d + d) by (nonlinear_arith);
    assert((q - 1) * d == q * d - d) by (nonlinear_arith);
    if r != 0 {
        assert(q + 1 <= n) by (nonlinear_arith)
            requires
                n == q * d + r,
                0 < r < d,
                q >= 0,
        ;
    }
}

/// Two products of nonnegative factors compare as their factors do.
proof fn lemma_product_grows(x: int, y: int, lx: int, ly: int)
    requires
        x >= lx >= 0,
        y >= ly >= 0,
    ensures
        x * y >= lx * ly,
{
    assert(x * y >= lx * ly) by (nonlinear_arith)
        requires
            x >= lx >= 0,
            y >= ly >= 0,
    ;
}

/// For the constant product curve, a deposit of both tokens into a pool
/// with pool tokens out charges each side the share of it that the new pool
/// tokens are of the supply, rounded up, and the pool tokens never lose
/// value: the pool's product per squared pool token does not fall,
/// `(A + a) * (B + b) * S^2 >= A * B * (S + P)^2`.
pub proof fn lemma_constant_product_deposit_all_proportional(
    pool_token_amount: u64,
    maximum_token_a_amount: u64,
    maximum_token_b_amount: u64,
    swap_token_a_amount: u64,
    swap_token_b_amount: u64,
    pool_mint_supply: u64,
)
    requires
        pool_mint_supply > 0,
    ensures
        spec_plan_deposit_all_token_types(
            crate::curve::constant_product::ConstantProductCurve,
            pool_token_amount,
            maximum_token_a_amount,
            maximum_token_b_amount,
            swap_token_a_amount,
            swap_token_b_amount,
            pool_mint_supply,
        ) matches Ok(plan) ==> {
            &&& plan.token_a_amount == div_rounded(
                pool_token_amount * swap_token_a_amount,
                pool_mint_supply as int,
                RoundDirection::Ceiling,
            )
            &&& plan.token_b_amount == div_rounded(
                pool_token_amount * swap_token_b_amount,
                pool_mint_supply as int,
                RoundDirection::Ceiling,
            )
            &&& plan.pool_token_amount == pool_token_amount
            &&& (swap_token_a_amount + plan.token_a_amount) * (swap_token_b_amount
                + plan.token_b_amount) * (pool_mint_supply * pool_mint_supply)
                >= swap_token_a_amount * swap_token_b_amount * ((pool_mint_supply
                + pool_token_amount) * (pool_mint_supply + pool_token_amount))
        },
{
    let r = spec_plan_deposit_all_token_types(
        crate::curve::constant_product::ConstantProductCurve,
        pool_token_amount,
        maximum_token_a_amount,
        maximum_token_b_amount,
        swap_token_a_amount,
        swap_token_b_amount,
        pool_mint_supply,
    );
    if let Ok(plan) = r {
        let s = pool_mint_supply as int;
        let p = pool_token_amount as int;
        let a = swap_token_a_amount as int;
        let b = swap_token_b_amount as int;
        assert(p * a >= 0 && p * b >= 0) by (nonlinear_arith)
            requires
                p >= 0,
                a >= 0,
                b >= 0,
        ;
        lemma_ceiling_share(p * a, s);
        lemma_ceiling_share(p * b, s);
        let da = plan.token_a_amount as int;
        let db = plan.token_b_amount as int;
        assert(da == div_rounded(p * a, s, RoundDirection::Ceiling));
        assert(db == div_rounded(p * b, s, RoundDirection::Ceiling));
        assert((a + da) * s >= a * (s + p)) by (nonlinear_arith)
            requires
                da * s >= p * a,
        ;
        assert((b + db) * s >= b * (s + p)) by (nonlinear_arith)
            requires
                db * s >= p * b,
        ;
        assert(a * (s + p) >= 0 && b * (s + p) >= 0) by (nonlinear_arith)
            requires
                a >= 0,
                b >= 0,
                s + p >= 0,
        ;
        lemma_product_grows((a + da) * s, (b + db) * s, a * (s + p), b * (s + p));
        assert((a + da) * s * ((b + db) * s) == (a + da) * (b + db) * (s * s))
            by (nonlinear_arith);
        assert(a * (s + p) * (b * (s + p)) == a * b * ((s + p) * (s + p))) by (nonlinear_arith);
    }
}

/// For the constant product curve, a withdrawal of both tokens, burning no
/// more pool tokens than are out, leaves the pool tokens their value: the
/// pool's product per squared pool token does not fall,
/// `(A - a) * (B - b) * S^2 >= A * B * (S - P)^2`, where `P` is what is
/// burned after the withdraw fee.
pub proof fn lemma_constant_product_withdraw_all_keeps_value(
    fees: Fees,
    assess_withdraw_fee: bool,
    pool_token_amount: u64,
    minimum_token_a_amount: u64,
    minimum_token_b_amount: u64,
    swap_token_a_amount: u64,
    swap_token_b_amount: u64,
    pool_mint_supply: u64,
)
    requires
        pool_token_amount <= pool_mint_supply,
    ensures
        spec_plan_withdraw_all_token_types(
            crate::curve::constant_product::ConstantProductCurve,
            fees,
            assess_withdraw_fee,
            pool_token_amount,
            minimum_token_a_amount,
            minimum_token_b_amount,
            swap_token_a_amount,
            swap_token_b_amount,
            pool_mint_supply,
        ) matches Ok(plan) ==> (swap_token_a_amount - plan.token_a_amount) * (swap_token_b_amount
            - plan.token_b_amount) * (pool_mint_supply * pool_mint_supply) >= swap_token_a_amount
            * swap_token_b_amount * ((pool_mint_supply - plan.pool_token_amount) * (pool_mint_supply
            - plan.pool_token_amount)),
{
    let r = spec_plan_withdraw_all_token_types(
        crate::curve::constant_product::ConstantProductCurve,
        fees,
        assess_withdraw_fee,
        pool_token_amount,
        minimum_token_a_amount,
        minimum_token_b_amount,
        swap_token_a_amount,
        swap_token_b_amount,
        pool_mint_supply,
    );
    if let Ok(plan) = r {
        let s = pool_mint_supply as int;
        let p = plan.pool_token_amount as int;
        let a = swap_token_a_amount as int;
        let b = swap_token_b_amount as int;
        let da = plan.token_a_amount as int;
        let db = plan.token_b_amount as int;
        assert(s > 0);
        assert(p <= s);
        assert(da * s <= p * a) by (nonlinear_arith)
            requires
                s > 0,
                p >= 0,
                a >= 0,
                da <= (p * a) / s,
        ;
        assert(db * s <= p * b) by (nonlinear_arith)
            requires
                s > 0,
                p >= 0,
                b >= 0,
                db <= (p * b) / s,
        ;
        assert((a - da) * s >= a * (s - p)) by (nonlinear_arith)
            requires
                da * s <= p * a,
        ;
        assert((b - db) * s >= b * (s - p)) by (nonlinear_arith)
            requires
                db * s <= p * b,
        ;
        assert(a * (s - p) >= 0 && b * (s - p) >= 0) by (nonlinear_arith)
            requires
                a >= 0,
                b >= 0,
                s - p >= 0,
        ;
        lemma_product_grows((a - da) * s, (b - db) * s, a * (s - p), b * (s - p));
        assert((a - da) * s * ((b - db) * s) == (a - da) * (b - db) * (s * s))
            by (nonlinear_arith);
        assert(a * (s - p) * (b * (s - p)) == a * b * ((s - p) * (s - p))) by (nonlinear_arith);
    }
}

/// A withdrawal of both tokens pays each side at least the minimum the user
/// names and at most what the side holds, and the withdraw fee together
/// with the pool tokens burned is what the user gives up.
pub proof fn lemma_withdraw_all_within_bounds<C: CurveCalculator>(
    calculator: C,
    fees: Fees,
    assess_withdraw_fee: bool,
    pool_token_amount: u64,
    minimum_token_a_amount: u64,
    minimum_token_b_amount: u64,
    swap_token_a_amount: u64,
    swap_token_b_amount: u64,
    pool_mint_supply: u64,
)
    ensures
        spec_plan_withdraw_all_token_types(
            calculator,
            fees,
            assess_withdraw_fee,
            pool_token_amount,
            minimum_token_a_amount,
            minimum_token_b_amount,
            swap_token_a_amount,
            swap_token_b_amount,
            pool_mint_supply,
        ) matches Ok(plan) ==> {
            &&& minimum_token_a_amount <= plan.token_a_amount <= swap_token_a_amount
            &&& minimum_token_b_amount <= plan.token_b_amount <= swap_token_b_amount
            &&& plan.withdraw_fee + plan.pool_token_amount == pool_token_amount
            &&& !assess_withdraw_fee ==> plan.withdraw_fee == 0
        },
{
}


/// A priced swap is refused for slippage exactly when what the user would
/// receive, after the destination mint's charge, falls short of the
/// minimum; when it goes through, the user receives the curve's amount
/// swapped, pays at least the curve's source amount, and the pool's new
/// amounts are the curve's, each on its side.
pub proof fn lemma_swap_slippage_guard(
    trade_direction: TradeDirection,
    result: CurveSwapResult,
    minimum_amount_out: u64,
    source_transfer_fee: u64,
    destination_transfer_fee: u64,
    owner_fee_pool_tokens: Option<u128>,
    host_fee_account: Option<bool>,
    host_fee: Option<u128>,
    pool_fee_account_valid: bool,
)
    requires
        result.source_amount_swapped <= u64::MAX,
        result.destination_amount_swapped <= u64::MAX,
    ensures
        ({
            let r = spec_plan_swap(
                trade_direction,
                Some(result),
                minimum_amount_out,
                source_transfer_fee,
                destination_transfer_fee,
                owner_fee_pool_tokens,
                host_fee_account,
                host_fee,
                pool_fee_account_valid,
            );
            &&& (r == Err::<SwapPlan, SwapError>(SwapError::ExceededSlippage)) <==> (
            saturating_sub_u64(result.destination_amount_swapped as u64, destination_transfer_fee)
                < minimum_amount_out)
            &&& r matches Ok(plan) ==> {
                &&& plan.destination_transfer_amount == result.destination_amount_swapped
                &&& plan.source_transfer_amount >= result.source_amount_swapped
                &&& (plan.swap_token_a_amount, plan.swap_token_b_amount) == amounts_by_direction(
                    trade_direction,
                    result.new_swap_source_amount,
                    result.new_swap_destination_amount,
                )
            }
        }),
{
}

/// A deposit of one token mints at least the minimum the user names, and a
/// withdrawal of one token takes at most the maximum the user names in pool
/// tokens, fee included.
pub proof fn lemma_single_sided_within_limits<C: CurveCalculator>(
    calculator: C,
    fees: Fees,
    assess_withdraw_fee: bool,
    curve_pool_tokens: Option<u128>,
    pool_mint_supply: u64,
    minimum_pool_token_amount: u64,
    maximum_pool_token_amount: u64,
)
    ensures
        spec_plan_deposit_single_token_type(
            calculator,
            curve_pool_tokens,
            pool_mint_supply,
            minimum_pool_token_amount,
        ) matches Ok(minted) ==> minted >= minimum_pool_token_amount && minted > 0,
        spec_plan_withdraw_single_token_type(
            fees,
            assess_withdraw_fee,
            curve_pool_tokens,
            maximum_pool_token_amount,
        ) matches Ok(plan) ==> {
            &&& plan.burn_pool_token_amount + plan.withdraw_fee <= maximum_pool_token_amount
            &&& curve_pool_tokens == Some(plan.burn_pool_token_amount as u128)
        },
{
}


/// For the constant product curve, a withdrawal of both tokens pays each
/// side the share of it that the burned pool tokens are of the supply,
/// rounded down and capped by what the side holds.
pub proof fn lemma_constant_product_withdraw_all_proportional(
    fees: Fees,
    assess_withdraw_fee: bool,
    pool_token_amount: u64,
    minimum_token_a_amount: u64,
    minimum_token_b_amount: u64,
    swap_token_a_amount: u64,
    swap_token_b_amount: u64,
    pool_mint_supply: u64,
)
    ensures
        spec_plan_withdraw_all_token_types(
            crate::curve::constant_product::ConstantProductCurve,
            fees,
            assess_withdraw_fee,
            pool_token_amount,
            minimum_token_a_amount,
            minimum_token_b_amount,
            swap_token_a_amount,
            swap_token_b_amount,
            pool_mint_supply,
        ) matches Ok(plan) ==> {
            &&& plan.token_a_amount == min_u64(
                swap_token_a_amount,
                ((plan.pool_token_amount * swap_token_a_amount) / (pool_mint_supply as int)) as u64,
            )
            &&& plan.token_b_amount == min_u64(
                swap_token_b_amount,
                ((plan.pool_token_amount * swap_token_b_amount) / (pool_mint_supply as int)) as u64,
            )
        },
{
}

} // verus!
