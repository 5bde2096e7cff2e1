use token_swap::curve::base::SwapCurve;
use token_swap::curve::calculator::TradeDirection;
use token_swap::curve::fees::Fees;
use token_swap::error::{ProgramError, SwapError};
use token_swap::curve::constant_product::ConstantProductCurve;
use token_swap::curve::offset::OffsetCurve;
use token_swap::processor::{
    to_u64, CurveSwapResult, DepositAllPlan, InitializePlan, MintData, Processor, SwapPlan,
    TokenAccountData, WithdrawAllPlan, WithdrawSinglePlan,
};
use token_swap::pubkey::Pubkey;
use token_swap::state::{SwapState, SwapV1, SwapVersion};

fn derive(program_id: &Pubkey, swap: &Pubkey, nonce: u8) -> Option<Pubkey> {
    let program = solana_program::pubkey::Pubkey::new_from_array(program_id.0);
    solana_program::pubkey::Pubkey::create_program_address(&[&swap.0[..], &[nonce]], &program)
        .ok()
        .map(|k| Pubkey(k.to_bytes()))
}

fn find_nonce(program_id: &Pubkey, swap: &Pubkey) -> (u8, Pubkey) {
    let mut nonce = 255u8;
    loop {
        if let Some(key) = derive(program_id, swap, nonce) {
            return (nonce, key);
        }
        nonce -= 1;
    }
}

fn pool(nonce: u8) -> SwapV1 {
    SwapV1 {
        is_initialized: true,
        nonce,
        token_program_id: Pubkey([1u8; 32]),
        token_a: Pubkey([2u8; 32]),
        token_b: Pubkey([3u8; 32]),
        pool_mint: Pubkey([4u8; 32]),
        token_a_mint: Pubkey([5u8; 32]),
        token_b_mint: Pubkey([6u8; 32]),
        pool_fee_account: Pubkey([7u8; 32]),
        fees: Fees {
            trade_fee_numerator: 0,
            trade_fee_denominator: 1,
            owner_trade_fee_numerator: 0,
            owner_trade_fee_denominator: 1,
            owner_withdraw_fee_numerator: 0,
            owner_withdraw_fee_denominator: 1,
        },
        swap_curve: SwapCurve::default(),
        pool_nonce: 0,
    }
}

#[test]
fn processor_authority_id_derives_program_address() {
    let program_id = Pubkey([9u8; 32]);
    let swap = Pubkey([8u8; 32]);
    let (nonce, expected) = find_nonce(&program_id, &swap);
    let authority = Processor::authority_id(&program_id, &swap, nonce).unwrap();
    assert_eq!(authority, expected);
    assert_ne!(authority, swap);
    assert_ne!(authority, program_id);
}

#[test]
fn processor_check_accounts() {
    let program_id = Pubkey([9u8; 32]);
    let swap = Pubkey([8u8; 32]);
    let (nonce, authority) = find_nonce(&program_id, &swap);
    let state = pool(nonce);
    let ok = Processor::check_accounts(
        &state,
        &program_id,
        &swap,
        &program_id,
        &authority,
        &state.token_a,
        &state.token_b,
        &state.pool_mint,
        &state.token_program_id,
        Some(Pubkey([20u8; 32])),
        Some(Pubkey([21u8; 32])),
        Some(state.pool_fee_account),
    );
    assert_eq!(ok, Ok(()));
    // a swap account of another program
    assert_eq!(
        Processor::check_accounts(
            &state,
            &program_id,
            &swap,
            &Pubkey([0u8; 32]),
            &authority,
            &state.token_a,
            &state.token_b,
            &state.pool_mint,
            &state.token_program_id,
            None,
            None,
            None,
        ),
        Err(ProgramError::IncorrectProgramId)
    );
    // a wrong authority
    assert_eq!(
        Processor::check_accounts(
            &state,
            &program_id,
            &swap,
            &program_id,
            &swap,
            &state.token_a,
            &state.token_b,
            &state.pool_mint,
            &state.token_program_id,
            None,
            None,
            None,
        ),
        Err(SwapError::InvalidProgramAddress.into())
    );
    // the user's token A account is the pool's
    assert_eq!(
        Processor::check_accounts(
            &state,
            &program_id,
            &swap,
            &program_id,
            &authority,
            &state.token_a,
            &state.token_b,
            &state.pool_mint,
            &state.token_program_id,
            Some(state.token_a),
            None,
            None,
        ),
        Err(SwapError::InvalidInput.into())
    );
    // a wrong fee account
    assert_eq!(
        Processor::check_accounts(
            &state,
            &program_id,
            &swap,
            &program_id,
            &authority,
            &state.token_a,
            &state.token_b,
            &state.pool_mint,
            &state.token_program_id,
            None,
            None,
            Some(state.token_a),
        ),
        Err(SwapError::IncorrectFeeAccount.into())
    );
}

#[test]
fn processor_check_swap_accounts() {
    let program_id = Pubkey([9u8; 32]);
    let swap = Pubkey([8u8; 32]);
    let (nonce, authority) = find_nonce(&program_id, &swap);
    let state = pool(nonce);
    let user_a = Pubkey([30u8; 32]);
    let user_b = Pubkey([31u8; 32]);
    let check = |source: &Pubkey, swap_source: &Pubkey, swap_destination: &Pubkey, destination: &Pubkey| {
        Processor::check_swap_accounts(
            &state,
            &program_id,
            &swap,
            &program_id,
            &authority,
            source,
            swap_source,
            swap_destination,
            destination,
            &state.pool_mint,
            &state.pool_fee_account,
            &state.token_program_id,
        )
    };
    assert_eq!(
        check(&user_a, &state.token_a, &state.token_b, &user_b),
        Ok(TradeDirection::AtoB)
    );
    assert_eq!(
        check(&user_b, &state.token_b, &state.token_a, &user_a),
        Ok(TradeDirection::BtoA)
    );
    assert_eq!(
        check(&user_a, &state.token_a, &state.token_a, &user_b),
        Err(SwapError::InvalidInput.into())
    );
    assert_eq!(
        check(&user_a, &user_b, &state.token_a, &user_b),
        Err(SwapError::IncorrectSwapAccount.into())
    );
    assert_eq!(
        check(&state.token_a, &state.token_a, &state.token_b, &user_b),
        Err(SwapError::InvalidInput.into())
    );
}

#[test]
fn processor_to_u64() {
    assert_eq!(to_u64(5), Ok(5));
    assert_eq!(to_u64(u64::MAX as u128), Ok(u64::MAX));
    assert_eq!(
        to_u64(u64::MAX as u128 + 1),
        Err(SwapError::ConversionFailure)
    );
}

fn token_account(mint: u8, owner: &Pubkey, amount: u64) -> TokenAccountData {
    TokenAccountData {
        mint: Pubkey([mint; 32]),
        owner: *owner,
        amount,
        delegate: None,
        close_authority: None,
    }
}

struct NewPool {
    program_id: Pubkey,
    swap: Pubkey,
    authority: Pubkey,
    bump: u8,
    token_a: TokenAccountData,
    token_b: TokenAccountData,
    fee_account: TokenAccountData,
    destination: TokenAccountData,
    pool_mint_key: Pubkey,
    pool_mint: MintData,
}

fn new_pool() -> NewPool {
    let program_id = Pubkey([9u8; 32]);
    let swap = Pubkey([8u8; 32]);
    let program = solana_program::pubkey::Pubkey::new_from_array(program_id.0);
    let (found, bump) =
        solana_program::pubkey::Pubkey::find_program_address(&[&swap.0[..]], &program);
    let authority = Pubkey(found.to_bytes());
    let user = Pubkey([20u8; 32]);
    let pool_mint_key = Pubkey([40u8; 32]);
    NewPool {
        program_id,
        swap,
        authority,
        bump,
        token_a: token_account(30, &authority, 1000),
        token_b: token_account(31, &authority, 2000),
        fee_account: token_account(40, &user, 0),
        destination: token_account(40, &user, 0),
        pool_mint_key,
        pool_mint: MintData {
            mint_authority: Some(authority),
            supply: 0,
            freeze_authority: None,
            close_authority: None,
        },
    }
}

fn check_with<C: token_swap::curve::calculator::CurveCalculator>(
    curve: &C,
    p: &NewPool,
) -> Result<u8, ProgramError> {
    Processor::check_initialize(
        curve,
        &p.program_id,
        &p.swap,
        false,
        &p.authority,
        Ok(p.token_a),
        Ok(p.token_b),
        Ok(p.fee_account),
        Ok(p.destination),
        &p.pool_mint_key,
        Ok(p.pool_mint),
    )
}

fn code(e: SwapError) -> ProgramError {
    ProgramError::from(e)
}

#[test]
fn processor_check_initialize_accepts_a_new_pool() {
    let p = new_pool();
    assert_eq!(check_with(&ConstantProductCurve, &p), Ok(p.bump));
}

#[test]
fn processor_check_initialize_refuses_a_pool_in_use() {
    let p = new_pool();
    let r = Processor::check_initialize(
        &ConstantProductCurve,
        &p.program_id,
        &p.swap,
        true,
        &p.authority,
        Ok(p.token_a),
        Ok(p.token_b),
        Ok(p.fee_account),
        Ok(p.destination),
        &p.pool_mint_key,
        Ok(p.pool_mint),
    );
    assert_eq!(r, Err(code(SwapError::AlreadyInUse)));
}

#[test]
fn processor_check_initialize_refuses_a_wrong_authority() {
    let mut p = new_pool();
    p.authority = Pubkey([21u8; 32]);
    assert_eq!(
        check_with(&ConstantProductCurve, &p),
        Err(code(SwapError::InvalidProgramAddress))
    );
}

#[test]
fn processor_check_initialize_passes_unpack_errors_in_order() {
    let p = new_pool();
    let r = Processor::check_initialize(
        &ConstantProductCurve,
        &p.program_id,
        &p.swap,
        false,
        &p.authority,
        Ok(p.token_a),
        Err(ProgramError::IncorrectProgramId),
        Err(code(SwapError::ExpectedAccount)),
        Ok(p.destination),
        &p.pool_mint_key,
        Err(code(SwapError::ExpectedMint)),
    );
    assert_eq!(r, Err(ProgramError::IncorrectProgramId));
    let r = Processor::check_initialize(
        &ConstantProductCurve,
        &p.program_id,
        &p.swap,
        false,
        &p.authority,
        Ok(p.token_a),
        Ok(p.token_b),
        Ok(p.fee_account),
        Ok(p.destination),
        &p.pool_mint_key,
        Err(code(SwapError::ExpectedMint)),
    );
    assert_eq!(r, Err(code(SwapError::ExpectedMint)));
}

#[test]
fn processor_check_initialize_refuses_bad_accounts() {
    let curve = ConstantProductCurve;
    let mut p = new_pool();
    p.pool_mint.close_authority = Some(p.authority);
    assert_eq!(check_with(&curve, &p), Err(code(SwapError::InvalidCloseAuthority)));

    let mut p = new_pool();
    p.token_b.owner = Pubkey([22u8; 32]);
    assert_eq!(check_with(&curve, &p), Err(code(SwapError::InvalidOwner)));

    let mut p = new_pool();
    p.destination.owner = p.authority;
    assert_eq!(check_with(&curve, &p), Err(code(SwapError::InvalidOutputOwner)));

    let mut p = new_pool();
    p.fee_account.owner = p.authority;
    assert_eq!(check_with(&curve, &p), Err(code(SwapError::InvalidOutputOwner)));

    let mut p = new_pool();
    p.pool_mint.mint_authority = None;
    assert_eq!(check_with(&curve, &p), Err(code(SwapError::InvalidOwner)));

    let mut p = new_pool();
    p.token_b.mint = p.token_a.mint;
    assert_eq!(check_with(&curve, &p), Err(code(SwapError::RepeatedMint)));

    let mut p = new_pool();
    p.token_b.amount = 0;
    assert_eq!(check_with(&curve, &p), Err(code(SwapError::EmptySupply)));

    let mut p = new_pool();
    p.token_a.delegate = Some(Pubkey([23u8; 32]));
    assert_eq!(check_with(&curve, &p), Err(code(SwapError::InvalidDelegate)));

    let mut p = new_pool();
    p.token_b.close_authority = Some(Pubkey([23u8; 32]));
    assert_eq!(check_with(&curve, &p), Err(code(SwapError::InvalidCloseAuthority)));

    let mut p = new_pool();
    p.pool_mint.supply = 1;
    assert_eq!(check_with(&curve, &p), Err(code(SwapError::InvalidSupply)));

    let mut p = new_pool();
    p.pool_mint.freeze_authority = Some(p.authority);
    assert_eq!(check_with(&curve, &p), Err(code(SwapError::InvalidFreezeAuthority)));

    let mut p = new_pool();
    p.fee_account.mint = Pubkey([41u8; 32]);
    assert_eq!(check_with(&curve, &p), Err(code(SwapError::IncorrectPoolMint)));
}

#[test]
fn processor_check_initialize_asks_the_curve_about_supply() {
    let mut p = new_pool();
    p.token_b.amount = 0;
    let offset = OffsetCurve {
        token_b_offset: 10,
    };
    assert_eq!(check_with(&offset, &p), Ok(p.bump));
    p.token_a.amount = 0;
    assert_eq!(check_with(&offset, &p), Err(code(SwapError::EmptySupply)));
}

#[test]
fn processor_plan_initialize_validates_the_curve_and_mints() {
    let p = new_pool();
    let plan = Processor::plan_initialize(
        &ConstantProductCurve,
        &p.program_id,
        &p.swap,
        false,
        &p.authority,
        Ok(p.token_a),
        Ok(p.token_b),
        Ok(p.fee_account),
        Ok(p.destination),
        &p.pool_mint_key,
        Ok(p.pool_mint),
    );
    assert_eq!(
        plan,
        Ok(InitializePlan {
            bump_seed: p.bump,
            initial_pool_tokens: 1_000_000_000,
        })
    );
    let bad_curve = OffsetCurve { token_b_offset: 0 };
    let plan = Processor::plan_initialize(
        &bad_curve,
        &p.program_id,
        &p.swap,
        false,
        &p.authority,
        Ok(p.token_a),
        Ok(p.token_b),
        Ok(p.fee_account),
        Ok(p.destination),
        &p.pool_mint_key,
        Ok(p.pool_mint),
    );
    assert_eq!(plan, Err(code(SwapError::InvalidCurve)));
    // the account checks come first
    let plan = Processor::plan_initialize(
        &bad_curve,
        &p.program_id,
        &p.swap,
        true,
        &p.authority,
        Ok(p.token_a),
        Ok(p.token_b),
        Ok(p.fee_account),
        Ok(p.destination),
        &p.pool_mint_key,
        Ok(p.pool_mint),
    );
    assert_eq!(plan, Err(code(SwapError::AlreadyInUse)));
}

#[test]
fn processor_plan_deposit_all_token_types() {
    let curve = ConstantProductCurve;
    assert_eq!(
        Processor::plan_deposit_all_token_types(&curve, 10, 100, 200, 1000, 2000, 100),
        Ok(DepositAllPlan {
            token_a_amount: 100,
            token_b_amount: 200,
            pool_token_amount: 10,
        })
    );
    assert_eq!(
        Processor::plan_deposit_all_token_types(&curve, 10, 99, 200, 1000, 2000, 100),
        Err(SwapError::ExceededSlippage)
    );
    assert_eq!(
        Processor::plan_deposit_all_token_types(&curve, 10, 100, 199, 1000, 2000, 100),
        Err(SwapError::ExceededSlippage)
    );
    assert_eq!(
        Processor::plan_deposit_all_token_types(&curve, 0, 100, 200, 1000, 2000, 100),
        Err(SwapError::ZeroTradingTokens)
    );
    // a pool without pool tokens takes the initial supply
    assert_eq!(
        Processor::plan_deposit_all_token_types(&curve, 10, 1000, 2000, 1000, 2000, 0),
        Ok(DepositAllPlan {
            token_a_amount: 1000,
            token_b_amount: 2000,
            pool_token_amount: 1_000_000_000,
        })
    );
}

fn withdraw_fees() -> Fees {
    Fees {
        trade_fee_numerator: 0,
        trade_fee_denominator: 1,
        owner_trade_fee_numerator: 0,
        owner_trade_fee_denominator: 1,
        owner_withdraw_fee_numerator: 1,
        owner_withdraw_fee_denominator: 10,
    }
}

#[test]
fn processor_plan_withdraw_all_token_types() {
    let curve = ConstantProductCurve;
    let fees = withdraw_fees();
    assert_eq!(
        Processor::plan_withdraw_all_token_types(&curve, &fees, true, 10, 90, 180, 1000, 2000, 100),
        Ok(WithdrawAllPlan {
            withdraw_fee: 1,
            pool_token_amount: 9,
            token_a_amount: 90,
            token_b_amount: 180,
        })
    );
    assert_eq!(
        Processor::plan_withdraw_all_token_types(&curve, &fees, true, 10, 91, 180, 1000, 2000, 100),
        Err(SwapError::ExceededSlippage)
    );
    assert_eq!(
        Processor::plan_withdraw_all_token_types(&curve, &fees, false, 10, 0, 0, 1000, 2000, 100),
        Ok(WithdrawAllPlan {
            withdraw_fee: 0,
            pool_token_amount: 10,
            token_a_amount: 100,
            token_b_amount: 200,
        })
    );
    // nothing comes out of a non-empty side
    assert_eq!(
        Processor::plan_withdraw_all_token_types(&curve, &fees, false, 1, 0, 0, 10, 2000, 100),
        Err(SwapError::ZeroTradingTokens)
    );
    // no pool tokens out: no conversion
    assert_eq!(
        Processor::plan_withdraw_all_token_types(&curve, &fees, false, 1, 0, 0, 10, 20, 0),
        Err(SwapError::ZeroTradingTokens)
    );
}

#[test]
fn processor_plan_single_sided() {
    let a_mint = Pubkey([30u8; 32]);
    let b_mint = Pubkey([31u8; 32]);
    assert_eq!(
        Processor::single_sided_direction(&b_mint, &a_mint, &b_mint),
        Ok(TradeDirection::BtoA)
    );
    assert_eq!(
        Processor::single_sided_direction(&a_mint, &a_mint, &b_mint),
        Ok(TradeDirection::AtoB)
    );
    assert_eq!(
        Processor::single_sided_direction(&Pubkey([32u8; 32]), &a_mint, &b_mint),
        Err(SwapError::IncorrectSwapAccount)
    );
    let curve = ConstantProductCurve;
    assert_eq!(
        Processor::plan_deposit_single_token_type_exact_amount_in(&curve, Some(50), 100, 40),
        Ok(50)
    );
    assert_eq!(
        Processor::plan_deposit_single_token_type_exact_amount_in(&curve, Some(50), 100, 60),
        Err(SwapError::ExceededSlippage)
    );
    assert_eq!(
        Processor::plan_deposit_single_token_type_exact_amount_in(&curve, None, 100, 0),
        Err(SwapError::ZeroTradingTokens)
    );
    assert_eq!(
        Processor::plan_deposit_single_token_type_exact_amount_in(&curve, None, 0, 0),
        Ok(1_000_000_000)
    );
    let fees = withdraw_fees();
    assert_eq!(
        Processor::plan_withdraw_single_token_type_exact_amount_out(&fees, true, Some(50), 60),
        Ok(WithdrawSinglePlan {
            withdraw_fee: 5,
            burn_pool_token_amount: 50,
        })
    );
    assert_eq!(
        Processor::plan_withdraw_single_token_type_exact_amount_out(&fees, true, Some(50), 54),
        Err(SwapError::ExceededSlippage)
    );
    assert_eq!(
        Processor::plan_withdraw_single_token_type_exact_amount_out(&fees, false, Some(0), 54),
        Err(SwapError::ZeroTradingTokens)
    );
    assert_eq!(
        Processor::plan_withdraw_single_token_type_exact_amount_out(&fees, false, None, 54),
        Err(SwapError::ZeroTradingTokens)
    );
}

fn priced_swap() -> CurveSwapResult {
    CurveSwapResult {
        new_swap_source_amount: 1100,
        new_swap_destination_amount: 1910,
        source_amount_swapped: 100,
        destination_amount_swapped: 90,
        trade_fee: 1,
        owner_fee: 2,
    }
}

#[test]
fn processor_plan_swap() {
    let plan = Processor::plan_swap(
        TradeDirection::AtoB,
        Some(priced_swap()),
        85,
        3,
        4,
        Some(10),
        Some(true),
        Some(2),
        true,
    );
    assert_eq!(
        plan,
        Ok(SwapPlan {
            source_transfer_amount: 103,
            destination_transfer_amount: 90,
            swap_token_a_amount: 1100,
            swap_token_b_amount: 1910,
            host_fee: 2,
            owner_fee_pool_tokens: 8,
        })
    );
    let plan = Processor::plan_swap(
        TradeDirection::BtoA,
        Some(priced_swap()),
        86,
        0,
        4,
        Some(10),
        None,
        None,
        false,
    )
    .unwrap();
    assert_eq!(plan.swap_token_a_amount, 1910);
    assert_eq!(plan.swap_token_b_amount, 1100);
    assert_eq!(plan.host_fee, 0);
    assert_eq!(plan.owner_fee_pool_tokens, 0);
    // what the user receives after the destination mint's charge is 86
    assert_eq!(
        Processor::plan_swap(
            TradeDirection::AtoB,
            Some(priced_swap()),
            87,
            3,
            4,
            Some(10),
            None,
            None,
            true
        ),
        Err(SwapError::ExceededSlippage)
    );
    assert_eq!(
        Processor::plan_swap(TradeDirection::AtoB, None, 0, 0, 0, None, None, None, true),
        Err(SwapError::ZeroTradingTokens)
    );
    assert_eq!(
        Processor::plan_swap(
            TradeDirection::AtoB,
            Some(priced_swap()),
            0,
            0,
            0,
            Some(10),
            Some(false),
            Some(2),
            true
        ),
        Err(SwapError::IncorrectPoolMint)
    );
    assert_eq!(
        Processor::plan_swap(
            TradeDirection::AtoB,
            Some(priced_swap()),
            0,
            0,
            0,
            None,
            None,
            None,
            true
        ),
        Err(SwapError::FeeCalculationFailure)
    );
}

#[test]
fn processor_plan_deposit_all_rounds_up_and_needs_deposits() {
    // one pool token of three on sides of five costs the share rounded up
    assert_eq!(
        Processor::plan_deposit_all_token_types(&ConstantProductCurve, 1, 2, 2, 5, 5, 3),
        Ok(DepositAllPlan {
            token_a_amount: 2,
            token_b_amount: 2,
            pool_token_amount: 1,
        })
    );
    assert_eq!(
        Processor::plan_deposit_all_token_types(&ConstantProductCurve, 1, 1, 2, 5, 5, 3),
        Err(SwapError::ExceededSlippage)
    );
    // the offset curve takes no deposits, whatever else holds
    let offset = OffsetCurve { token_b_offset: 10 };
    assert_eq!(
        Processor::plan_deposit_all_token_types(&offset, 1, 100, 100, 5, 5, 3),
        Err(SwapError::UnsupportedCurveOperation)
    );
    assert_eq!(
        Processor::plan_deposit_single_token_type_exact_amount_in(&offset, Some(50), 100, 0),
        Err(SwapError::UnsupportedCurveOperation)
    );
}

#[test]
fn processor_new_pool_state_roundtrips() {
    let p = new_pool();
    let fees = withdraw_fees();
    let curve = SwapCurve {
        curve_type: token_swap::curve::base::CurveType::Stable,
        calculator: token_swap::curve::base::Calculator::Stable(
            token_swap::curve::stable::StableCurve { amp: 3 },
        ),
    };
    let state = Processor::new_pool_state(
        p.bump,
        &Pubkey([1u8; 32]),
        &Pubkey([2u8; 32]),
        &Pubkey([3u8; 32]),
        &p.pool_mint_key,
        &p.token_a,
        &p.token_b,
        &Pubkey([7u8; 32]),
        fees,
        curve,
        9,
    );
    let mut packed = [0u8; SwapVersion::LATEST_LEN];
    SwapVersion::pack(state, &mut packed).unwrap();
    let unpacked = SwapVersion::unpack(&packed).unwrap();
    assert!(SwapState::is_initialized(&unpacked));
    assert_eq!(unpacked.nonce(), p.bump);
    assert_eq!(*unpacked.token_a_mint(), p.token_a.mint);
    assert_eq!(*unpacked.token_b_mint(), p.token_b.mint);
    assert_eq!(*unpacked.pool_mint(), p.pool_mint_key);
    assert_eq!(*unpacked.pool_fee_account(), Pubkey([7u8; 32]));
    assert_eq!(*unpacked.fees(), fees);
    assert_eq!(unpacked.pool_nonce(), 9);
}
