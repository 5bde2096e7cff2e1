use token_swap::curve::base::{Calculator, CurveType, SwapCurve};
use token_swap::curve::fees::Fees;
use token_swap::curve::stable::StableCurve;
use token_swap::error::{ProgramError, SwapError};
use token_swap::instruction::{
    swap_flags, DepositAllTokenTypes, DepositSingleTokenTypeExactAmountIn, DeregisterPool,
    Initialize, Swap, SwapInstruction, WithdrawAllTokenTypes,
    WithdrawSingleTokenTypeExactAmountOut,
};

#[test]
fn pack_swap() {
    let amount_in: u64 = 2;
    let minimum_amount_out: u64 = 10;
    let check = SwapInstruction::Swap(Swap {
        amount_in,
        minimum_amount_out,
        flags: swap_flags::default(),
    });
    let packed = check.pack();
    let mut expect = vec![1];
    expect.extend_from_slice(&amount_in.to_le_bytes());
    expect.extend_from_slice(&minimum_amount_out.to_le_bytes());
    expect.extend_from_slice(&[swap_flags::default()]);
    assert_eq!(packed, expect);
    let unpacked = SwapInstruction::unpack(&expect).unwrap();
    assert_eq!(unpacked, check);
}

#[test]
fn pack_deposit() {
    let pool_token_amount: u64 = 5;
    let maximum_token_a_amount: u64 = 10;
    let maximum_token_b_amount: u64 = 20;
    let check = SwapInstruction::DepositAllTokenTypes(DepositAllTokenTypes {
        pool_token_amount,
        maximum_token_a_amount,
        maximum_token_b_amount,
    });
    let packed = check.pack();
    let mut expect = vec![2];
    expect.extend_from_slice(&pool_token_amount.to_le_bytes());
    expect.extend_from_slice(&maximum_token_a_amount.to_le_bytes());
    expect.extend_from_slice(&maximum_token_b_amount.to_le_bytes());
    assert_eq!(packed, expect);
    let unpacked = SwapInstruction::unpack(&expect).unwrap();
    assert_eq!(unpacked, check);
}

#[test]
fn pack_withdraw() {
    let pool_token_amount: u64 = 1212438012089;
    let minimum_token_a_amount: u64 = 102198761982612;
    let minimum_token_b_amount: u64 = 2011239855213;
    let check = SwapInstruction::WithdrawAllTokenTypes(WithdrawAllTokenTypes {
        pool_token_amount,
        minimum_token_a_amount,
        minimum_token_b_amount,
    });
    let packed = check.pack();
    let mut expect = vec![3];
    expect.extend_from_slice(&pool_token_amount.to_le_bytes());
    expect.extend_from_slice(&minimum_token_a_amount.to_le_bytes());
    expect.extend_from_slice(&minimum_token_b_amount.to_le_bytes());
    assert_eq!(packed, expect);
    let unpacked = SwapInstruction::unpack(&expect).unwrap();
    assert_eq!(unpacked, check);
}

#[test]
fn pack_deposit_one_exact_in() {
    let source_token_amount: u64 = 10;
    let minimum_pool_token_amount: u64 = 5;
    let check =
        SwapInstruction::DepositSingleTokenTypeExactAmountIn(DepositSingleTokenTypeExactAmountIn {
            source_token_amount,
            minimum_pool_token_amount,
        });
    let packed = check.pack();
    let mut expect = vec![4];
    expect.extend_from_slice(&source_token_amount.to_le_bytes());
    expect.extend_from_slice(&minimum_pool_token_amount.to_le_bytes());
    assert_eq!(packed, expect);
    let unpacked = SwapInstruction::unpack(&expect).unwrap();
    assert_eq!(unpacked, check);
}

#[test]
fn pack_withdraw_one_exact_out() {
    let destination_token_amount: u64 = 102198761982612;
    let maximum_pool_token_amount: u64 = 1212438012089;
    let check = SwapInstruction::WithdrawSingleTokenTypeExactAmountOut(
        WithdrawSingleTokenTypeExactAmountOut {
            destination_token_amount,
            maximum_pool_token_amount,
        },
    );
    let packed = check.pack();
    let mut expect = vec![5];
    expect.extend_from_slice(&destination_token_amount.to_le_bytes());
    expect.extend_from_slice(&maximum_pool_token_amount.to_le_bytes());
    assert_eq!(packed, expect);
    let unpacked = SwapInstruction::unpack(&expect).unwrap();
    assert_eq!(unpacked, check);
}

#[test]
fn pack_initialize() {
    let trade_fee_numerator: u64 = 1;
    let trade_fee_denominator: u64 = 4;
    let owner_trade_fee_numerator: u64 = 2;
    let owner_trade_fee_denominator: u64 = 5;
    let owner_withdraw_fee_numerator: u64 = 1;
    let owner_withdraw_fee_denominator: u64 = 3;
    let fees = Fees {
        trade_fee_numerator,
        trade_fee_denominator,
        owner_trade_fee_numerator,
        owner_trade_fee_denominator,
        owner_withdraw_fee_numerator,
        owner_withdraw_fee_denominator,
    };
    let nonce: u8 = 255;
    let amp: u64 = 1;
    let curve_type = CurveType::Stable;
    let calculator = Calculator::Stable(StableCurve { amp });
    let swap_curve = SwapCurve {
        curve_type,
        calculator,
    };
    let pool_nonce: u8 = 250;
    let check = SwapInstruction::Initialize(Initialize {
        nonce,
        fees,
        swap_curve,
        pool_nonce,
    });
    let packed = check.pack();
    let mut expect = vec![0u8, nonce];
    expect.extend_from_slice(&trade_fee_numerator.to_le_bytes());
    expect.extend_from_slice(&trade_fee_denominator.to_le_bytes());
    expect.extend_from_slice(&owner_trade_fee_numerator.to_le_bytes());
    expect.extend_from_slice(&owner_trade_fee_denominator.to_le_bytes());
    expect.extend_from_slice(&owner_withdraw_fee_numerator.to_le_bytes());
    expect.extend_from_slice(&owner_withdraw_fee_denominator.to_le_bytes());
    expect.push(curve_type as u8);
    expect.extend_from_slice(&amp.to_le_bytes());
    expect.extend_from_slice(&[0u8; 24]);
    expect.push(pool_nonce as u8);
    assert_eq!(packed, expect);
    let unpacked = SwapInstruction::unpack(&expect).unwrap();
    assert_eq!(unpacked, check);
}

#[test]
fn instruction_other_kinds_and_errors() {
    let invalid = ProgramError::from(SwapError::InvalidInstruction);
    assert_eq!(SwapInstruction::unpack(&[]), Err(invalid.clone()));
    assert_eq!(SwapInstruction::unpack(&[10]), Err(invalid.clone()));
    assert_eq!(SwapInstruction::unpack(&[2, 1, 2, 3]), Err(invalid.clone()));
    assert_eq!(
        SwapInstruction::unpack(&[6]),
        Ok(SwapInstruction::InitializeRegistry())
    );
    assert_eq!(
        SwapInstruction::unpack(&[9, 1, 2]),
        Ok(SwapInstruction::RepairClosedFeeAccount())
    );
    // a swap without its flags byte takes the default flags
    let mut bytes = vec![1];
    bytes.extend_from_slice(&3u64.to_le_bytes());
    bytes.extend_from_slice(&4u64.to_le_bytes());
    assert_eq!(
        SwapInstruction::unpack(&bytes),
        Ok(SwapInstruction::Swap(Swap {
            amount_in: 3,
            minimum_amount_out: 4,
            flags: 3,
        }))
    );
    bytes[0] = 7;
    assert_eq!(
        SwapInstruction::unpack(&bytes),
        Ok(SwapInstruction::RoutedSwap(Swap {
            amount_in: 3,
            minimum_amount_out: 4,
            flags: 14,
        }))
    );
    let check = SwapInstruction::DeregisterPool(DeregisterPool { pool_index: 42 });
    let packed = check.pack();
    assert_eq!(packed.len(), 9);
    assert_eq!(SwapInstruction::unpack(&packed), Ok(check));
    // an initialize instruction whose curve type is unknown is refused
    let mut init = vec![0u8, 1];
    init.extend_from_slice(&[0u8; 48]);
    init.push(9);
    init.extend_from_slice(&[0u8; 33]);
    assert_eq!(
        SwapInstruction::unpack(&init),
        Err(ProgramError::InvalidAccountData)
    );
    // a zeroed curve slot holds the default curve
    init[50] = 0;
    assert_eq!(
        SwapInstruction::unpack(&init),
        Ok(SwapInstruction::Initialize(Initialize {
            nonce: 1,
            fees: Fees {
                trade_fee_numerator: 0,
                trade_fee_denominator: 0,
                owner_trade_fee_numerator: 0,
                owner_trade_fee_denominator: 0,
                owner_withdraw_fee_numerator: 0,
                owner_withdraw_fee_denominator: 0,
            },
            swap_curve: SwapCurve::default(),
            pool_nonce: 0,
        }))
    );
    // an initialize instruction too short for its fees is refused
    assert_eq!(SwapInstruction::unpack(&[0u8, 1, 2]), Err(invalid));
    assert_eq!(swap_flags::default_routed(), 14);
}
