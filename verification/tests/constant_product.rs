use token_swap::curve::calculator::{CurveCalculator, TradeDirection, INITIAL_SWAP_POOL_AMOUNT};
use token_swap::curve::constant_product::ConstantProductCurve;
use token_swap::packing::Pack;

/// The epsilon for most curves when performing the conversion test,
/// comparing a one-sided deposit to a swap + deposit.
const CONVERSION_BASIS_POINTS_GUARANTEE: u128 = 50;

/// Depositing one side gives, within a small relative error, the pool tokens
/// of swapping half of it and depositing both sides.
fn check_pool_token_conversion(
    curve: &ConstantProductCurve,
    source_token_amount: u128,
    swap_source_amount: u128,
    swap_destination_amount: u128,
    trade_direction: TradeDirection,
    pool_supply: u128,
    epsilon_in_basis_points: u128,
) {
    let amount_to_swap = source_token_amount / 2;
    let results = curve
        .swap_without_fees(
            amount_to_swap,
            swap_source_amount,
            swap_destination_amount,
            trade_direction,
        )
        .unwrap();
    let opposite_direction = trade_direction.opposite();
    let (swap_token_a_amount, swap_token_b_amount) = match trade_direction {
        TradeDirection::AtoB => (swap_source_amount, swap_destination_amount),
        TradeDirection::BtoA => (swap_destination_amount, swap_source_amount),
    };

    // base amount
    let pool_tokens_from_one_side = curve
        .trading_tokens_to_pool_tokens(
            source_token_amount,
            swap_token_a_amount,
            swap_token_b_amount,
            pool_supply,
            trade_direction,
        )
        .unwrap();

    // perform both separately, updating amounts accordingly
    let (swap_token_a_amount, swap_token_b_amount) = match trade_direction {
        TradeDirection::AtoB => (
            swap_source_amount + results.source_amount_swapped,
            swap_destination_amount - results.destination_amount_swapped,
        ),
        TradeDirection::BtoA => (
            swap_destination_amount - results.destination_amount_swapped,
            swap_source_amount + results.source_amount_swapped,
        ),
    };
    let pool_tokens_from_source = curve
        .trading_tokens_to_pool_tokens(
            source_token_amount - results.source_amount_swapped,
            swap_token_a_amount,
            swap_token_b_amount,
            pool_supply,
            trade_direction,
        )
        .unwrap();
    let pool_tokens_from_destination = curve
        .trading_tokens_to_pool_tokens(
            results.destination_amount_swapped,
            swap_token_a_amount,
            swap_token_b_amount,
            pool_supply + pool_tokens_from_source,
            opposite_direction,
        )
        .unwrap();

    let pool_tokens_total_separate = pool_tokens_from_source + pool_tokens_from_destination;

    // slippage due to rounding or truncation errors
    let epsilon = std::cmp::max(
        1,
        pool_tokens_total_separate * epsilon_in_basis_points / 10000,
    );
    let difference = if pool_tokens_from_one_side >= pool_tokens_total_separate {
        pool_tokens_from_one_side - pool_tokens_total_separate
    } else {
        pool_tokens_total_separate - pool_tokens_from_one_side
    };
    assert!(difference <= epsilon);
}

#[test]
fn constant_product_initial_pool_amount() {
    let calculator = ConstantProductCurve {};
    assert_eq!(calculator.new_pool_supply(), INITIAL_SWAP_POOL_AMOUNT);
}

fn check_pool_token_rate(
    token_a: u128,
    token_b: u128,
    deposit: u128,
    supply: u128,
    expected_a: u128,
    expected_b: u128,
) {
    let calculator = ConstantProductCurve {};
    let results = calculator
        .pool_tokens_to_trading_tokens(deposit, supply, token_a, token_b)
        .unwrap();
    assert_eq!(results.token_a_amount, expected_a);
    assert_eq!(results.token_b_amount, expected_b);
}

#[test]
fn constant_product_trading_token_conversion() {
    check_pool_token_rate(2, 49, 5, 10, 1, 24);
    check_pool_token_rate(100, 202, 5, 101, 4, 10);
    check_pool_token_rate(5, 501, 2, 10, 1, 100);
}

#[test]
fn constant_product_fail_trading_token_conversion() {
    let calculator = ConstantProductCurve {};
    let results = calculator.pool_tokens_to_trading_tokens(5, 10, u128::MAX, 0);
    assert!(results.is_none());
    let results = calculator.pool_tokens_to_trading_tokens(5, 10, 0, u128::MAX);
    assert!(results.is_none());
}

fn test_truncation(
    curve: &ConstantProductCurve,
    source_amount: u128,
    swap_source_amount: u128,
    swap_destination_amount: u128,
    expected_source_amount_swapped: u128,
    expected_destination_amount_swapped: u128,
) {
    let invariant = swap_source_amount * swap_destination_amount;
    let result = curve
        .swap_without_fees(
            source_amount,
            swap_source_amount,
            swap_destination_amount,
            TradeDirection::AtoB,
        )
        .unwrap();
    assert_eq!(result.source_amount_swapped, expected_source_amount_swapped);
    assert_eq!(
        result.destination_amount_swapped,
        expected_destination_amount_swapped
    );
    let new_invariant = (swap_source_amount + result.source_amount_swapped)
        * (swap_destination_amount - result.destination_amount_swapped);
    assert!(new_invariant >= invariant);
}

#[test]
fn constant_product_swap_rounding() {
    let curve = ConstantProductCurve::default();

    // much too small
    assert!(curve
        .swap_without_fees(10, 70_000_000_000, 4_000_000, TradeDirection::AtoB)
        .is_none()); // spot: 10 * 4m / 70b = 0

    let tests: &[(u128, u128, u128, u128, u128)] = &[
        (10, 4_000_000, 70_000_000_000, 10, 174_999), // spot: 10 * 70b / ~4m = 174,999.99
        (20, 30_000 - 20, 10_000, 18, 6), // spot: 20 * 1 / 3.000 = 6.6667 (source can be 18 to get 6 dest.)
        (19, 30_000 - 20, 10_000, 18, 6), // spot: 19 * 1 / 2.999 = 6.3334 (source can be 18 to get 6 dest.)
        (18, 30_000 - 20, 10_000, 18, 6), // spot: 18 * 1 / 2.999 = 6.0001
        (10, 20_000, 30_000, 10, 14),     // spot: 10 * 3 / 2.0010 = 14.99
        (10, 20_000 - 9, 30_000, 10, 14), // spot: 10 * 3 / 2.0001 = 14.999
        (10, 20_000 - 10, 30_000, 10, 15), // spot: 10 * 3 / 2.0000 = 15
        (100, 60_000, 30_000, 99, 49), // spot: 100 * 3 / 6.001 = 49.99 (source can be 99 to get 49 dest.)
        (99, 60_000, 30_000, 99, 49),  // spot: 99 * 3 / 6.001 = 49.49
        (98, 60_000, 30_000, 97, 48), // spot: 98 * 3 / 6.001 = 48.99 (source can be 97 to get 48 dest.)
    ];
    for (
        source_amount,
        swap_source_amount,
        swap_destination_amount,
        expected_source_amount,
        expected_destination_amount,
    ) in tests.iter()
    {
        test_truncation(
            &curve,
            *source_amount,
            *swap_source_amount,
            *swap_destination_amount,
            *expected_source_amount,
            *expected_destination_amount,
        );
    }
}

#[test]
fn constant_product_pool_token_conversion() {
    let tests: &[(u128, u128, u128)] = &[
        (1_000_000, 2400112, 100_000),
        (1_000, 100, 100),
        (30, 1_288, 100_000),
        (1_000, 1_288, 100_000),
        (212, 10_000, 100_000),
    ];
    for (swap_token_a_amount, swap_token_b_amount, token_a_amount) in tests.iter() {
        let curve = ConstantProductCurve {};
        check_pool_token_conversion(
            &curve,
            *token_a_amount,
            *swap_token_a_amount,
            *swap_token_b_amount,
            TradeDirection::AtoB,
            curve.new_pool_supply(),
            CONVERSION_BASIS_POINTS_GUARANTEE,
        );
    }
}

#[test]
fn constant_product_opposite_and_values() {
    assert_eq!(TradeDirection::AtoB.opposite(), TradeDirection::BtoA);
    assert_eq!(TradeDirection::BtoA.opposite(), TradeDirection::AtoB);
    let curve = ConstantProductCurve {};
    // a swap that takes nothing out of the destination side is refused
    assert!(curve
        .swap_without_fees(1, 1_000_000, 1, TradeDirection::AtoB)
        .is_none());
    // the normalized value of a pool is the square root of its invariant
    assert_eq!(curve.normalized_value(4, 9), Some(6));
    assert_eq!(curve.try_normalized_value(4, 9), Some(Some(6)));
    assert_eq!(
        curve.validate_supply(0, 1),
        Err(token_swap::error::SwapError::EmptySupply)
    );
    assert!(curve.validate_supply(1, 1).is_ok());
    assert!(curve.allows_deposits());
}

#[test]
fn constant_product_pack_constant_product_curve() {
    let curve = ConstantProductCurve {};

    let mut packed = [0u8; ConstantProductCurve::LEN];
    Pack::pack_into_slice(&curve, &mut packed[..]);
    let unpacked = ConstantProductCurve::unpack(&packed).unwrap();
    assert_eq!(curve, unpacked);

    let packed = vec![];
    let unpacked = ConstantProductCurve::unpack(&packed).unwrap();
    assert_eq!(curve, unpacked);
}
