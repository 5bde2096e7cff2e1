use token_swap::curve::calculator::{CurveCalculator, SwapWithoutFeesResult, TradeDirection};
use token_swap::curve::constant_price::ConstantPriceCurve;
use token_swap::packing::{IsInitialized, Pack};

#[test]
fn swap_calculation_no_price() {
    let swap_source_amount: u128 = 0;
    let swap_destination_amount: u128 = 0;
    let source_amount: u128 = 100;
    let token_b_price = 1;
    let curve = ConstantPriceCurve { token_b_price };

    let expected_result = SwapWithoutFeesResult {
        source_amount_swapped: source_amount,
        destination_amount_swapped: source_amount,
    };

    let result = curve
        .swap_without_fees(
            source_amount,
            swap_source_amount,
            swap_destination_amount,
            TradeDirection::AtoB,
        )
        .unwrap();
    assert_eq!(result, expected_result);

    let result = curve
        .swap_without_fees(
            source_amount,
            swap_source_amount,
            swap_destination_amount,
            TradeDirection::BtoA,
        )
        .unwrap();
    assert_eq!(result, expected_result);
}

#[test]
fn constant_price_pack_flat_curve() {
    let token_b_price = 1_251_258;
    let curve = ConstantPriceCurve { token_b_price };

    let mut packed = [0u8; ConstantPriceCurve::LEN];
    Pack::pack_into_slice(&curve, &mut packed[..]);
    let unpacked = ConstantPriceCurve::unpack(&packed).unwrap();
    assert_eq!(curve, unpacked);
    assert!(unpacked.is_initialized());

    let mut packed = vec![];
    packed.extend_from_slice(&token_b_price.to_le_bytes());
    let unpacked = ConstantPriceCurve::unpack(&packed).unwrap();
    assert_eq!(curve, unpacked);
}

fn almost_equal(a: u128, b: u128) {
    if a >= b {
        assert!(a - b <= 1);
    } else {
        assert!(b - a <= 1);
    }
}

fn check_pool_token_conversion(
    token_b_price: u128,
    swap_token_a_amount: u128,
    swap_token_b_amount: u128,
    token_b_amount: u128,
) {
    let token_a_amount = token_b_amount * token_b_price;
    let curve = ConstantPriceCurve {
        token_b_price: token_b_price as u64,
    };
    let pool_supply = curve.new_pool_supply();
    let pool_tokens_from_a = curve
        .trading_tokens_to_pool_tokens(
            token_a_amount,
            swap_token_a_amount,
            swap_token_b_amount,
            pool_supply,
            TradeDirection::AtoB,
        )
        .unwrap();
    let pool_tokens_from_b = curve
        .trading_tokens_to_pool_tokens(
            token_b_amount,
            swap_token_a_amount,
            swap_token_b_amount,
            pool_supply,
            TradeDirection::BtoA,
        )
        .unwrap();
    let results = curve
        .pool_tokens_to_trading_tokens(
            pool_tokens_from_a + pool_tokens_from_b,
            pool_supply,
            swap_token_a_amount,
            swap_token_b_amount,
        )
        .unwrap();
    almost_equal(
        results.token_a_amount / token_b_price,
        token_a_amount / token_b_price,
    ); // takes care of truncation issues
    almost_equal(results.token_b_amount, token_b_amount);
}

#[test]
fn constant_price_pool_token_conversion() {
    let tests: &[(u128, u128, u128, u128)] = &[
        (10_000, 1_000_000, 1, 10),
        (10, 1_000, 100, 1),
        (1_251, 30, 1_288, 1_225),
        (1_000_251, 0, 1_288, 1),
        (1_000_000_000_000, 212, 10_000, 1),
    ];
    for (token_b_price, swap_token_a_amount, swap_token_b_amount, token_b_amount) in tests.iter() {
        check_pool_token_conversion(
            *token_b_price,
            *swap_token_a_amount,
            *swap_token_b_amount,
            *token_b_amount,
        );
    }
}

#[test]
fn swap_calculation_large_price() {
    let token_b_price = 1123513u128;
    let curve = ConstantPriceCurve {
        token_b_price: token_b_price as u64,
    };
    let token_b_amount = 500u128;
    let token_a_amount = token_b_amount * token_b_price;
    let bad_result = curve.swap_without_fees(
        token_b_price - 1u128,
        token_a_amount,
        token_b_amount,
        TradeDirection::AtoB,
    );
    assert!(bad_result.is_none());
    let bad_result =
        curve.swap_without_fees(1u128, token_a_amount, token_b_amount, TradeDirection::AtoB);
    assert!(bad_result.is_none());
    let result = curve
        .swap_without_fees(
            token_b_price,
            token_a_amount,
            token_b_amount,
            TradeDirection::AtoB,
        )
        .unwrap();
    assert_eq!(result.source_amount_swapped, token_b_price);
    assert_eq!(result.destination_amount_swapped, 1u128);
}

#[test]
fn swap_calculation_max_min() {
    let token_b_price = u64::MAX as u128;
    let curve = ConstantPriceCurve {
        token_b_price: token_b_price as u64,
    };
    let token_b_amount = 1u128;
    let token_a_amount = token_b_price;
    let bad_result = curve.swap_without_fees(
        token_b_price - 1u128,
        token_a_amount,
        token_b_amount,
        TradeDirection::AtoB,
    );
    assert!(bad_result.is_none());
    let bad_result =
        curve.swap_without_fees(1u128, token_a_amount, token_b_amount, TradeDirection::AtoB);
    assert!(bad_result.is_none());
    let bad_result =
        curve.swap_without_fees(0u128, token_a_amount, token_b_amount, TradeDirection::AtoB);
    assert!(bad_result.is_none());
    let result = curve
        .swap_without_fees(
            token_b_price,
            token_a_amount,
            token_b_amount,
            TradeDirection::AtoB,
        )
        .unwrap();
    assert_eq!(result.source_amount_swapped, token_b_price);
    assert_eq!(result.destination_amount_swapped, 1u128);
}

#[test]
fn constant_price_buy_b_keeps_remainder() {
    // buying B with A only spends whole multiples of the price
    let curve = ConstantPriceCurve { token_b_price: 10 };
    let result = curve
        .swap_without_fees(25, 1000, 1000, TradeDirection::AtoB)
        .unwrap();
    assert_eq!(result.source_amount_swapped, 20);
    assert_eq!(result.destination_amount_swapped, 2);
    // selling B for A multiplies by the price
    let result = curve
        .swap_without_fees(3, 1000, 1000, TradeDirection::BtoA)
        .unwrap();
    assert_eq!(result.source_amount_swapped, 3);
    assert_eq!(result.destination_amount_swapped, 30);
}

#[test]
fn constant_price_validate_zero_price() {
    let curve = ConstantPriceCurve { token_b_price: 0 };
    assert_eq!(
        curve.validate(),
        Err(token_swap::error::SwapError::InvalidCurve)
    );
    assert!(ConstantPriceCurve { token_b_price: 1 }.validate().is_ok());
    assert_eq!(
        ConstantPriceCurve { token_b_price: 1 }.validate_supply(0, 5),
        Err(token_swap::error::SwapError::EmptySupply)
    );
    assert!(ConstantPriceCurve { token_b_price: 1 }
        .validate_supply(5, 0)
        .is_ok());
}
