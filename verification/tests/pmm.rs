use token_swap::curve::calculator::{TradeDirection, INITIAL_SWAP_POOL_AMOUNT};
use token_swap::curve::pmm::{
    calculate_r, general_integral, get_expected_target, query_sell_base_token, r_one_buy_base_token,
    r_one_sell_base_token,
    solve_quadratic_function_for_target, solve_quadratic_function_for_trade, try_get_expected_target,
    try_query_buy_base_token, try_query_sell_base_token, try_solve_quadratic_function_for_trade,
    PMMCurve,
};
use token_swap::packing::Pack;

#[test]
fn pmm_initial_pool_amount() {
    let calculator = PMMCurve {
        mid_price: 1000,
        liquidity_parameter_ppb: 1_000_000_000,
        base_regression_target: 1000,
        quote_regression_target: 1000,
    };
    assert_eq!(calculator.new_pool_supply(), INITIAL_SWAP_POOL_AMOUNT);
}

#[test]
fn pmm_pack_roundtrip() {
    let curve = PMMCurve {
        mid_price: 1000,
        liquidity_parameter_ppb: 1_000_000_000,
        base_regression_target: 1000,
        quote_regression_target: 1000,
    };
    let mut packed = [0u8; PMMCurve::LEN];
    Pack::pack_into_slice(&curve, &mut packed[..]);
    let unpacked = PMMCurve::unpack(&packed).unwrap();
    assert_eq!(curve, unpacked);
    assert_eq!(&packed[0..8], &1000u64.to_le_bytes());
    assert_eq!(&packed[8..12], &1_000_000_000u32.to_le_bytes());
}

#[test]
fn pmm_equilibrium_r_is_one() {
    let one = 1_000_000_000_000u64;
    // at the targets the pool stands at equilibrium
    let r = calculate_r(1000, 1000, 1000, 1000, 500_000_000).unwrap();
    assert_eq!(r.value.0, [one, 0, 0, 0]);
    // below the base target R grows: 1 - k + (B0/B)^2 k with k = 1/2, B0/B = 2
    let r = calculate_r(500, 1000, 1000, 1000, 500_000_000).unwrap();
    assert_eq!(r.value.0, [one * 5 / 2, 0, 0, 0]);
    // below the quote target R shrinks to the inverse
    let r = calculate_r(1000, 1000, 500, 1000, 500_000_000).unwrap();
    assert_eq!(r.value.0, [one * 2 / 5, 0, 0, 0]);
    assert_eq!(
        get_expected_target(1, 1000, 1000, 1000, 1000, 500_000_000),
        Some((1000, 1000))
    );
}

#[test]
fn pmm_integral_and_quadratics() {
    // with k = 0 the integral is the fair amount i * (B1 - B2)
    assert_eq!(general_integral(1000, 1500, 1000, 2, 0), Some(1000));
    // B2 above B1 has no integral
    assert_eq!(general_integral(1000, 1000, 1500, 2, 0), None);
    // with k = 1/2, Q0 = Q1 = 1000, selling for 100 quote: the new balance
    // solves Q2^2/2 + (500 - 1000 + 500 + 100) Q2 - 500000 = 0
    let q2 = solve_quadratic_function_for_trade(1000, 1000, 100, false, 500_000_000).unwrap();
    assert_eq!(q2, 905);
    // with k = 1/2 and no fair amount paid in, the target stays the balance
    assert_eq!(
        solve_quadratic_function_for_target(1000, 500_000_000, 0),
        Some(1000)
    );
    // with k = 0 the curve cannot be solved: the premium divides by 2k
    assert_eq!(solve_quadratic_function_for_target(1000, 0, 10), None);
    // selling at equilibrium with k = 1/2
    let received = query_sell_base_token(1, 1000, 1000, 1000, 1000, 500_000_000, 100).unwrap();
    assert_eq!(received, 1000 - 905);
}

#[test]
fn pmm_swap_and_validate() {
    let curve = PMMCurve {
        mid_price: 1,
        liquidity_parameter_ppb: 500_000_000,
        base_regression_target: 1000,
        quote_regression_target: 1000,
    };
    let result = curve
        .swap_without_fees(100, 1000, 1000, TradeDirection::AtoB)
        .unwrap();
    assert_eq!(result.source_amount_swapped, 100);
    assert_eq!(result.destination_amount_swapped, 95);
    assert!(curve.validate().is_ok());
    let bad = PMMCurve {
        liquidity_parameter_ppb: 1_000_000_001,
        ..curve
    };
    assert_eq!(
        bad.validate(),
        Err(token_swap::error::SwapError::InvalidCurve)
    );
    assert!(curve.validate_supply(0, 1).is_err());
    assert!(curve.validate_supply(1, 1).is_ok());
    assert!(curve.allows_deposits());
    // sqrt(k A B) + (1 - k)(A + B)/2 with k = 1/2, A = B = 1000
    let value = curve.normalized_value(1000, 1000).unwrap();
    assert_eq!(value.value.0[1..], [0, 0, 0]);
    assert!(value.value.0[0] > 1207 * 1_000_000_000_000);
    assert!(value.value.0[0] < 1208 * 1_000_000_000_000);
}

#[test]
fn pmm_buy_at_equilibrium() {
    // buying less than the target costs quote tokens; more than it cannot be
    let paid = r_one_buy_base_token(1, 500_000_000, 100, 1000).unwrap();
    assert!(paid > 100);
    assert_eq!(r_one_buy_base_token(1, 500_000_000, 1001, 1000), None);
    let curve = PMMCurve {
        mid_price: 1,
        liquidity_parameter_ppb: 500_000_000,
        base_regression_target: 1000,
        quote_regression_target: 1000,
    };
    let result = curve
        .swap_without_fees(100, 1000, 1000, TradeDirection::BtoA)
        .unwrap();
    assert_eq!(result.source_amount_swapped, 100);
    assert_eq!(result.destination_amount_swapped, paid);
}

#[test]
fn pmm_sell_query_at_equilibrium() {
    let query = query_sell_base_token(1, 1000, 1000, 1000, 1000, 500_000_000, 100);
    assert_eq!(query, r_one_sell_base_token(1, 500_000_000, 100, 1000));
    assert_eq!(query, Some(95));
}

#[test]
fn pmm_checked_variants_agree() {
    let curve = PMMCurve {
        mid_price: 1,
        liquidity_parameter_ppb: 500_000_000,
        base_regression_target: 1000,
        quote_regression_target: 1000,
    };
    // where every conversion fits, the checked variants give what the plain
    // functions give, wrapped once more
    let sold = curve
        .try_swap_without_fees(100, 1000, 1000, TradeDirection::AtoB)
        .unwrap()
        .unwrap();
    assert_eq!(sold.source_amount_swapped, 100);
    assert_eq!(sold.destination_amount_swapped, 95);
    let bought = curve
        .try_swap_without_fees(100, 1000, 1000, TradeDirection::BtoA)
        .unwrap()
        .unwrap();
    assert_eq!(
        Some(bought.destination_amount_swapped),
        r_one_buy_base_token(1, 500_000_000, 100, 1000)
    );
    assert_eq!(
        try_query_sell_base_token(1, 1000, 1000, 1000, 1000, 500_000_000, 100),
        Some(Some(95))
    );
    assert_eq!(
        try_query_buy_base_token(1, 1000, 1000, 1000, 1000, 500_000_000, 1001),
        Some(None)
    );
    assert_eq!(
        try_solve_quadratic_function_for_trade(1000, 1000, 100, false, 500_000_000),
        Some(Some(905))
    );
    assert_eq!(
        try_get_expected_target(1, 1000, 1000, 1000, 1000, 500_000_000),
        Some(Some((1000, 1000)))
    );
}
