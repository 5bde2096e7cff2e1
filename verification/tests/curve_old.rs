use token_swap::curve::{
    Calculator, ConstantProductCurve, CurveCalculator, CurveType, FlatCurve, SwapCurve,
    INITIAL_SWAP_POOL_AMOUNT,
};
use token_swap::packing::Pack;

#[test]
fn curve_initial_pool_amount() {
    let fee_numerator = 0;
    let fee_denominator = 1;
    let calculator = ConstantProductCurve {
        fee_numerator,
        fee_denominator,
    };
    assert_eq!(calculator.new_pool_supply(), INITIAL_SWAP_POOL_AMOUNT);
}

fn check_liquidity_pool_token_rate(token_a: u64, deposit: u64, supply: u64, expected: Option<u64>) {
    let fee_numerator = 0;
    let fee_denominator = 1;
    let calculator = ConstantProductCurve {
        fee_numerator,
        fee_denominator,
    };
    assert_eq!(
        calculator.liquidity_tokens(deposit, supply, token_a),
        expected
    );
}

#[test]
fn issued_tokens() {
    check_liquidity_pool_token_rate(2, 5, 10, Some(1));
    check_liquidity_pool_token_rate(10, 5, 10, Some(5));
    check_liquidity_pool_token_rate(5, 5, 10, Some(2));
    check_liquidity_pool_token_rate(5, 5, 10, Some(2));
    check_liquidity_pool_token_rate(u64::MAX, 5, 10, None);
}

#[test]
fn constant_product_swap_calculation() {
    // calculation on https://github.com/solana-labs/solana-program-library/issues/341
    let swap_source_amount: u64 = 1000;
    let swap_destination_amount: u64 = 50000;
    let fee_numerator: u64 = 1;
    let fee_denominator: u64 = 100;
    let source_amount: u64 = 100;
    let curve = ConstantProductCurve {
        fee_numerator,
        fee_denominator,
    };
    let result = curve
        .swap(source_amount, swap_source_amount, swap_destination_amount)
        .unwrap();
    assert_eq!(result.new_source_amount, 1100);
    assert_eq!(result.amount_swapped, 4505);
    assert_eq!(result.new_destination_amount, 45495);
}

#[test]
fn curve_flat_swap_calculation() {
    let swap_source_amount: u64 = 1000;
    let swap_destination_amount: u64 = 50000;
    let fee_numerator: u64 = 1;
    let fee_denominator: u64 = 100;
    let source_amount: u64 = 100;
    let curve = FlatCurve {
        fee_numerator,
        fee_denominator,
    };
    let result = curve
        .swap(source_amount, swap_source_amount, swap_destination_amount)
        .unwrap();
    let amount_swapped = 99;
    assert_eq!(result.new_source_amount, 1100);
    assert_eq!(result.amount_swapped, amount_swapped);
    assert_eq!(
        result.new_destination_amount,
        swap_destination_amount - amount_swapped
    );
}

#[test]
fn curve_pack_flat_curve() {
    let fee_numerator = 1;
    let fee_denominator = 4;
    let curve = FlatCurve {
        fee_numerator,
        fee_denominator,
    };

    let mut packed = [0u8; FlatCurve::LEN];
    Pack::pack_into_slice(&curve, &mut packed[..]);
    let unpacked = FlatCurve::unpack(&packed).unwrap();
    assert_eq!(curve, unpacked);

    let mut packed = vec![];
    packed.extend_from_slice(&fee_numerator.to_le_bytes());
    packed.extend_from_slice(&fee_denominator.to_le_bytes());
    let unpacked = FlatCurve::unpack(&packed).unwrap();
    assert_eq!(curve, unpacked);
}

#[test]
fn curve_pack_swap_curve() {
    let fee_numerator = 1;
    let fee_denominator = 4;
    let curve = ConstantProductCurve {
        fee_numerator,
        fee_denominator,
    };
    let curve_type = CurveType::ConstantProduct;
    let swap_curve = SwapCurve {
        curve_type,
        calculator: Calculator::ConstantProduct(curve),
    };

    let mut packed = [0u8; SwapCurve::LEN];
    Pack::pack_into_slice(&swap_curve, &mut packed[..]);
    let unpacked = SwapCurve::unpack_from_slice(&packed).unwrap();
    assert_eq!(swap_curve, unpacked);

    let mut packed = vec![];
    packed.push(curve_type.to_byte());
    packed.extend_from_slice(&fee_numerator.to_le_bytes());
    packed.extend_from_slice(&fee_denominator.to_le_bytes());
    packed.extend_from_slice(&[0u8; 48]); // padding
    let unpacked = SwapCurve::unpack_from_slice(&packed).unwrap();
    assert_eq!(swap_curve, unpacked);
}

#[test]
fn curve_swap_zero_fee_and_bad_type() {
    // a fee numerator without a denominator cannot be computed
    let curve = FlatCurve {
        fee_numerator: 1,
        fee_denominator: 0,
    };
    assert!(curve.swap(100, 1000, 1000).is_none());
    // an unknown curve type byte is refused
    let mut packed = [0u8; SwapCurve::LEN];
    packed[0] = 7;
    assert!(SwapCurve::unpack_from_slice(&packed).is_err());
}

#[test]
fn curve_pack_constant_product_curve() {
    let fee_numerator = 1;
    let fee_denominator = 4;
    let curve = ConstantProductCurve {
        fee_numerator,
        fee_denominator,
    };

    let mut packed = [0u8; ConstantProductCurve::LEN];
    Pack::pack_into_slice(&curve, &mut packed[..]);
    let unpacked = ConstantProductCurve::unpack(&packed).unwrap();
    assert_eq!(curve, unpacked);

    let mut packed = vec![];
    packed.extend_from_slice(&fee_numerator.to_le_bytes());
    packed.extend_from_slice(&fee_denominator.to_le_bytes());
    let unpacked = ConstantProductCurve::unpack(&packed).unwrap();
    assert_eq!(curve, unpacked);
}
