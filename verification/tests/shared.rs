use token_swap::curve::cp::ConstantProductCurve;
use token_swap::curve::shared::{Calculator, CurveType, SwapCurve};
use token_swap::packing::Pack;

#[test]
fn shared_pack_swap_curve() {
    let trade_fee_numerator = 1;
    let trade_fee_denominator = 4;
    let owner_trade_fee_numerator = 2;
    let owner_trade_fee_denominator = 5;
    let owner_withdraw_fee_numerator = 4;
    let owner_withdraw_fee_denominator = 10;
    let host_fee_numerator = 7;
    let host_fee_denominator = 100;
    let curve = ConstantProductCurve {
        trade_fee_numerator,
        trade_fee_denominator,
        owner_trade_fee_numerator,
        owner_trade_fee_denominator,
        owner_withdraw_fee_numerator,
        owner_withdraw_fee_denominator,
        host_fee_numerator,
        host_fee_denominator,
    };
    let curve_type = CurveType::ConstantProduct;
    let swap_curve = SwapCurve {
        curve_type,
        calculator: Calculator::ConstantProduct(curve),
    };

    let mut packed = [0u8; SwapCurve::LEN];
    Pack::pack_into_slice(&swap_curve, &mut packed[..]);
    let unpacked = SwapCurve::unpack_from_slice(&packed).unwrap();
    assert_eq!(swap_curve, unpacked);

    let mut packed = vec![];
    packed.push(curve_type.to_byte());
    packed.extend_from_slice(&trade_fee_numerator.to_le_bytes());
    packed.extend_from_slice(&trade_fee_denominator.to_le_bytes());
    packed.extend_from_slice(&owner_trade_fee_numerator.to_le_bytes());
    packed.extend_from_slice(&owner_trade_fee_denominator.to_le_bytes());
    packed.extend_from_slice(&owner_withdraw_fee_numerator.to_le_bytes());
    packed.extend_from_slice(&owner_withdraw_fee_denominator.to_le_bytes());
    packed.extend_from_slice(&host_fee_numerator.to_le_bytes());
    packed.extend_from_slice(&host_fee_denominator.to_le_bytes());
    let unpacked = SwapCurve::unpack_from_slice(&packed).unwrap();
    assert_eq!(swap_curve, unpacked);
}

#[test]
fn shared_curve_type_bytes() {
    assert_eq!(CurveType::try_from(0u8), Ok(CurveType::ConstantProduct));
    assert_eq!(CurveType::try_from(1u8), Ok(CurveType::Flat));
    assert!(CurveType::try_from(2u8).is_err());
    assert_eq!(CurveType::default(), CurveType::ConstantProduct);
    let default_curve = SwapCurve::default();
    assert_eq!(default_curve.curve_type, CurveType::ConstantProduct);
}
