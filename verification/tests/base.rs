use token_swap::curve::base::{Calculator, CurveType, SwapCurve};
use token_swap::curve::cp::ConstantProductCurve;
use token_swap::curve::stable::StableCurve;
use token_swap::packing::Pack;

#[test]
fn base_pack_swap_curve() {
    let trade_fee_numerator = 1;
    let trade_fee_denominator = 4;
    let owner_trade_fee_numerator = 2;
    let owner_trade_fee_denominator = 5;
    let owner_withdraw_fee_numerator = 4;
    let owner_withdraw_fee_denominator = 10;
    let host_fee_numerator = 7;
    let host_fee_denominator = 100;
    let curve = ConstantProductCurve {
        trade_fee_numerator,
        trade_fee_denominator,
        owner_trade_fee_numerator,
        owner_trade_fee_denominator,
        owner_withdraw_fee_numerator,
        owner_withdraw_fee_denominator,
        host_fee_numerator,
        host_fee_denominator,
    };
    let curve_type = CurveType::ConstantProduct;
    let swap_curve = SwapCurve {
        curve_type,
        calculator: Calculator::ConstantProduct(curve),
    };

    let mut packed = [0u8; SwapCurve::LEN];
    Pack::pack_into_slice(&swap_curve, &mut packed[..]);
    let unpacked = SwapCurve::unpack_from_slice(&packed).unwrap();
    assert_eq!(swap_curve, unpacked);

    let mut packed = vec![];
    packed.push(curve_type.to_byte());
    packed.extend_from_slice(&trade_fee_numerator.to_le_bytes());
    packed.extend_from_slice(&trade_fee_denominator.to_le_bytes());
    packed.extend_from_slice(&owner_trade_fee_numerator.to_le_bytes());
    packed.extend_from_slice(&owner_trade_fee_denominator.to_le_bytes());
    packed.extend_from_slice(&owner_withdraw_fee_numerator.to_le_bytes());
    packed.extend_from_slice(&owner_withdraw_fee_denominator.to_le_bytes());
    packed.extend_from_slice(&host_fee_numerator.to_le_bytes());
    packed.extend_from_slice(&host_fee_denominator.to_le_bytes());
    packed.extend_from_slice(&0u64.to_le_bytes()); // 8 bytes reserved for larget calcs
    let unpacked = SwapCurve::unpack_from_slice(&packed).unwrap();
    assert_eq!(swap_curve, unpacked);
}

#[test]
fn base_pack_stable_curve() {
    let swap_curve = SwapCurve {
        curve_type: CurveType::Stable,
        calculator: Calculator::Stable(StableCurve { amp: 7 }),
    };
    let mut packed = [0u8; SwapCurve::LEN];
    Pack::pack_into_slice(&swap_curve, &mut packed[..]);
    assert_eq!(packed[0], 2);
    assert_eq!(&packed[1..9], &7u64.to_le_bytes());
    let unpacked = SwapCurve::unpack_from_slice(&packed).unwrap();
    assert_eq!(swap_curve, unpacked);
    let mut bad = packed;
    bad[0] = 3;
    assert!(SwapCurve::unpack_from_slice(&bad).is_err());
}

#[test]
fn base_swap_curve_slot() {
    let stable = SwapCurve {
        curve_type: CurveType::Stable,
        calculator: Calculator::Stable(StableCurve { amp: 9 }),
    };
    let mut slot = [0xffu8; SwapCurve::SLOT_LEN];
    stable.pack_into_slot(&mut slot);
    assert_eq!(slot[0], 2);
    assert_eq!(&slot[1..9], &9u64.to_le_bytes());
    assert_eq!(&slot[9..], &[0u8; 24]);
    assert_eq!(SwapCurve::unpack_from_slot(&slot).unwrap(), stable);

    // a constant product curve whose last four fees are zero fits the slot
    let curve = ConstantProductCurve {
        trade_fee_numerator: 1,
        trade_fee_denominator: 4,
        owner_trade_fee_numerator: 2,
        owner_trade_fee_denominator: 5,
        owner_withdraw_fee_numerator: 0,
        owner_withdraw_fee_denominator: 0,
        host_fee_numerator: 0,
        host_fee_denominator: 0,
    };
    let swap_curve = SwapCurve {
        curve_type: CurveType::ConstantProduct,
        calculator: Calculator::ConstantProduct(curve),
    };
    let mut slot = [0u8; SwapCurve::SLOT_LEN];
    swap_curve.pack_into_slot(&mut slot);
    assert_eq!(slot[0], 0);
    assert_eq!(&slot[1..9], &1u64.to_le_bytes());
    assert_eq!(&slot[25..33], &5u64.to_le_bytes());
    assert_eq!(SwapCurve::unpack_from_slot(&slot).unwrap(), swap_curve);

    // an unknown curve type is refused
    slot[0] = 3;
    assert!(SwapCurve::unpack_from_slot(&slot).is_err());
}
