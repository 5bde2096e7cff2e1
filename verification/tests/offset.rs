use token_swap::curve::calculator::{CurveCalculator, TradeDirection};
use token_swap::curve::offset::OffsetCurve;
use token_swap::packing::Pack;

#[test]
fn offset_pack_curve() {
    let token_b_offset = u64::MAX;
    let curve = OffsetCurve { token_b_offset };

    let mut packed = [0u8; OffsetCurve::LEN];
    Pack::pack_into_slice(&curve, &mut packed[..]);
    let unpacked = OffsetCurve::unpack(&packed).unwrap();
    assert_eq!(curve, unpacked);

    let mut packed = vec![];
    packed.extend_from_slice(&token_b_offset.to_le_bytes());
    let unpacked = OffsetCurve::unpack(&packed).unwrap();
    assert_eq!(curve, unpacked);
}

#[test]
fn swap_no_offset() {
    let swap_source_amount: u128 = 1_000;
    let swap_destination_amount: u128 = 50_000;
    let source_amount: u128 = 100;
    let curve = OffsetCurve::default();
    let result = curve
        .swap_without_fees(
            source_amount,
            swap_source_amount,
            swap_destination_amount,
            TradeDirection::AtoB,
        )
        .unwrap();
    assert_eq!(result.source_amount_swapped, source_amount);
    assert_eq!(result.destination_amount_swapped, 4545);
    let result = curve
        .swap_without_fees(
            source_amount,
            swap_source_amount,
            swap_destination_amount,
            TradeDirection::BtoA,
        )
        .unwrap();
    assert_eq!(result.source_amount_swapped, source_amount);
    assert_eq!(result.destination_amount_swapped, 4545);
}

#[test]
fn swap_offset() {
    let swap_source_amount: u128 = 1_000_000;
    let swap_destination_amount: u128 = 0;
    let source_amount: u128 = 100;
    let token_b_offset = 1_000_000;
    let curve = OffsetCurve { token_b_offset };
    let result = curve
        .swap_without_fees(
            source_amount,
            swap_source_amount,
            swap_destination_amount,
            TradeDirection::AtoB,
        )
        .unwrap();
    assert_eq!(result.source_amount_swapped, source_amount);
    assert_eq!(result.destination_amount_swapped, source_amount - 1);

    let bad_result = curve.swap_without_fees(
        source_amount,
        swap_source_amount,
        swap_destination_amount,
        TradeDirection::BtoA,
    );
    assert!(bad_result.is_none());
}

#[test]
fn swap_a_to_b_max_offset() {
    let swap_source_amount: u128 = 10_000_000;
    let swap_destination_amount: u128 = 1_000;
    let source_amount: u128 = 1_000;
    let token_b_offset = u64::MAX;
    let curve = OffsetCurve { token_b_offset };
    let result = curve
        .swap_without_fees(
            source_amount,
            swap_source_amount,
            swap_destination_amount,
            TradeDirection::AtoB,
        )
        .unwrap();
    assert_eq!(result.source_amount_swapped, source_amount);
    assert_eq!(result.destination_amount_swapped, 1_844_489_958_375_117);
}

#[test]
fn swap_b_to_a_max_offset() {
    let swap_source_amount: u128 = 10_000_000;
    let swap_destination_amount: u128 = 1_000;
    let source_amount: u128 = u64::MAX.into();
    let token_b_offset = u64::MAX;
    let curve = OffsetCurve { token_b_offset };
    let result = curve
        .swap_without_fees(
            source_amount,
            swap_source_amount,
            swap_destination_amount,
            TradeDirection::BtoA,
        )
        .unwrap();
    assert_eq!(result.source_amount_swapped, 18_373_104_376_818_475_561);
    assert_eq!(result.destination_amount_swapped, 499);
}

#[test]
fn offset_refuses_deposits() {
    let curve = OffsetCurve { token_b_offset: 5 };
    assert!(!curve.allows_deposits());
    assert_eq!(
        OffsetCurve { token_b_offset: 0 }.validate(),
        Err(token_swap::error::SwapError::InvalidCurve)
    );
}

