use token_swap::curve::flat::FlatCurve;
use token_swap::curve::shared::{calculate_fee, CurveCalculator};
use token_swap::packing::Pack;

#[test]
fn flat_flat_swap_calculation() {
    let swap_source_amount = 1000;
    let swap_destination_amount = 50000;
    let trade_fee_numerator = 1;
    let trade_fee_denominator = 100;
    let owner_trade_fee_numerator = 2;
    let owner_trade_fee_denominator = 100;
    let owner_withdraw_fee_numerator = 2;
    let owner_withdraw_fee_denominator = 100;
    let host_fee_numerator = 2;
    let host_fee_denominator = 100;
    let source_amount: u128 = 100;
    let curve = FlatCurve {
        trade_fee_numerator,
        trade_fee_denominator,
        owner_trade_fee_numerator,
        owner_trade_fee_denominator,
        owner_withdraw_fee_numerator,
        owner_withdraw_fee_denominator,
        host_fee_numerator,
        host_fee_denominator,
    };
    let result = curve
        .swap(source_amount, swap_source_amount, swap_destination_amount)
        .unwrap();
    let amount_swapped = 97;
    assert_eq!(result.new_source_amount, 1100);
    assert_eq!(result.amount_swapped, amount_swapped);
    assert_eq!(result.trade_fee, 1);
    assert_eq!(result.owner_fee, 2);
    assert_eq!(
        result.new_destination_amount,
        swap_destination_amount - amount_swapped
    );
}

#[test]
fn flat_pack_flat_curve() {
    let trade_fee_numerator = 1;
    let trade_fee_denominator = 4;
    let owner_trade_fee_numerator = 2;
    let owner_trade_fee_denominator = 5;
    let owner_withdraw_fee_numerator = 4;
    let owner_withdraw_fee_denominator = 10;
    let host_fee_numerator = 4;
    let host_fee_denominator = 10;
    let curve = FlatCurve {
        trade_fee_numerator,
        trade_fee_denominator,
        owner_trade_fee_numerator,
        owner_trade_fee_denominator,
        owner_withdraw_fee_numerator,
        owner_withdraw_fee_denominator,
        host_fee_numerator,
        host_fee_denominator,
    };

    let mut packed = [0u8; FlatCurve::LEN];
    Pack::pack_into_slice(&curve, &mut packed[..]);
    let unpacked = FlatCurve::unpack(&packed).unwrap();
    assert_eq!(curve, unpacked);

    let mut packed = vec![];
    packed.extend_from_slice(&trade_fee_numerator.to_le_bytes());
    packed.extend_from_slice(&trade_fee_denominator.to_le_bytes());
    packed.extend_from_slice(&owner_trade_fee_numerator.to_le_bytes());
    packed.extend_from_slice(&owner_trade_fee_denominator.to_le_bytes());
    packed.extend_from_slice(&owner_withdraw_fee_numerator.to_le_bytes());
    packed.extend_from_slice(&owner_withdraw_fee_denominator.to_le_bytes());
    packed.extend_from_slice(&host_fee_numerator.to_le_bytes());
    packed.extend_from_slice(&host_fee_denominator.to_le_bytes());
    let unpacked = FlatCurve::unpack(&packed).unwrap();
    assert_eq!(curve, unpacked);
}

#[test]
fn shared_calculate_fee_minimum_one() {
    assert_eq!(calculate_fee(100, 0, 0), Some(0));
    assert_eq!(calculate_fee(10, 1, 100), Some(1));
    assert_eq!(calculate_fee(1000, 1, 100), Some(10));
    assert_eq!(calculate_fee(1000, 1, 0), None);
    assert_eq!(calculate_fee(u128::MAX, 2, 3), None);
}

#[test]
fn flat_fees_and_pool_tokens() {
    let curve = FlatCurve {
        trade_fee_numerator: 0,
        trade_fee_denominator: 0,
        owner_trade_fee_numerator: 0,
        owner_trade_fee_denominator: 0,
        owner_withdraw_fee_numerator: 1,
        owner_withdraw_fee_denominator: 10,
        host_fee_numerator: 1,
        host_fee_denominator: 5,
    };
    assert_eq!(curve.owner_withdraw_fee(1000), Some(100));
    assert_eq!(curve.host_fee(1000), Some(200));
    assert_eq!(curve.trading_fee(1000), Some(0));
    // owner fee of 100 on 1000 trading tokens, pool supply 500, two tokens
    assert_eq!(curve.owner_fee_to_pool_tokens(100, 1000, 500, 2), Some(25));
    assert_eq!(curve.owner_fee_to_pool_tokens(100, 0, 500, 2), None);
    assert_eq!(curve.pool_tokens_to_trading_tokens(5, 10, 2), Some(1));
    assert_eq!(curve.pool_tokens_to_trading_tokens(1, 10, 2), None);
    // the fees can exceed what is swapped
    let greedy = FlatCurve {
        trade_fee_numerator: 1,
        trade_fee_denominator: 1,
        owner_trade_fee_numerator: 1,
        owner_trade_fee_denominator: 2,
        owner_withdraw_fee_numerator: 0,
        owner_withdraw_fee_denominator: 0,
        host_fee_numerator: 0,
        host_fee_denominator: 0,
    };
    assert!(greedy.swap(100, 1000, 1000).is_none());
}
