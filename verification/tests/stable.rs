use token_swap::curve::calculator::{CurveCalculator, TradeDirection, INITIAL_SWAP_POOL_AMOUNT};
use token_swap::curve::stable::StableCurve;
use token_swap::packing::Pack;

#[test]
fn stable_initial_pool_amount() {
    let amp = 1;
    let calculator = StableCurve { amp };
    assert_eq!(calculator.new_pool_supply(), INITIAL_SWAP_POOL_AMOUNT);
}

fn check_pool_token_rate(token_a: u128, deposit: u128, supply: u128, expected_a: u128) {
    let amp = 1;
    let calculator = StableCurve { amp };
    let results = calculator
        .pool_tokens_to_trading_tokens(deposit, supply, token_a, token_a)
        .unwrap();
    assert_eq!(results.token_a_amount, expected_a);
}

#[test]
fn stable_trading_token_conversion() {
    check_pool_token_rate(2, 5, 10, 1);
    check_pool_token_rate(10, 5, 10, 5);
    check_pool_token_rate(5, 5, 10, 2);
    check_pool_token_rate(5, 5, 10, 2);
}

#[test]
fn stable_fail_trading_token_conversion() {
    let amp = 1;
    let calculator = StableCurve { amp };
    let results = calculator.pool_tokens_to_trading_tokens(5, 10, u128::MAX, u128::MAX);
    assert!(results.is_none());
}

#[test]
fn stable_pack_curve() {
    let amp = 1;
    let curve = StableCurve { amp };

    let mut packed = [0u8; StableCurve::LEN];
    Pack::pack_into_slice(&curve, &mut packed[..]);
    let unpacked = StableCurve::unpack(&packed).unwrap();
    assert_eq!(curve, unpacked);

    let mut packed = vec![];
    packed.extend_from_slice(&amp.to_le_bytes());
    let unpacked = StableCurve::unpack(&packed).unwrap();
    assert_eq!(curve, unpacked);
}

#[test]
fn stable_swap_balanced_pool() {
    // in a balanced pool with a large amplifier the curve is close to 1:1
    let curve = StableCurve { amp: 100 };
    let result = curve
        .swap_without_fees(1_000, 1_000_000, 1_000_000, TradeDirection::AtoB)
        .unwrap();
    assert_eq!(result.source_amount_swapped, 1_000);
    assert!(result.destination_amount_swapped <= 1_000);
    assert!(result.destination_amount_swapped >= 990);
    // the destination side never pays out more than it holds
    let result = curve
        .swap_without_fees(1_000_000_000, 1_000, 1_000, TradeDirection::AtoB)
        .unwrap();
    assert!(result.destination_amount_swapped <= 1_000);
}

#[test]
fn stable_swap_zero_amp_fails() {
    // without an amplifier there is no leverage to compute the invariant with
    let curve = StableCurve { amp: 0 };
    assert!(curve
        .swap_without_fees(10, 1_000, 1_000, TradeDirection::AtoB)
        .is_none());
    assert!(curve.validate().is_ok());
}
