use token_swap::curve::serum_market::{mid_price, SerumMarketCurve};
use token_swap::error::{ProgramError, SwapError};
use token_swap::packing::Pack;
use token_swap::pubkey::Pubkey;

fn market_curve() -> SerumMarketCurve {
    SerumMarketCurve {
        trade_fee_numerator: 1,
        trade_fee_denominator: 4,
        owner_trade_fee_numerator: 2,
        owner_trade_fee_denominator: 5,
        owner_withdraw_fee_numerator: 4,
        owner_withdraw_fee_denominator: 10,
        host_fee_numerator: 4,
        host_fee_denominator: 10,
        token_a_mint: Pubkey::new_from_array([1u8; 32]),
        token_a_bids: Pubkey::new_from_array([2u8; 32]),
        token_a_asks: Pubkey::new_from_array([4u8; 32]),
        token_b_mint: Pubkey::new_from_array([6u8; 32]),
        token_b_bids: Pubkey::new_from_array([3u8; 32]),
        token_b_asks: Pubkey::new_from_array([5u8; 32]),
    }
}

#[test]
fn serum_market_pack_curve() {
    let trade_fee_numerator = 1;
    let trade_fee_denominator = 4;
    let owner_trade_fee_numerator = 2;
    let owner_trade_fee_denominator = 5;
    let owner_withdraw_fee_numerator = 4;
    let owner_withdraw_fee_denominator = 10;
    let host_fee_numerator = 4;
    let host_fee_denominator = 10;
    let token_a_mint_raw = [1u8; 32];
    let token_b_mint_raw = [6u8; 32];
    let token_a_bids_raw = [2u8; 32];
    let token_b_bids_raw = [3u8; 32];
    let token_a_asks_raw = [4u8; 32];
    let token_b_asks_raw = [5u8; 32];

    let token_a_mint = Pubkey::new_from_array(token_a_mint_raw);
    let token_a_bids = Pubkey::new_from_array(token_a_bids_raw);
    let token_a_asks = Pubkey::new_from_array(token_a_asks_raw);
    let token_b_mint = Pubkey::new_from_array(token_b_mint_raw);
    let token_b_bids = Pubkey::new_from_array(token_b_bids_raw);
    let token_b_asks = Pubkey::new_from_array(token_b_asks_raw);
    let curve = SerumMarketCurve {
        trade_fee_numerator,
        trade_fee_denominator,
        owner_trade_fee_numerator,
        owner_trade_fee_denominator,
        owner_withdraw_fee_numerator,
        owner_withdraw_fee_denominator,
        host_fee_numerator,
        host_fee_denominator,
        token_a_mint,
        token_a_bids,
        token_a_asks,
        token_b_mint,
        token_b_bids,
        token_b_asks,
    };

    let mut packed = [0u8; SerumMarketCurve::LEN];
    Pack::pack_into_slice(&curve, &mut packed[..]);
    let unpacked = SerumMarketCurve::unpack(&packed).unwrap();
    assert_eq!(curve, unpacked);

    let mut packed = vec![];
    packed.extend_from_slice(&trade_fee_numerator.to_le_bytes());
    packed.extend_from_slice(&trade_fee_denominator.to_le_bytes());
    packed.extend_from_slice(&owner_trade_fee_numerator.to_le_bytes());
    packed.extend_from_slice(&owner_trade_fee_denominator.to_le_bytes());
    packed.extend_from_slice(&owner_withdraw_fee_numerator.to_le_bytes());
    packed.extend_from_slice(&owner_withdraw_fee_denominator.to_le_bytes());
    packed.extend_from_slice(&host_fee_numerator.to_le_bytes());
    packed.extend_from_slice(&host_fee_denominator.to_le_bytes());
    packed.extend_from_slice(&token_a_mint_raw);
    packed.extend_from_slice(&token_a_bids_raw);
    packed.extend_from_slice(&token_a_asks_raw);
    packed.extend_from_slice(&token_b_mint_raw);
    packed.extend_from_slice(&token_b_bids_raw);
    packed.extend_from_slice(&token_b_asks_raw);
    let unpacked = SerumMarketCurve::unpack(&packed).unwrap();
    assert_eq!(curve, unpacked);
}

#[test]
fn serum_market_unpack_refuses_short_input() {
    let packed = vec![0u8; SerumMarketCurve::LEN - 1];
    assert_eq!(
        SerumMarketCurve::unpack(&packed),
        Err(ProgramError::InvalidAccountData)
    );
}

#[test]
fn serum_market_mid_price() {
    assert_eq!(mid_price(Some(400), Some(10001)), Some(5200));
    assert_eq!(mid_price(Some(3), Some(4)), Some(3));
    assert_eq!(mid_price(None, Some(4)), None);
    assert_eq!(mid_price(Some(3), None), None);
    assert_eq!(mid_price(Some(u64::MAX), Some(1)), None);
}

#[test]
fn serum_market_swap_at_market_prices() {
    let curve = SerumMarketCurve::default();
    // a source token worth 10 buys five destination tokens worth 2 each
    let result = curve.swap(100, 1000, 50000, Some(10), Some(2)).unwrap();
    assert_eq!(result.new_source_amount, 1100);
    assert_eq!(result.amount_swapped, 500);
    assert_eq!(result.new_destination_amount, 49500);
    assert_eq!(result.trade_fee, 0);
    assert_eq!(result.owner_fee, 0);

    // the price ratio rounds down
    let result = curve.swap(100, 1000, 50000, Some(2), Some(3)).unwrap();
    assert_eq!(result.amount_swapped, 66);
}

#[test]
fn serum_market_swap_takes_fees() {
    let curve = market_curve();
    let result = curve.swap(100, 1000, 50000, Some(1), Some(1)).unwrap();
    assert_eq!(result.trade_fee, 25);
    assert_eq!(result.owner_fee, 40);
    assert_eq!(result.amount_swapped, 35);
    assert_eq!(result.new_source_amount, 1100);
    assert_eq!(result.new_destination_amount, 49965);
}

#[test]
fn serum_market_swap_refusals() {
    let curve = SerumMarketCurve::default();
    assert_eq!(curve.swap(100, 1000, 50000, None, Some(2)), None);
    assert_eq!(curve.swap(100, 1000, 50000, Some(2), None), None);
    assert_eq!(curve.swap(100, 1000, 50000, Some(2), Some(0)), None);
    // nothing to swap
    assert_eq!(curve.swap(1, 1000, 50000, Some(1), Some(2)), None);
    // not enough in the pool
    assert_eq!(curve.swap(100, 1000, 10, Some(1), Some(1)), None);
    // the source side overflows
    assert_eq!(curve.swap(100, u128::MAX, 50000, Some(1), Some(1)), None);
}

#[test]
fn serum_market_fees() {
    let curve = market_curve();
    assert_eq!(curve.trading_fee(100), Some(25));
    assert_eq!(curve.owner_withdraw_fee(100), Some(40));
    assert_eq!(curve.host_fee(100), Some(40));
    // a fee rounds up to at least one token
    assert_eq!(curve.trading_fee(1), Some(1));
    assert_eq!(SerumMarketCurve::default().trading_fee(100), Some(0));
}

#[test]
fn serum_market_validate_swap_accounts() {
    let curve = market_curve();
    let a_to_b = [
        curve.token_a_bids,
        curve.token_a_asks,
        curve.token_b_bids,
        curve.token_b_asks,
    ];
    assert_eq!(
        curve.validate_swap_accounts(&curve.token_a_mint, &curve.token_b_mint, &a_to_b),
        Ok(())
    );
    let b_to_a = [
        curve.token_b_bids,
        curve.token_b_asks,
        curve.token_a_bids,
        curve.token_a_asks,
    ];
    assert_eq!(
        curve.validate_swap_accounts(&curve.token_b_mint, &curve.token_a_mint, &b_to_a),
        Ok(())
    );
    let invalid = Err(ProgramError::from(SwapError::InvalidCurveAccounts));
    assert_eq!(
        curve.validate_swap_accounts(&curve.token_b_mint, &curve.token_a_mint, &a_to_b),
        invalid
    );
    let other_mint = Pubkey::new_from_array([9u8; 32]);
    assert_eq!(
        curve.validate_swap_accounts(&other_mint, &curve.token_b_mint, &a_to_b),
        invalid
    );
    assert_eq!(
        curve.validate_swap_accounts(&curve.token_a_mint, &other_mint, &a_to_b),
        invalid
    );
    assert_eq!(
        curve.validate_swap_accounts(&curve.token_a_mint, &curve.token_b_mint, &a_to_b[..3]),
        Err(ProgramError::NotEnoughAccountKeys)
    );
}
