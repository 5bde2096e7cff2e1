use token_swap::math::{PreciseNumber, ONE};
use token_swap::curve::math::U256;

const POW_TEST_PRECISION: u128 = 5_000_000; // correct to at least 3 decimal places

fn check_pow_approximation(base: u128, exponent: u128, expected: u128) {
    let base = PreciseNumber { value: base };
    let exponent = PreciseNumber { value: exponent };
    let root = base
        .checked_pow_approximation(&exponent, PreciseNumber::APPROXIMATION_ITERATIONS)
        .unwrap();
    let expected = PreciseNumber { value: expected };
    assert!(root.almost_eq(&expected, POW_TEST_PRECISION));
}

#[test]
fn test_root_approximation() {
    // square root
    check_pow_approximation(ONE / 4, ONE / 2, ONE / 2); // 1/2
    check_pow_approximation(ONE / 101, ONE / 2, 995037190); // 0.099503719020999

    // 5th root
    check_pow_approximation(ONE / 500, ONE * 2 / 5, 832500000); // 0.08325

    // 10th root
    check_pow_approximation(ONE / 1000, ONE * 4 / 50, 5754300000); // 0.57543
}

fn check_pow_fraction(base: u128, exponent: u128, expected: u128) {
    let base = PreciseNumber { value: base };
    let exponent = PreciseNumber { value: exponent };
    let power = base.checked_pow_fraction(&exponent).unwrap();
    let expected = PreciseNumber { value: expected };
    assert!(power.almost_eq(&expected, POW_TEST_PRECISION));
}

#[test]
fn test_pow_fraction() {
    check_pow_fraction(ONE, ONE, ONE);
    check_pow_fraction(ONE * 2, ONE * 2, ONE * 4);
    check_pow_fraction(ONE * 2, ONE * 50 / 3, 104031_9153417880);
    check_pow_fraction(ONE * 2 / 7, ONE * 49 / 4, 2163);
    check_pow_fraction(ONE * 5000 / 5100, ONE / 9, 9978021269); // 0.99780212695
}

#[test]
fn math_precise_basics() {
    let two = PreciseNumber::new(2).unwrap();
    let three = PreciseNumber::new(3).unwrap();
    assert_eq!(two.checked_mul(&three).unwrap().to_imprecise(), Some(6));
    assert_eq!(three.checked_div(&two).unwrap().value, ONE * 3 / 2);
    assert_eq!(two.checked_sub(&three).map(|x| x.value), None);
    assert_eq!(two.checked_add(&three).unwrap().to_imprecise(), Some(5));
    let (diff, negative) = two.unsigned_sub(&three);
    assert!(negative);
    assert_eq!(diff.value, ONE);
    assert_eq!(three.checked_pow(3).unwrap().to_imprecise(), Some(27));
    let half = PreciseNumber { value: ONE * 3 / 2 };
    assert_eq!(half.floor().unwrap().value, ONE);
    assert!(two.checked_div(&PreciseNumber { value: 0 }).is_none());
}

#[test]
fn math_to_imprecise_rounds_and_refuses_large_values() {
    assert_eq!(PreciseNumber { value: 15_000_000_000 }.to_imprecise(), Some(2));
    assert_eq!(PreciseNumber { value: 14_999_999_999 }.to_imprecise(), Some(1));
    let max = PreciseNumber { value: (u64::MAX as u128) * ONE };
    assert_eq!(max.to_imprecise(), Some(u64::MAX));
    let above = PreciseNumber { value: (u64::MAX as u128 + 1) * ONE };
    assert_eq!(above.to_imprecise(), None);
}

#[test]
fn math_u256_power_and_product() {
    let five = U256([5, 0, 0, 0]);
    assert_eq!(five.checked_u8_power(0).map(|x| x.0), Some([1, 0, 0, 0]));
    assert_eq!(five.checked_u8_power(1).map(|x| x.0), Some([5, 0, 0, 0]));
    assert_eq!(five.checked_u8_power(3).map(|x| x.0), Some([125, 0, 0, 0]));
    assert_eq!(five.checked_u8_mul(0).map(|x| x.0), Some([0, 0, 0, 0]));
    assert_eq!(five.checked_u8_mul(4).map(|x| x.0), Some([20, 0, 0, 0]));
    let big = U256([0, 0, 0, 1 << 63]);
    assert!(big.checked_u8_power(2).is_none());
    assert!(big.checked_u8_mul(2).is_none());
}
