use token_swap::constraints::FeeConstraints;
use token_swap::curve::cp::ConstantProductCurve;
use token_swap::curve::flat::FlatCurve;
use token_swap::curve::shared::{Calculator, CurveType, SwapCurve};
use token_swap::error::{ProgramError, SwapError};

#[test]
fn validate_fees() {
    let trade_fee_numerator = 1;
    let trade_fee_denominator = 4;
    let owner_trade_fee_numerator = 2;
    let owner_trade_fee_denominator = 5;
    let owner_withdraw_fee_numerator = 4;
    let owner_withdraw_fee_denominator = 10;
    let host_fee_numerator = 10;
    let host_fee_denominator = 100;
    let owner_key = "";
    let curve_type = CurveType::ConstantProduct;
    let mut calculator = ConstantProductCurve {
        trade_fee_numerator,
        trade_fee_denominator,
        owner_trade_fee_numerator,
        owner_trade_fee_denominator,
        owner_withdraw_fee_numerator,
        owner_withdraw_fee_denominator,
        host_fee_numerator,
        host_fee_denominator,
    };
    let swap_curve = SwapCurve {
        curve_type,
        calculator: Calculator::ConstantProduct(calculator.clone()),
    };
    let fee_constraints = FeeConstraints {
        owner_key,
        valid_constant_product_curves: &[calculator.clone()],
        valid_flat_curves: &[],
    };

    fee_constraints.validate_curve(&swap_curve).unwrap();

    calculator.trade_fee_numerator = trade_fee_numerator - 1;
    let swap_curve = SwapCurve {
        curve_type,
        calculator: Calculator::ConstantProduct(calculator.clone()),
    };
    assert_eq!(
        Err(SwapError::InvalidFee.into()),
        fee_constraints.validate_curve(&swap_curve),
    );
    calculator.trade_fee_numerator = trade_fee_numerator;

    calculator.trade_fee_denominator = trade_fee_denominator - 1;
    let swap_curve = SwapCurve {
        curve_type,
        calculator: Calculator::ConstantProduct(calculator.clone()),
    };
    assert_eq!(
        Err(SwapError::InvalidFee.into()),
        fee_constraints.validate_curve(&swap_curve),
    );
    calculator.trade_fee_denominator = trade_fee_denominator;

    calculator.owner_trade_fee_numerator = owner_trade_fee_numerator - 1;
    let swap_curve = SwapCurve {
        curve_type,
        calculator: Calculator::ConstantProduct(calculator.clone()),
    };
    assert_eq!(
        Err(SwapError::InvalidFee.into()),
        fee_constraints.validate_curve(&swap_curve),
    );
    calculator.owner_trade_fee_numerator = owner_trade_fee_numerator;

    calculator.owner_trade_fee_denominator = owner_trade_fee_denominator - 1;
    let swap_curve = SwapCurve {
        curve_type,
        calculator: Calculator::ConstantProduct(calculator.clone()),
    };
    assert_eq!(
        Err(SwapError::InvalidFee.into()),
        fee_constraints.validate_curve(&swap_curve),
    );
    calculator.owner_trade_fee_denominator = owner_trade_fee_denominator;
}

#[test]
fn constraints_flat_curve_of_other_type() {
    let flat = FlatCurve::default();
    let fee_constraints = FeeConstraints {
        owner_key: "owner",
        valid_constant_product_curves: &[],
        valid_flat_curves: &[flat],
    };
    let swap_curve = SwapCurve {
        curve_type: CurveType::Flat,
        calculator: Calculator::Flat(flat),
    };
    assert_eq!(fee_constraints.validate_curve(&swap_curve), Ok(()));
    // a constant product curve with the same fees is not among the valid ones
    let swap_curve = SwapCurve {
        curve_type: CurveType::ConstantProduct,
        calculator: Calculator::ConstantProduct(ConstantProductCurve::default()),
    };
    assert_eq!(
        fee_constraints.validate_curve(&swap_curve),
        Err(ProgramError::Custom(SwapError::InvalidFee.code()))
    );
}
