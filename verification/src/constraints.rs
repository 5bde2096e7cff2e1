//! Various constraints as required for production environments

use vstd::prelude::*;

use crate::curve::cp::ConstantProductCurve;
use crate::curve::flat::FlatCurve;
use crate::curve::shared::{Calculator, CurveType, SwapCurve};
use crate::error::{swap_error_code, ProgramError, SwapError};

verus! {

/// Encodes fee constraints, used in multihost environments where the program
/// may be used by multiple frontends, to ensure that proper fees are being
/// assessed.
/// Since this struct needs to be created at compile-time, we only have access
/// to const functions and constructors. Since SwapCurve contains a Box, it
/// cannot be used, so we have to split the curves based on their types.
pub struct FeeConstraints<'a> {
    /// Owner of the program
    pub owner_key: &'a str,
    /// Valid flat curves for the program
    pub valid_flat_curves: &'a [FlatCurve],
    /// Valid constant product curves for the program
    pub valid_constant_product_curves: &'a [ConstantProductCurve],
}

/// Whether one of the valid curves of the curve's type, taken as a curve of
/// that type, packs to the same bytes as the curve.
pub open spec fn spec_curve_is_valid(
    valid_flat_curves: Seq<FlatCurve>,
    valid_constant_product_curves: Seq<ConstantProductCurve>,
    swap_curve: SwapCurve,
) -> bool {
    match swap_curve.curve_type {
        CurveType::Flat => exists|i: int|
            0 <= i < valid_flat_curves.len() && (SwapCurve {
                curve_type: swap_curve.curve_type,
                calculator: Calculator::Flat(#[trigger] valid_flat_curves[i]),
            }).packed() == swap_curve.packed(),
        CurveType::ConstantProduct => exists|i: int|
            0 <= i < valid_constant_product_curves.len() && (SwapCurve {
                curve_type: swap_curve.curve_type,
                calculator: Calculator::ConstantProduct(#[trigger] valid_constant_product_curves[i]),
            }).packed() == swap_curve.packed(),
    }
}

impl<'a> FeeConstraints<'a> {
    /// Checks that the provided curve is valid for the given constraints
    pub fn validate_curve(&self, swap_curve: &SwapCurve) -> (r: Result<(), ProgramError>)
        ensures
            r is Ok <==> spec_curve_is_valid(
                self.valid_flat_curves@,
                self.valid_constant_product_curves@,
                *swap_curve,
            ),
            r is Err ==> r == Err::<(), ProgramError>(
                ProgramError::Custom(swap_error_code(SwapError::InvalidFee)),
            ),
    {
        match swap_curve.curve_type {
            CurveType::Flat => {
                let n = self.valid_flat_curves.len();
                let mut i: usize = 0;
                while i < n
                    invariant
                        n == self.valid_flat_curves@.len(),
                        swap_curve.curve_type == CurveType::Flat,
                        0 <= i <= n,
                        forall|j: int|
                            0 <= j < i ==> (SwapCurve {
                                curve_type: swap_curve.curve_type,
                                calculator: Calculator::Flat(#[trigger] self.valid_flat_curves@[j]),
                            }).packed() != swap_curve.packed(),
                    decreases n - i,
                {
                    let candidate = SwapCurve {
                        curve_type: swap_curve.curve_type,
                        calculator: Calculator::Flat(self.valid_flat_curves[i]),
                    };
                    if candidate == *swap_curve {
                        return Ok(());
                    }
                    i = i + 1;
                }
            },
            CurveType::ConstantProduct => {
                let n = self.valid_constant_product_curves.len();
                let mut i: usize = 0;
                while i < n
                    invariant
                        n == self.valid_constant_product_curves@.len(),
                        swap_curve.curve_type == CurveType::ConstantProduct,
                        0 <= i <= n,
                        forall|j: int|
                            0 <= j < i ==> (SwapCurve {
                                curve_type: swap_curve.curve_type,
                                calculator: Calculator::ConstantProduct(
                                    #[trigger] self.valid_constant_product_curves@[j],
                                ),
                            }).packed() != swap_curve.packed(),
                    decreases n - i,
                {
                    let candidate = SwapCurve {
                        curve_type: swap_curve.curve_type,
                        calculator: Calculator::ConstantProduct(
                            self.valid_constant_product_curves[i],
                        ),
                    };
                    if candidate == *swap_curve {
                        return Ok(());
                    }
                    i = i + 1;
                }
            },
        }
        Err(ProgramError::from(SwapError::InvalidFee))
    }
}

/// Fee structure defined by program creator in order to enforce certain
/// fees when others use the program.  Adds checks on pool creation and
/// swapping to ensure the correct fees and account owners are passed.
/// Without a production build there are none.
pub const FEE_CONSTRAINTS: Option<FeeConstraints<'static>> = None;

} // verus!
