//! Math utilities for swap calculations

use vstd::prelude::*;

verus! {

/// The representation of the number one as a precise number
pub const ONE: u128 = 10_000_000_000;

/// Maximum weight for token in swap
pub const MAX_WEIGHT: u8 = 100;

/// Minimum weight for token in swap
pub const MIN_WEIGHT: u8 = 1;

/// Struct encapsulating a fixed-point number that allows for decimal calculations
#[derive(Clone, Copy, Debug)]
pub struct PreciseNumber {
    /// Wrapper over the inner value, which is multiplied by ONE
    pub value: u128,
}

/// The precise number holding `v`.
pub open spec fn pn(v: u128) -> PreciseNumber {
    PreciseNumber { value: v }
}

/// The precise number one.
pub open spec fn pn_one() -> PreciseNumber {
    pn(ONE)
}

/// Half of one, added before a division to round to the nearest value.
pub open spec fn rounding_correction() -> int {
    (ONE / 2) as int
}

/// A precise number `value`, or nothing when `value` does not fit in 128 bits.
pub open spec fn pn_checked(value: int) -> Option<PreciseNumber> {
    if 0 <= value <= u128::MAX {
        Some(pn(value as u128))
    } else {
        None
    }
}

/// `value` scaled by one.
pub open spec fn spec_new(value: u64) -> Option<PreciseNumber> {
    pn_checked(value * ONE)
}

/// The integer nearest to `a`, rounding halves up, when it fits in 64 bits
/// and adding the rounding correction does not overflow.
pub open spec fn spec_to_imprecise(a: PreciseNumber) -> Option<u64> {
    if a.value + rounding_correction() <= u128::MAX && (a.value + rounding_correction()) / ONE as int
        <= u64::MAX {
        Some(((a.value + rounding_correction()) / ONE as int) as u64)
    } else {
        None
    }
}

/// `a` rounded down to a whole number.
pub open spec fn spec_floor(a: PreciseNumber) -> Option<PreciseNumber> {
    pn_checked((a.value / ONE) * ONE)
}

/// `a / b`, rounded to nearest; when `a * ONE` overflows, the quotient is
/// taken on the whole numbers first.
pub open spec fn spec_checked_div(a: PreciseNumber, b: PreciseNumber) -> Option<PreciseNumber> {
    if b.value == 0 {
        None
    } else if a.value * ONE <= u128::MAX {
        if a.value * ONE + rounding_correction() <= u128::MAX {
            pn_checked((a.value * ONE + rounding_correction()) / b.value as int)
        } else {
            None
        }
    } else if a.value + rounding_correction() <= u128::MAX {
        pn_checked(((a.value + rounding_correction()) / b.value as int) * ONE)
    } else {
        None
    }
}

/// `a * b`, rounded to nearest; when the raw product overflows, the larger
/// factor is first brought down to a whole number.
pub open spec fn spec_checked_mul(a: PreciseNumber, b: PreciseNumber) -> Option<PreciseNumber> {
    if a.value * b.value <= u128::MAX {
        if a.value * b.value + rounding_correction() <= u128::MAX {
            pn_checked((a.value * b.value + rounding_correction()) / ONE as int)
        } else {
            None
        }
    } else if a.value >= b.value {
        pn_checked((a.value / ONE) * b.value)
    } else {
        pn_checked((b.value / ONE) * a.value)
    }
}

/// `a + b`, when it fits.
pub open spec fn spec_checked_add(a: PreciseNumber, b: PreciseNumber) -> Option<PreciseNumber> {
    pn_checked(a.value + b.value)
}

/// `a - b`, when it is not negative.
pub open spec fn spec_checked_sub(a: PreciseNumber, b: PreciseNumber) -> Option<PreciseNumber> {
    pn_checked(a.value - b.value)
}

/// `|a - b|`, and whether `a - b` is negative.
pub open spec fn spec_unsigned_sub(a: PreciseNumber, b: PreciseNumber) -> (PreciseNumber, bool) {
    if a.value >= b.value {
        (pn((a.value - b.value) as u128), false)
    } else {
        (pn((b.value - a.value) as u128), true)
    }
}

/// Binary exponentiation from a state: the result so far, the current
/// square of the base and the exponent still to consume.
pub open spec fn spec_pow_loop(
    result: PreciseNumber,
    squared_base: PreciseNumber,
    exponent: u64,
) -> Option<PreciseNumber>
    decreases exponent,
{
    if exponent == 0 {
        Some(result)
    } else {
        match spec_checked_mul(squared_base, squared_base) {
            None => None,
            Some(next_base) => if exponent % 2 != 0 {
                match spec_checked_mul(result, next_base) {
                    None => None,
                    Some(next_result) => spec_pow_loop(next_result, next_base, exponent / 2),
                }
            } else {
                spec_pow_loop(result, next_base, exponent / 2)
            },
        }
    }
}

/// `base ^ exponent` by repeated squaring, each product rounded as in
/// `spec_checked_mul`.
pub open spec fn spec_checked_pow(base: PreciseNumber, exponent: u64) -> Option<PreciseNumber> {
    spec_pow_loop(
        if exponent % 2 == 0 {
            pn_one()
        } else {
            base
        },
        base,
        exponent / 2,
    )
}

/// The sign of the next Taylor term, given the sign of the previous one and
/// the signs of its two new factors.
pub open spec fn next_negative(negative: bool, x_minus_a_negative: bool, exponent_negative: bool) -> bool {
    let n = if x_minus_a_negative {
        !negative
    } else {
        negative
    };
    if exponent_negative {
        !n
    } else {
        n
    }
}

/// The Taylor series of `x ^ n` around one, from iteration `k` on: `guess`
/// is the sum so far, `term` the last term, `x_minus_a` the distance of the
/// base from one and `exponent_plus_one` is `n + 1`.
pub open spec fn spec_approximation_loop(
    guess: PreciseNumber,
    term: PreciseNumber,
    x_minus_a: PreciseNumber,
    x_minus_a_negative: bool,
    exponent_plus_one: PreciseNumber,
    negative: bool,
    k: u64,
    max_iterations: u64,
) -> Option<PreciseNumber>
    decreases max_iterations - k,
{
    if k >= max_iterations {
        Some(guess)
    } else {
        let precise_k = pn((k * ONE) as u128);
        let (current_exponent, current_exponent_negative) = spec_unsigned_sub(
            exponent_plus_one,
            precise_k,
        );
        match spec_checked_mul(term, current_exponent) {
            None => None,
            Some(t1) => match spec_checked_mul(t1, x_minus_a) {
                None => None,
                Some(t2) => match spec_checked_div(t2, precise_k) {
                    None => None,
                    Some(next_term) => if next_term.value < 100 {
                        Some(guess)
                    } else {
                        let neg = next_negative(
                            negative,
                            x_minus_a_negative,
                            current_exponent_negative,
                        );
                        let next_guess = if neg {
                            spec_checked_sub(guess, next_term)
                        } else {
                            spec_checked_add(guess, next_term)
                        };
                        match next_guess {
                            None => None,
                            Some(g) => spec_approximation_loop(
                                g,
                                next_term,
                                x_minus_a,
                                x_minus_a_negative,
                                exponent_plus_one,
                                neg,
                                (k + 1) as u64,
                                max_iterations,
                            ),
                        }
                    },
                },
            },
        }
    }
}

/// The Taylor-series approximation of `base ^ exponent` around one, with at
/// most `max_iterations - 1` terms after the first.
pub open spec fn spec_checked_pow_approximation(
    base: PreciseNumber,
    exponent: PreciseNumber,
    max_iterations: u64,
) -> Option<PreciseNumber> {
    if exponent.value == 0 {
        Some(pn_one())
    } else {
        let (x_minus_a, x_minus_a_negative) = spec_unsigned_sub(base, pn_one());
        match spec_checked_add(exponent, pn_one()) {
            None => None,
            Some(exponent_plus_one) => spec_approximation_loop(
                pn_one(),
                pn_one(),
                x_minus_a,
                x_minus_a_negative,
                exponent_plus_one,
                false,
                1,
                max_iterations,
            ),
        }
    }
}

/// `base ^ exponent` for a fractional exponent: the whole part by repeated
/// squaring, times the Taylor approximation of the fractional part.
pub open spec fn spec_checked_pow_fraction(base: PreciseNumber, exponent: PreciseNumber) -> Option<
    PreciseNumber,
> {
    match spec_floor(exponent) {
        None => None,
        Some(whole_exponent) => match spec_to_imprecise(whole_exponent) {
            None => None,
            Some(whole) => match spec_checked_pow(base, whole) {
                None => None,
                Some(precise_whole) => {
                    let remainder_exponent = spec_unsigned_sub(exponent, whole_exponent).0;
                    if remainder_exponent.value == 0 {
                        Some(precise_whole)
                    } else {
                        match spec_checked_pow_approximation(
                            base,
                            remainder_exponent,
                            100_000,
                        ) {
                            None => None,
                            Some(precise_remainder) => spec_checked_mul(
                                precise_whole,
                                precise_remainder,
                            ),
                        }
                    }
                },
            },
        },
    }
}

impl PreciseNumber {
    /// Half of one, added before divisions to round to the nearest value
    pub const ROUNDING_CORRECTION: u128 = ONE / 2;

    /// Once a Taylor term falls under this value the approximation stops
    pub const POW_PRECISION: u128 = 100;

    /// Maximum number of terms used by `checked_pow_fraction`
    pub const APPROXIMATION_ITERATIONS: u64 = 100_000;

    /// Smallest base accepted by the fractional powers
    pub const MIN_POW_BASE: u128 = 1;

    /// Largest base accepted by the fractional powers, where the Taylor
    /// series around one still converges
    pub const MAX_POW_BASE: u128 = 2 * ONE;

    fn one() -> (r: Self)
        ensures
            r == pn_one(),
    {
        PreciseNumber { value: ONE }
    }

    /// Create a precise number from an imprecise u64, should always succeed
    pub fn new(value: u64) -> (r: Option<Self>)
        ensures
            r == spec_new(value),
            r is Some,
    {
        proof {
            assert(value * ONE <= u128::MAX) by (nonlinear_arith)
                requires
                    value <= u64::MAX,
            ;
        }
        let value = (value as u128).checked_mul(ONE)?;
        Some(Self { value })
    }

    /// Convert a precise number back to u64
    pub fn to_imprecise(&self) -> (r: Option<u64>)
        ensures
            r == spec_to_imprecise(*self),
    {
        match self.value.checked_add(Self::ROUNDING_CORRECTION)?.checked_div(ONE) {
            Some(v) => if v <= u64::MAX as u128 {
                Some(v as u64)
            } else {
                None
            },
            None => None,
        }
    }

    /// Checks that two PreciseNumber's are equal within some tolerance
    pub fn almost_eq(&self, rhs: &Self, precision: u128) -> (r: bool)
        ensures
            r == (spec_unsigned_sub(*self, *rhs).0.value < precision),
    {
        let (difference, _) = self.unsigned_sub(rhs);
        difference.value < precision
    }

    /// Floors a precise value to a precision of ONE
    pub fn floor(&self) -> (r: Option<Self>)
        ensures
            r == spec_floor(*self),
            r is Some,
            r->0.value <= self.value,
            r->0.value % ONE == 0,
    {
        proof {
            assert((self.value / ONE) * ONE <= self.value) by (nonlinear_arith);
            assert(((self.value / ONE) * ONE) % (ONE as int) == 0) by (nonlinear_arith);
        }
        let value = self.value.checked_div(ONE)?.checked_mul(ONE)?;
        Some(Self { value })
    }

    /// Performs a checked division on two precise numbers
    pub fn checked_div(&self, rhs: &Self) -> (r: Option<Self>)
        ensures
            r == spec_checked_div(*self, *rhs),
    {
        if rhs.value == 0 {
            return None;
        }
        match self.value.checked_mul(ONE) {
            Some(v) => {
                let value = v.checked_add(Self::ROUNDING_CORRECTION)?.checked_div(rhs.value)?;
                Some(Self { value })
            },
            None => {
                let value = self.value.checked_add(Self::ROUNDING_CORRECTION)?.checked_div(
                    rhs.value,
                )?.checked_mul(ONE)?;
                Some(Self { value })
            },
        }
    }

    /// Performs a multiplication on two "precise" integers
    pub fn checked_mul(&self, rhs: &Self) -> (r: Option<Self>)
        ensures
            r == spec_checked_mul(*self, *rhs),
    {
        match self.value.checked_mul(rhs.value) {
            Some(v) => {
                let value = v.checked_add(Self::ROUNDING_CORRECTION)?.checked_div(ONE)?;
                Some(Self { value })
            },
            None => {
                let value = if self.value >= rhs.value {
                    self.value.checked_div(ONE)?.checked_mul(rhs.value)?
                } else {
                    rhs.value.checked_div(ONE)?.checked_mul(self.value)?
                };
                Some(Self { value })
            },
        }
    }

    /// Performs addition of two precise numbers
    pub fn checked_add(&self, rhs: &Self) -> (r: Option<Self>)
        ensures
            r == spec_checked_add(*self, *rhs),
    {
        let value = self.value.checked_add(rhs.value)?;
        Some(Self { value })
    }

    /// Subtracts the argument from self
    pub fn checked_sub(&self, rhs: &Self) -> (r: Option<Self>)
        ensures
            r == spec_checked_sub(*self, *rhs),
    {
        let value = self.value.checked_sub(rhs.value)?;
        Some(Self { value })
    }

    /// Performs a subtraction, returning the result and whether the result is negative
    pub fn unsigned_sub(&self, rhs: &Self) -> (r: (Self, bool))
        ensures
            r == spec_unsigned_sub(*self, *rhs),
    {
        match self.value.checked_sub(rhs.value) {
            None => {
                let value = rhs.value - self.value;
                (Self { value }, true)
            },
            Some(value) => (Self { value }, false),
        }
    }

    /// Performs pow on a precise number
    pub fn checked_pow(&self, exponent: u64) -> (r: Option<Self>)
        ensures
            r == spec_checked_pow(*self, exponent),
            exponent == 0 ==> r == Some(pn_one()),
            exponent == 1 ==> r == Some(*self),
    {
        // For odd powers, start with a multiplication by base since we halve the
        // exponent at the start
        let value = if exponent.checked_rem_euclid(2)? == 0 {
            ONE
        } else {
            self.value
        };
        let mut result = Self { value };

        // To minimize the number of operations, we keep squaring the base, and
        // only push to the result on odd exponents, like a binary decomposition
        // of the exponent.
        let mut squared_base = Self { value: self.value };
        let mut current_exponent = exponent.checked_div(2)?;
        while current_exponent != 0
            invariant
                spec_pow_loop(result, squared_base, current_exponent) == spec_checked_pow(
                    *self,
                    exponent,
                ),
            decreases current_exponent,
        {
            squared_base = squared_base.checked_mul(&squared_base)?;

            // For odd exponents, "push" the base onto the value
            if current_exponent.checked_rem_euclid(2)? != 0 {
                result = result.checked_mul(&squared_base)?;
            }
            current_exponent = current_exponent.checked_div(2)?;
        }
        Some(result)
    }

    /// Approximate the nth root of a number using a Taylor Series around 1 on
    /// x ^ n, where 0 < n < 1, result is a precise number.
    /// Refine the guess for each term, using:
    ///                                  1                    2
    /// f(x) = f(a) + f'(a) * (x - a) + --- * f''(a) * (x - a)  + ...
    ///                                  2!
    /// For x ^ n, this gives:
    ///  n    n         n-1           1                  n-2        2
    /// x  = a  + n * a    (x - a) + --- * n * (n - 1) a     (x - a)  + ...
    ///                               2!
    ///
    /// More simply, this means refining the term at each iteration with:
    ///
    /// t_k+1 = t_k * (x - a) * (n + 1 - k) / k
    ///
    /// where a = 1, n = power, x = precise_num
    pub fn checked_pow_approximation(&self, exponent: &Self, max_iterations: u64) -> (r: Option<
        Self,
    >)
        requires
            Self::MIN_POW_BASE <= self.value <= Self::MAX_POW_BASE,
        ensures
            r == spec_checked_pow_approximation(*self, *exponent, max_iterations),
            exponent.value == 0 ==> r == Some(pn_one()),
    {
        if exponent.value == 0 {
            return Some(Self::one());
        }
        let mut precise_guess = Self::one();
        let mut term = Self::one();
        let (x_minus_a, x_minus_a_negative) = self.unsigned_sub(&precise_guess);
        let exponent_plus_one = exponent.checked_add(&Self::one())?;
        let mut negative = false;
        let mut k: u64 = 1;
        while k < max_iterations
            invariant
                spec_approximation_loop(
                    precise_guess,
                    term,
                    x_minus_a,
                    x_minus_a_negative,
                    exponent_plus_one,
                    negative,
                    k,
                    max_iterations,
                ) == spec_checked_pow_approximation(*self, *exponent, max_iterations),
            decreases max_iterations - k,
        {
            let precise_k = Self::new(k)?;
            let (current_exponent, current_exponent_negative) = exponent_plus_one.unsigned_sub(
                &precise_k,
            );
            term = term.checked_mul(&current_exponent)?;
            term = term.checked_mul(&x_minus_a)?;
            term = term.checked_div(&precise_k)?;
            if term.value < Self::POW_PRECISION {
                return Some(precise_guess);
            }
            if x_minus_a_negative {
                negative = !negative;
            }
            if current_exponent_negative {
                negative = !negative;
            }
            if negative {
                precise_guess = precise_guess.checked_sub(&term)?;
            } else {
                precise_guess = precise_guess.checked_add(&term)?;
            }
            k = k + 1;
        }
        Some(precise_guess)
    }

    /// Get the power of a number, where the exponent is expressed as a fraction
    /// (numerator / denominator)
    pub fn checked_pow_fraction(&self, exponent: &Self) -> (r: Option<Self>)
        requires
            Self::MIN_POW_BASE <= self.value <= Self::MAX_POW_BASE,
        ensures
            r == spec_checked_pow_fraction(*self, *exponent),
    {
        let whole_exponent = exponent.floor()?;
        let precise_whole = self.checked_pow(whole_exponent.to_imprecise()?)?;
        let (remainder_exponent, negative) = exponent.unsigned_sub(&whole_exponent);
        // the floor never exceeds the exponent
        assert(!negative);
        if remainder_exponent.value == 0 {
            return Some(precise_whole);
        }
        let precise_remainder = self.checked_pow_approximation(
            &remainder_exponent,
            Self::APPROXIMATION_ITERATIONS,
        )?;
        precise_whole.checked_mul(&precise_remainder)
    }
}

} // verus!
