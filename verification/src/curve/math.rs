//! Defines useful math utils

use vstd::prelude::*;
use vstd::arithmetic::power::{lemma_pow1, lemma_pow_adds, lemma_pow_increases, pow};

verus! {

/// A 256-bit unsigned integer, held as four 64-bit words, least significant
/// first.
#[derive(Clone, Copy, Debug, PartialEq, Eq)]
pub struct U256(pub [u64; 4]);

/// 2^64, the weight of one word.
pub open spec fn word() -> nat {
    0x1_0000_0000_0000_0000
}

/// The largest value a `U256` holds, 2^256 - 1.
pub open spec fn u256_max() -> nat {
    (word() * word() * word() * word() - 1) as nat
}

impl View for U256 {
    type V = nat;

    open spec fn view(&self) -> nat {
        (self.0[0] + self.0[1] * word() + self.0[2] * word() * word() + self.0[3] * word() * word()
            * word()) as nat
    }
}

impl U256 {
    /// The number `value`.
    #[verifier::external_body]
    pub(crate) fn from_u128(value: u128) -> (r: U256)
        ensures
            r@ == value,
    {
        U256(spl_math::uint::U256::from(value).0)
    }

    /// The number `value`.
    #[verifier::external_body]
    pub(crate) fn from_u64(value: u64) -> (r: U256)
        ensures
            r@ == value,
    {
        U256(spl_math::uint::U256::from(value).0)
    }

    /// The number one.
    #[verifier::external_body]
    pub(crate) fn one() -> (r: U256)
        ensures
            r@ == 1,
    {
        U256(spl_math::uint::U256::one().0)
    }

    /// `self + other`, unless it overflows.
    #[verifier::external_body]
    pub(crate) fn checked_add(self, other: U256) -> (r: Option<U256>)
        ensures
            r is Some <==> self@ + other@ <= u256_max(),
            r matches Some(x) ==> x@ == self@ + other@,
    {
        match spl_math::uint::U256(self.0).checked_add(spl_math::uint::U256(other.0)) {
            Some(v) => Some(U256(v.0)),
            None => None,
        }
    }

    /// `self - other`, unless it underflows.
    #[verifier::external_body]
    pub(crate) fn checked_sub(self, other: U256) -> (r: Option<U256>)
        ensures
            r is Some <==> self@ >= other@,
            r matches Some(x) ==> x@ == self@ - other@,
    {
        match spl_math::uint::U256(self.0).checked_sub(spl_math::uint::U256(other.0)) {
            Some(v) => Some(U256(v.0)),
            None => None,
        }
    }

    /// `self * other`, unless it overflows.
    #[verifier::external_body]
    pub(crate) fn checked_mul(self, other: U256) -> (r: Option<U256>)
        ensures
            r is Some <==> self@ * other@ <= u256_max(),
            r matches Some(x) ==> x@ == self@ * other@,
    {
        match spl_math::uint::U256(self.0).checked_mul(spl_math::uint::U256(other.0)) {
            Some(v) => Some(U256(v.0)),
            None => None,
        }
    }

    /// `self / other` rounded down, unless `other` is zero.
    #[verifier::external_body]
    pub(crate) fn checked_div(self, other: U256) -> (r: Option<U256>)
        ensures
            r is Some <==> other@ != 0,
            r matches Some(x) ==> x@ == self@ / other@,
    {
        match spl_math::uint::U256(self.0).checked_div(spl_math::uint::U256(other.0)) {
            Some(v) => Some(U256(v.0)),
            None => None,
        }
    }

    /// Whether `self > other`.
    #[verifier::external_body]
    pub(crate) fn gt(&self, other: &U256) -> (r: bool)
        ensures
            r == (self@ > other@),
    {
        spl_math::uint::U256(self.0) > spl_math::uint::U256(other.0)
    }

    /// Whether `self <= other`.
    #[verifier::external_body]
    pub(crate) fn le(&self, other: &U256) -> (r: bool)
        ensures
            r == (self@ <= other@),
    {
        spl_math::uint::U256(self.0) <= spl_math::uint::U256(other.0)
    }

    /// The value as a `u128`, unless it is larger.
    #[verifier::external_body]
    pub(crate) fn try_to_u128(self) -> (r: Option<u128>)
        ensures
            r is Some <==> self@ <= u128::MAX,
            r matches Some(x) ==> x == self@,
    {
        u128::try_from(spl_math::uint::U256(self.0)).ok()
    }
}

/// What `checked_u8_power` gives: the power `a ^ b` when it fits in 256
/// bits; one for an exponent of zero.
pub open spec fn spec_u8_power(a: nat, b: u8) -> Option<nat> {
    if b == 0 {
        Some(1)
    } else if b == 1 {
        Some(a)
    } else if pow(a as int, b as nat) <= u256_max() {
        Some(pow(a as int, b as nat) as nat)
    } else {
        None
    }
}

/// What `checked_u8_mul` gives: the product `a * b` when it fits in 256
/// bits; zero for a factor of zero.
pub open spec fn spec_u8_mul(a: nat, b: u8) -> Option<nat> {
    if b == 0 {
        Some(0)
    } else if b == 1 {
        Some(a)
    } else if a * b <= u256_max() {
        Some((a * b) as nat)
    } else {
        None
    }
}

/// The view of an optional number.
pub open spec fn opt_view(r: Option<U256>) -> Option<nat> {
    match r {
        Some(x) => Some(x@),
        None => None,
    }
}

/// The distance between two numbers.
pub open spec fn distance(a: nat, b: nat) -> nat {
    if a >= b {
        (a - b) as nat
    } else {
        (b - a) as nat
    }
}

impl U256 {
    /// Returns selt to the power of b
    pub fn checked_u8_power(&self, b: u8) -> (r: Option<U256>)
        ensures
            opt_view(r) == spec_u8_power(self@, b),
    {
        if b == 0 {
            return Some(U256::one());
        }
        let mut result = *self;
        let mut i: u8 = 1;
        proof {
            lemma_pow1(self@ as int);
        }
        while i < b
            invariant
                1 <= i,
                b > 1 ==> i <= b,
                b <= 1 ==> i == 1,
                result@ == pow(self@ as int, i as nat),
                i > 1 ==> result@ <= u256_max(),
            decreases b - i,
        {
            proof {
                lemma_pow1(self@ as int);
                lemma_pow_adds(self@ as int, i as nat, 1);
                assert(pow(self@ as int, (i + 1) as nat) == result@ * self@);
            }
            match result.checked_mul(*self) {
                Some(next) => {
                    result = next;
                },
                None => {
                    proof {
                        // the power only grows from here on
                        assert(self@ > 0) by (nonlinear_arith)
                            requires
                                result@ * self@ > u256_max(),
                        ;
                        lemma_pow_increases(self@, (i + 1) as nat, b as nat);
                    }
                    return None;
                },
            }
            i = i + 1;
        }
        proof {
            lemma_pow1(self@ as int);
        }
        Some(result)
    }

    /// Returns self multiplied by b
    pub fn checked_u8_mul(&self, b: u8) -> (r: Option<U256>)
        ensures
            opt_view(r) == spec_u8_mul(self@, b),
    {
        if b == 0 {
            return Some(U256::from_u64(0));
        }
        let mut result = *self;
        let mut i: u8 = 1;
        while i < b
            invariant
                1 <= i,
                b > 1 ==> i <= b,
                b <= 1 ==> i == 1,
                result@ == self@ * i,
                i > 1 ==> result@ <= u256_max(),
            decreases b - i,
        {
            proof {
                assert(self@ * i + self@ == self@ * (i + 1)) by (nonlinear_arith);
            }
            match result.checked_add(*self) {
                Some(next) => {
                    result = next;
                },
                None => {
                    proof {
                        assert(self@ * (i + 1) <= self@ * b) by (nonlinear_arith)
                            requires
                                i + 1 <= b,
                        ;
                    }
                    return None;
                },
            }
            i = i + 1;
        }
        proof {
            if b <= 1 {
                assert(i == 1);
                assert(self@ * 1 == self@);
            }
        }
        Some(result)
    }

    /// Returns true of values differ not more than by 1
    pub fn almost_equal(&self, b: &U256) -> (r: Option<bool>)
        ensures
            r == Some(distance(self@, b@) <= 1),
    {
        if self.gt(b) {
            Some(self.checked_sub(*b)?.le(&U256::one()))
        } else {
            Some(b.checked_sub(*self)?.le(&U256::one()))
        }
    }
}

/// The representation of the number one as a precise number, 10^12
pub const PRECISE_ONE: u128 = 1_000_000_000_000;

/// Half of one, the correction that rounds divisions to nearest.
pub open spec fn precise_rounding() -> nat {
    (PRECISE_ONE / 2) as nat
}

/// A fixed-point number with twelve decimals over 256 bits.
#[derive(Clone, Copy, Debug, PartialEq, Eq)]
pub struct PreciseNumber {
    /// The number times 10^12
    pub value: U256,
}

/// The value of an optional precise number.
pub open spec fn pv(r: Option<PreciseNumber>) -> Option<nat> {
    match r {
        Some(x) => Some(x.value@),
        None => None,
    }
}

/// `v` when it fits in 256 bits.
pub open spec fn fits(v: int) -> Option<nat> {
    if 0 <= v <= u256_max() {
        Some(v as nat)
    } else {
        None
    }
}

/// What a precise division gives on the raw values: rounded to nearest, and
/// when `a * ONE` overflows the quotient is taken on the whole numbers first.
pub open spec fn precise_div(a: nat, b: nat) -> Option<nat> {
    if b == 0 {
        None
    } else if a * PRECISE_ONE <= u256_max() {
        if a * PRECISE_ONE + precise_rounding() <= u256_max() {
            Some(((a * PRECISE_ONE + precise_rounding()) / (b as int)) as nat)
        } else {
            None
        }
    } else if a + precise_rounding() <= u256_max() {
        fits((((a + precise_rounding()) as int) / (b as int)) * PRECISE_ONE)
    } else {
        None
    }
}

/// What a precise multiplication gives on the raw values: rounded to
/// nearest, and when the raw product overflows the larger factor is first
/// brought down to a whole number.
pub open spec fn precise_mul(a: nat, b: nat) -> Option<nat> {
    if a * b <= u256_max() {
        if a * b + precise_rounding() <= u256_max() {
            Some(((a * b + precise_rounding()) / (PRECISE_ONE as nat)) as nat)
        } else {
            None
        }
    } else if a >= b {
        fits(((a / (PRECISE_ONE as nat)) * b) as int)
    } else {
        fits(((b / (PRECISE_ONE as nat)) * a) as int)
    }
}

/// What converting a precise value to an integer gives: rounded to nearest.
pub open spec fn precise_to_imprecise(a: nat) -> Option<u128> {
    if a + precise_rounding() <= u256_max() {
        Some(((a + precise_rounding()) / (PRECISE_ONE as nat)) as u128)
    } else {
        None
    }
}

/// Whether converting a precise value to an integer stays within 128 bits,
/// or fails without a result.
pub open spec fn precise_to_imprecise_fits(a: nat) -> bool {
    a + precise_rounding() <= u256_max() ==> (a + precise_rounding()) / (PRECISE_ONE as nat)
        <= u128::MAX
}

/// The square root that the outside library computes by Newton's method
/// on a raw precise value, as a raw precise value.
pub uninterp spec fn precise_sqrt(value: nat) -> Option<nat>;

impl PreciseNumber {
    /// Whether converting to an integer stays within 128 bits, or fails
    /// without a result.
    pub fn fits_imprecise(&self) -> (r: bool)
        ensures
            r == precise_to_imprecise_fits(self.value@),
    {
        match self.value.checked_add(U256::from_u128(PRECISE_ONE / 2)) {
            None => true,
            Some(sum) => match sum.checked_div(U256::from_u128(PRECISE_ONE)) {
                Some(whole) => whole.le(&U256::from_u128(u128::MAX)),
                None => true,
            },
        }
    }

    /// The precise number `value`.
    #[verifier::external_body]
    pub(crate) fn new(value: u128) -> (r: Option<PreciseNumber>)
        ensures
            pv(r) == fits(value * PRECISE_ONE),
    {
        match spl_math::precise_number::PreciseNumber::new(value) {
            Some(v) => Some(PreciseNumber { value: U256(v.value.0) }),
            None => None,
        }
    }

    /// The value rounded to the nearest integer.
    #[verifier::external_body]
    pub(crate) fn to_imprecise(&self) -> (r: Option<u128>)
        requires
            precise_to_imprecise_fits(self.value@),
        ensures
            r == precise_to_imprecise(self.value@),
    {
        spl_math::precise_number::PreciseNumber { value: spl_math::uint::U256(self.value.0) }.to_imprecise()
    }

    /// `self / rhs`.
    #[verifier::external_body]
    pub(crate) fn checked_div(&self, rhs: &Self) -> (r: Option<PreciseNumber>)
        ensures
            pv(r) == precise_div(self.value@, rhs.value@),
    {
        let a = spl_math::precise_number::PreciseNumber { value: spl_math::uint::U256(self.value.0) };
        let b = spl_math::precise_number::PreciseNumber { value: spl_math::uint::U256(rhs.value.0) };
        match a.checked_div(&b) {
            Some(v) => Some(PreciseNumber { value: U256(v.value.0) }),
            None => None,
        }
    }

    /// `self * rhs`.
    #[verifier::external_body]
    pub(crate) fn checked_mul(&self, rhs: &Self) -> (r: Option<PreciseNumber>)
        ensures
            pv(r) == precise_mul(self.value@, rhs.value@),
    {
        let a = spl_math::precise_number::PreciseNumber { value: spl_math::uint::U256(self.value.0) };
        let b = spl_math::precise_number::PreciseNumber { value: spl_math::uint::U256(rhs.value.0) };
        match a.checked_mul(&b) {
            Some(v) => Some(PreciseNumber { value: U256(v.value.0) }),
            None => None,
        }
    }

    /// `self + rhs`.
    #[verifier::external_body]
    pub(crate) fn checked_add(&self, rhs: &Self) -> (r: Option<PreciseNumber>)
        ensures
            pv(r) == fits(self.value@ + rhs.value@ as int),
    {
        let a = spl_math::precise_number::PreciseNumber { value: spl_math::uint::U256(self.value.0) };
        let b = spl_math::precise_number::PreciseNumber { value: spl_math::uint::U256(rhs.value.0) };
        match a.checked_add(&b) {
            Some(v) => Some(PreciseNumber { value: U256(v.value.0) }),
            None => None,
        }
    }

    /// `self - rhs`.
    #[verifier::external_body]
    pub(crate) fn checked_sub(&self, rhs: &Self) -> (r: Option<PreciseNumber>)
        ensures
            pv(r) == fits(self.value@ - rhs.value@),
    {
        let a = spl_math::precise_number::PreciseNumber { value: spl_math::uint::U256(self.value.0) };
        let b = spl_math::precise_number::PreciseNumber { value: spl_math::uint::U256(rhs.value.0) };
        match a.checked_sub(&b) {
            Some(v) => Some(PreciseNumber { value: U256(v.value.0) }),
            None => None,
        }
    }

    /// The square root, approximated by Newton's method.
    #[verifier::external_body]
    pub(crate) fn sqrt(&self) -> (r: Option<PreciseNumber>)
        ensures
            pv(r) == precise_sqrt(self.value@),
    {
        let a = spl_math::precise_number::PreciseNumber { value: spl_math::uint::U256(self.value.0) };
        match a.sqrt() {
            Some(v) => Some(PreciseNumber { value: U256(v.value.0) }),
            None => None,
        }
    }
}

impl PreciseNumber {
    /// The value rounded down to a whole number.
    #[verifier::external_body]
    pub(crate) fn floor(&self) -> (r: Option<PreciseNumber>)
        ensures
            pv(r) == Some(((self.value@ / (PRECISE_ONE as nat)) * PRECISE_ONE) as nat),
    {
        let a = spl_math::precise_number::PreciseNumber { value: spl_math::uint::U256(self.value.0) };
        match a.floor() {
            Some(v) => Some(PreciseNumber { value: U256(v.value.0) }),
            None => None,
        }
    }

    /// The value rounded up to a whole number, unless that overflows.
    #[verifier::external_body]
    pub(crate) fn ceiling(&self) -> (r: Option<PreciseNumber>)
        ensures
            pv(r) == precise_ceiling(self.value@),
    {
        let a = spl_math::precise_number::PreciseNumber { value: spl_math::uint::U256(self.value.0) };
        match a.ceiling() {
            Some(v) => Some(PreciseNumber { value: U256(v.value.0) }),
            None => None,
        }
    }

    /// Whether `self < rhs`.
    #[verifier::external_body]
    pub(crate) fn less_than(&self, rhs: &Self) -> (r: bool)
        ensures
            r == (self.value@ < rhs.value@),
    {
        let a = spl_math::precise_number::PreciseNumber { value: spl_math::uint::U256(self.value.0) };
        let b = spl_math::precise_number::PreciseNumber { value: spl_math::uint::U256(rhs.value.0) };
        a.less_than(&b)
    }

    /// Whether `self >= rhs`.
    #[verifier::external_body]
    pub(crate) fn greater_than_or_equal(&self, rhs: &Self) -> (r: bool)
        ensures
            r == (self.value@ >= rhs.value@),
    {
        let a = spl_math::precise_number::PreciseNumber { value: spl_math::uint::U256(self.value.0) };
        let b = spl_math::precise_number::PreciseNumber { value: spl_math::uint::U256(rhs.value.0) };
        a.greater_than_or_equal(&b)
    }

    /// Whether `self == rhs`.
    #[verifier::external_body]
    pub(crate) fn equals(&self, rhs: &Self) -> (r: bool)
        ensures
            r == (self.value@ == rhs.value@),
    {
        let a = spl_math::precise_number::PreciseNumber { value: spl_math::uint::U256(self.value.0) };
        let b = spl_math::precise_number::PreciseNumber { value: spl_math::uint::U256(rhs.value.0) };
        a == b
    }
}

/// What rounding a raw precise value up to a whole number gives, unless
/// adding almost one overflows.
pub open spec fn precise_ceiling(a: nat) -> Option<nat> {
    if a + PRECISE_ONE - 1 <= u256_max() {
        Some((((a + PRECISE_ONE - 1) as nat / (PRECISE_ONE as nat)) * PRECISE_ONE) as nat)
    } else {
        None
    }
}

} // verus!
