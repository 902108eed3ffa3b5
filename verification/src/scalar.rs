//! Scalar capability traits.
//!
//! `FloatLike` is the interface a scalar type must offer so that `Dual` can
//! track values and gradients over it: ring arithmetic, comparison, and the
//! special values of a float-like number line.  Every executable method is
//! pinned to a specification-level counterpart, so code generic over a
//! scalar can state exactly how results are combined from the operands.
//!
//! `ElementaryFunction` extends `FloatLike` with the transcendental and
//! algebraic value functions whose derivative rules the library implements.

use vstd::prelude::*;

verus! {

use vstd::math::abs;
use vstd::wrapping::i64_specs;

/// Scalar interface: arithmetic, comparison and special values.
///
/// Each executable method returns exactly the value named by the matching
/// `*_spec` function of the implementation, so two calls on equal operands
/// agree and contracts further up can speak of the results symbolically.
pub trait FloatLike: Sized + Copy {
    /// The additive identity.
    spec fn zero_spec() -> Self;

    /// The multiplicative identity.
    spec fn one_spec() -> Self;

    /// The scalar's sum of two values.
    spec fn add_spec(self, rhs: Self) -> Self;

    /// The scalar's difference of two values.
    spec fn sub_spec(self, rhs: Self) -> Self;

    /// The scalar's product of two values.
    spec fn mul_spec(self, rhs: Self) -> Self;

    /// The scalar's quotient of two values.
    spec fn div_spec(self, rhs: Self) -> Self;

    /// The scalar's additive inverse.
    spec fn neg_spec(self) -> Self;

    fn zero() -> (r: Self)
        ensures
            r == Self::zero_spec(),
    ;

    fn one() -> (r: Self)
        ensures
            r == Self::one_spec(),
    ;

    fn add(&self, rhs: &Self) -> (r: Self)
        ensures
            r == self.add_spec(*rhs),
    ;

    fn sub(&self, rhs: &Self) -> (r: Self)
        ensures
            r == self.sub_spec(*rhs),
    ;

    fn mul(&self, rhs: &Self) -> (r: Self)
        ensures
            r == self.mul_spec(*rhs),
    ;

    fn div(&self, rhs: &Self) -> (r: Self)
        ensures
            r == self.div_spec(*rhs),
    ;

    fn neg(&self) -> (r: Self)
        ensures
            r == self.neg_spec(),
    ;

    /// The quiet not-a-number value, or a stand-in where the scalar has
    /// none.
    spec fn nan_spec() -> Self;

    /// The positive infinity, or the largest value as a stand-in.
    spec fn infinity_spec() -> Self;

    /// The negative infinity, or the smallest value as a stand-in.
    spec fn neg_infinity_spec() -> Self;

    /// Whether the value is not-a-number.
    spec fn is_nan_spec(self) -> bool;

    /// Whether the value is neither infinite nor not-a-number.
    spec fn is_finite_spec(self) -> bool;

    /// Whether the value is one of the two infinities.
    spec fn is_infinite_spec(self) -> bool;

    /// The scalar's partial order on values; `None` where two values do
    /// not compare (a float that is not-a-number).
    spec fn cmp_spec(self, rhs: Self) -> Option<core::cmp::Ordering>;

    /// The value standing for the integer `n`.
    spec fn from_int_spec(n: i64) -> Self;

    /// What parsing the digits `s` in base `radix` yields, if anything.
    spec fn from_str_radix_spec(s: &str, radix: u32) -> Option<Self>;

    fn nan() -> (r: Self)
        ensures
            r == Self::nan_spec(),
    ;

    fn infinity() -> (r: Self)
        ensures
            r == Self::infinity_spec(),
    ;

    fn neg_infinity() -> (r: Self)
        ensures
            r == Self::neg_infinity_spec(),
    ;

    fn is_nan(&self) -> (r: bool)
        ensures
            r == self.is_nan_spec(),
    ;

    fn is_finite(&self) -> (r: bool)
        ensures
            r == self.is_finite_spec(),
    ;

    fn is_infinite(&self) -> (r: bool)
        ensures
            r == self.is_infinite_spec(),
    ;

    fn value_cmp(&self, rhs: &Self) -> (r: Option<core::cmp::Ordering>)
        ensures
            r == self.cmp_spec(*rhs),
    ;

    fn from_i32(n: i32) -> (r: Self)
        ensures
            r == Self::from_int_spec(n as i64),
    ;

    fn from_i64(n: i64) -> (r: Self)
        ensures
            r == Self::from_int_spec(n),
    ;

    fn from_u64(n: u64) -> (r: Self)
        ensures
            n <= i64::MAX ==> r == Self::from_int_spec(n as i64),
    ;

    fn from_str_radix(s: &str, radix: u32) -> (r: Option<Self>)
        ensures
            r == Self::from_str_radix_spec(s, radix),
    ;
}

/// The transcendental and algebraic value functions whose derivative rules
/// the dual-number layer implements.
///
/// Each executable method is pinned to the matching `*_spec` function of
/// the implementation, so the chain-rule contracts further up can name the
/// values exactly.  Nothing here states what the functions mean
/// numerically; that stays with the implementation.
pub trait ElementaryFunction: FloatLike {
    spec fn sqrt_spec(self) -> Self;

    spec fn cbrt_spec(self) -> Self;

    spec fn powi_spec(self, n: i64) -> Self;

    spec fn powf_spec(self, n: Self) -> Self;

    spec fn hypot_spec(self, other: Self) -> Self;

    spec fn exp_spec(self) -> Self;

    spec fn exp2_spec(self) -> Self;

    spec fn exp_m1_spec(self) -> Self;

    spec fn ln_spec(self) -> Self;

    spec fn log10_spec(self) -> Self;

    spec fn log2_spec(self) -> Self;

    spec fn log_spec(self, base: Self) -> Self;

    spec fn ln_1p_spec(self) -> Self;

    spec fn sin_spec(self) -> Self;

    spec fn cos_spec(self) -> Self;

    spec fn tan_spec(self) -> Self;

    spec fn asin_spec(self) -> Self;

    spec fn acos_spec(self) -> Self;

    spec fn atan_spec(self) -> Self;

    spec fn sinh_spec(self) -> Self;

    spec fn cosh_spec(self) -> Self;

    spec fn tanh_spec(self) -> Self;

    spec fn asinh_spec(self) -> Self;

    spec fn acosh_spec(self) -> Self;

    spec fn atanh_spec(self) -> Self;

    spec fn abs_spec(self) -> Self;

    spec fn signum_spec(self) -> Self;

    spec fn floor_spec(self) -> Self;

    spec fn ceil_spec(self) -> Self;

    spec fn round_spec(self) -> Self;

    spec fn trunc_spec(self) -> Self;

    spec fn fract_spec(self) -> Self;

    /// The circle constant, for the quadrant correction of `atan2`.
    spec fn pi_spec() -> Self;

    fn sqrt(&self) -> (r: Self)
        ensures
            r == self.sqrt_spec(),
    ;

    fn cbrt(&self) -> (r: Self)
        ensures
            r == self.cbrt_spec(),
    ;

    fn powi(&self, n: i32) -> (r: Self)
        ensures
            r == self.powi_spec(n as i64),
    ;

    fn powf(&self, n: &Self) -> (r: Self)
        ensures
            r == self.powf_spec(*n),
    ;

    fn hypot(&self, other: &Self) -> (r: Self)
        ensures
            r == self.hypot_spec(*other),
    ;

    fn exp(&self) -> (r: Self)
        ensures
            r == self.exp_spec(),
    ;

    fn exp2(&self) -> (r: Self)
        ensures
            r == self.exp2_spec(),
    ;

    fn exp_m1(&self) -> (r: Self)
        ensures
            r == self.exp_m1_spec(),
    ;

    fn ln(&self) -> (r: Self)
        ensures
            r == self.ln_spec(),
    ;

    fn log10(&self) -> (r: Self)
        ensures
            r == self.log10_spec(),
    ;

    fn log2(&self) -> (r: Self)
        ensures
            r == self.log2_spec(),
    ;

    fn log(&self, base: &Self) -> (r: Self)
        ensures
            r == self.log_spec(*base),
    ;

    fn ln_1p(&self) -> (r: Self)
        ensures
            r == self.ln_1p_spec(),
    ;

    fn sin(&self) -> (r: Self)
        ensures
            r == self.sin_spec(),
    ;

    fn cos(&self) -> (r: Self)
        ensures
            r == self.cos_spec(),
    ;

    fn tan(&self) -> (r: Self)
        ensures
            r == self.tan_spec(),
    ;

    fn asin(&self) -> (r: Self)
        ensures
            r == self.asin_spec(),
    ;

    fn acos(&self) -> (r: Self)
        ensures
            r == self.acos_spec(),
    ;

    fn atan(&self) -> (r: Self)
        ensures
            r == self.atan_spec(),
    ;

    fn sinh(&self) -> (r: Self)
        ensures
            r == self.sinh_spec(),
    ;

    fn cosh(&self) -> (r: Self)
        ensures
            r == self.cosh_spec(),
    ;

    fn tanh(&self) -> (r: Self)
        ensures
            r == self.tanh_spec(),
    ;

    fn asinh(&self) -> (r: Self)
        ensures
            r == self.asinh_spec(),
    ;

    fn acosh(&self) -> (r: Self)
        ensures
            r == self.acosh_spec(),
    ;

    fn atanh(&self) -> (r: Self)
        ensures
            r == self.atanh_spec(),
    ;

    fn abs(&self) -> (r: Self)
        ensures
            r == self.abs_spec(),
    ;

    fn signum(&self) -> (r: Self)
        ensures
            r == self.signum_spec(),
    ;

    fn floor(&self) -> (r: Self)
        ensures
            r == self.floor_spec(),
    ;

    fn ceil(&self) -> (r: Self)
        ensures
            r == self.ceil_spec(),
    ;

    fn round(&self) -> (r: Self)
        ensures
            r == self.round_spec(),
    ;

    fn trunc(&self) -> (r: Self)
        ensures
            r == self.trunc_spec(),
    ;

    fn fract(&self) -> (r: Self)
        ensures
            r == self.fract_spec(),
    ;

    fn pi() -> (r: Self)
        ensures
            r == Self::pi_spec(),
    ;
}

/// The absolute value of `v`, as a `u64` so that `i64::MIN` is representable.
pub(crate) fn magnitude(v: i64) -> (r: u64)
    ensures
        r == abs(v as int),
{
    if v == i64::MIN {
        9223372036854775808u64
    } else if v < 0 {
        (-v) as u64
    } else {
        v as u64
    }
}

/// An exact integer scalar.
///
/// Arithmetic wraps on overflow and division by zero yields zero, so every
/// operation is total.  It exercises the allocator and the arithmetic layer
/// without floating point; the transcendental layer is not available for it.
#[derive(Clone, Copy, Debug, PartialEq, Eq, Structural)]
pub struct IntScalar {
    pub v: i64,
}

impl FloatLike for IntScalar {
    open spec fn zero_spec() -> Self {
        IntScalar { v: 0 }
    }

    open spec fn one_spec() -> Self {
        IntScalar { v: 1 }
    }

    open spec fn add_spec(self, rhs: Self) -> Self {
        IntScalar { v: i64_specs::wrapping_add(self.v, rhs.v) }
    }

    open spec fn sub_spec(self, rhs: Self) -> Self {
        IntScalar { v: i64_specs::wrapping_sub(self.v, rhs.v) }
    }

    open spec fn mul_spec(self, rhs: Self) -> Self {
        IntScalar { v: i64_specs::wrapping_mul(self.v, rhs.v) }
    }

    open spec fn div_spec(self, rhs: Self) -> Self {
        if rhs.v == 0 {
            IntScalar { v: 0 }
        } else if (self.v < 0) == (rhs.v < 0) {
            IntScalar {
                v: i64_specs::signed_crop((abs(self.v as int) / abs(rhs.v as int)) as int),
            }
        } else {
            IntScalar {
                v: i64_specs::signed_crop(-((abs(self.v as int) / abs(rhs.v as int)) as int)),
            }
        }
    }

    open spec fn neg_spec(self) -> Self {
        IntScalar { v: i64_specs::wrapping_sub(0, self.v) }
    }

    fn zero() -> (r: Self) {
        IntScalar { v: 0 }
    }

    fn one() -> (r: Self) {
        IntScalar { v: 1 }
    }

    fn add(&self, rhs: &Self) -> (r: Self) {
        IntScalar { v: self.v.wrapping_add(rhs.v) }
    }

    fn sub(&self, rhs: &Self) -> (r: Self) {
        IntScalar { v: self.v.wrapping_sub(rhs.v) }
    }

    fn mul(&self, rhs: &Self) -> (r: Self) {
        IntScalar { v: self.v.wrapping_mul(rhs.v) }
    }

    fn div(&self, rhs: &Self) -> (r: Self) {
        if rhs.v == 0 {
            return IntScalar { v: 0 };
        }
        let ma: u64 = magnitude(self.v);
        let mb: u64 = magnitude(rhs.v);
        let q: u64 = ma / mb;
        if (self.v < 0) == (rhs.v < 0) {
            if q <= i64::MAX as u64 {
                IntScalar { v: q as i64 }
            } else {
                IntScalar { v: i64::MIN }
            }
        } else {
            if q <= i64::MAX as u64 {
                IntScalar { v: -(q as i64) }
            } else {
                IntScalar { v: i64::MIN }
            }
        }
    }

    fn neg(&self) -> (r: Self) {
        IntScalar { v: 0i64.wrapping_sub(self.v) }
    }

    open spec fn nan_spec() -> Self {
        IntScalar { v: 0 }
    }

    open spec fn infinity_spec() -> Self {
        IntScalar { v: i64::MAX }
    }

    open spec fn neg_infinity_spec() -> Self {
        IntScalar { v: i64::MIN }
    }

    open spec fn is_nan_spec(self) -> bool {
        false
    }

    open spec fn is_finite_spec(self) -> bool {
        true
    }

    open spec fn is_infinite_spec(self) -> bool {
        false
    }

    open spec fn cmp_spec(self, rhs: Self) -> Option<core::cmp::Ordering> {
        if self.v < rhs.v {
            Some(core::cmp::Ordering::Less)
        } else if self.v == rhs.v {
            Some(core::cmp::Ordering::Equal)
        } else {
            Some(core::cmp::Ordering::Greater)
        }
    }

    open spec fn from_int_spec(n: i64) -> Self {
        IntScalar { v: n }
    }

    open spec fn from_str_radix_spec(s: &str, radix: u32) -> Option<Self> {
        None
    }

    fn nan() -> (r: Self) {
        IntScalar { v: 0 }
    }

    fn infinity() -> (r: Self) {
        IntScalar { v: i64::MAX }
    }

    fn neg_infinity() -> (r: Self) {
        IntScalar { v: i64::MIN }
    }

    fn is_nan(&self) -> (r: bool) {
        false
    }

    fn is_finite(&self) -> (r: bool) {
        true
    }

    fn is_infinite(&self) -> (r: bool) {
        false
    }

    fn value_cmp(&self, rhs: &Self) -> (r: Option<core::cmp::Ordering>) {
        if self.v < rhs.v {
            Some(core::cmp::Ordering::Less)
        } else if self.v == rhs.v {
            Some(core::cmp::Ordering::Equal)
        } else {
            Some(core::cmp::Ordering::Greater)
        }
    }

    fn from_i32(n: i32) -> (r: Self) {
        IntScalar { v: n as i64 }
    }

    fn from_i64(n: i64) -> (r: Self) {
        IntScalar { v: n }
    }

    fn from_u64(n: u64) -> (r: Self) {
        IntScalar { v: #[verifier::truncate] (n as i64) }
    }

    fn from_str_radix(s: &str, radix: u32) -> (r: Option<Self>) {
        None
    }
}

impl crate::traits::BinaryOperand for IntScalar {
    fn add(&self, rhs: &Self) -> Self {
        FloatLike::add(self, rhs)
    }

    fn sub(&self, rhs: &Self) -> Self {
        FloatLike::sub(self, rhs)
    }

    fn mul(&self, rhs: &Self) -> Self {
        FloatLike::mul(self, rhs)
    }

    fn div(&self, rhs: &Self) -> Self {
        FloatLike::div(self, rhs)
    }
}

impl crate::traits::NumOps for IntScalar {
    fn neg(&self) -> Self {
        FloatLike::neg(self)
    }
}

impl crate::traits::Extension for IntScalar {
    fn zero() -> Self {
        FloatLike::zero()
    }

    fn one() -> Self {
        FloatLike::one()
    }

    fn nan() -> Self {
        FloatLike::nan()
    }

    fn abs(&self) -> Self {
        if self.v < 0 {
            FloatLike::neg(self)
        } else {
            IntScalar { v: self.v }
        }
    }

    fn is_nan(&self) -> bool {
        false
    }

    fn from_i32(n: i32) -> Self {
        IntScalar { v: n as i64 }
    }
}

} // verus!
