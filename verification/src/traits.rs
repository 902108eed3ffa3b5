//! Numeric capability traits for solver iterates, and the root executor's
//! interfaces.
//!
//! `BinaryOperand`, `NumOps` and `Extension` say which operations a solver
//! may apply to its iterates.  They carry no contracts: a solver proves
//! nothing about the numbers it combines, only that it combines them in the
//! advertised pattern.  Both plain scalars and `Dual` values implement them,
//! which is how a solver written once runs with or without derivative
//! tracking.

use vstd::prelude::*;

use crate::Error;

verus! {

/// The four binary arithmetic operations.
pub trait BinaryOperand: Sized {
    fn add(&self, rhs: &Self) -> Self;

    fn sub(&self, rhs: &Self) -> Self;

    fn mul(&self, rhs: &Self) -> Self;

    fn div(&self, rhs: &Self) -> Self;
}

/// Binary arithmetic together with negation.
pub trait NumOps: BinaryOperand {
    fn neg(&self) -> Self;
}

/// What iterative methods ask of an iterate beyond arithmetic: identities,
/// a not-a-number sentinel, magnitude, and small integer constants.
pub trait Extension: NumOps + Clone {
    fn zero() -> Self;

    fn one() -> Self;

    fn nan() -> Self;

    fn abs(&self) -> Self;

    fn is_nan(&self) -> bool;

    fn from_i32(n: i32) -> Self;
}

/// The one differentiable-scalar abstraction the iterative frameworks are
/// written against: everything `Extension` asks for, plus the elementary
/// functions.  A plain float satisfies it with no derivative tracking; a
/// dual number satisfies it and carries the gradient along, which is how
/// an operation written once yields an automatic Jacobian.
///
/// The methods carry no contracts: generic code gets the combination
/// pattern, while the exact chain-rule contracts live with each
/// implementation.
pub trait DifferentiableScalar: Extension {
    fn recip(&self) -> Self;

    fn negate(&self) -> Self;

    fn sqrt(&self) -> Self;

    fn cbrt(&self) -> Self;

    fn exp(&self) -> Self;

    fn exp2(&self) -> Self;

    fn exp_m1(&self) -> Self;

    fn ln(&self) -> Self;

    fn log10(&self) -> Self;

    fn log2(&self) -> Self;

    fn ln_1p(&self) -> Self;

    fn sin(&self) -> Self;

    fn cos(&self) -> Self;

    fn tan(&self) -> Self;

    fn asin(&self) -> Self;

    fn acos(&self) -> Self;

    fn atan(&self) -> Self;

    fn sinh(&self) -> Self;

    fn cosh(&self) -> Self;

    fn tanh(&self) -> Self;

    fn asinh(&self) -> Self;

    fn acosh(&self) -> Self;

    fn atanh(&self) -> Self;

    fn abs(&self) -> Self;

    fn signum(&self) -> Self;

    fn floor(&self) -> Self;

    fn ceil(&self) -> Self;

    fn round(&self) -> Self;

    fn trunc(&self) -> Self;

    fn fract(&self) -> Self;

    fn to_degrees(&self) -> Self;

    fn to_radians(&self) -> Self;

    fn powf(&self, other: &Self) -> Self;

    fn hypot(&self, other: &Self) -> Self;

    fn log(&self, other: &Self) -> Self;

    fn atan2(&self, other: &Self) -> Self;

    fn min(&self, other: &Self) -> Self;

    fn max(&self, other: &Self) -> Self;

    fn abs_sub(&self, other: &Self) -> Self;

    fn powi(&self, n: i32) -> Self;

    fn mul_add(&self, a: &Self, b: &Self) -> Self;

    fn sin_cos(&self) -> (Self, Self);
}

/// An operation a solver iterates on.
pub trait Op {
    /// The iterate's type.
    type Variable;
}

/// One step of an iterative method over the operation `T`.
pub trait Solver<T: Op> {
    /// Computes the next iterate from the current one.
    fn next_iter(&mut self, op: &T, x: &T::Variable) -> Result<T::Variable, Error>;
}

/// Decides whether two consecutive iterates are close enough to stop.
pub trait Criteria {
    /// The iterate's type.
    type Variable;

    /// True when `xnew` is accepted as the answer given the previous `x`.
    fn apply(&self, xnew: &Self::Variable, x: &Self::Variable) -> bool;
}

} // verus!
