//! Elementary functions on dual numbers: chain-rule propagation for the
//! algebraic and transcendental operations.
//!
//! For a unary function with value `y = f(x)`, the result gradient is the
//! operand's gradient times `f'(x)`, the derivative evaluated at the
//! current point ([`chain_unary_model`]); where it is algebraically
//! convenient the derivative is phrased with the already-computed `y`
//! (for instance the derivative of `exp` is `y` itself).  For a binary
//! function the gradient combines both operands' gradients, each weighted
//! by the matching partial derivative ([`chain_binary_model`]).
//!
//! The piecewise-constant operations (`floor`, `ceil`, `round`, `trunc`,
//! `signum`) return a fresh constant: their derivative is zero almost
//! everywhere, so the operand's gradient is discarded.  `min`, `max` and
//! `abs_sub` select by the value channel alone and keep the chosen
//! operand's gradient whole; this is if/then selection, not a smoothed
//! sub-gradient.

use vstd::prelude::*;

use crate::dual::ops::{dual_div, dual_neg, dual_sub, joint_len};
use crate::dual::{grad_at, zeros, Dual, DualModel};
use crate::scalar::{ElementaryFunction, FloatLike};

verus! {

/// Chain rule for a unary operation: value `y`, gradient scaled by the
/// derivative `d`.
pub open spec fn chain_unary_model<S: FloatLike>(m: DualModel<S>, y: S, d: S) -> DualModel<S> {
    DualModel { x: y, dx: Seq::new(m.dx.len(), |i: int| m.dx[i].mul_spec(d)) }
}

/// Chain rule for a binary operation: value `y`, gradients combined with
/// the partial derivatives `da` and `db`.
pub open spec fn chain_binary_model<S: FloatLike>(
    a: DualModel<S>,
    b: DualModel<S>,
    y: S,
    da: S,
    db: S,
) -> DualModel<S> {
    DualModel {
        x: y,
        dx: Seq::new(
            joint_len(a, b),
            |i: int| grad_at(a, i).mul_spec(da).add_spec(grad_at(b, i).mul_spec(db)),
        ),
    }
}

/// A piecewise-constant operation: value `y`, gradient discarded.
pub open spec fn discrete_model<S: FloatLike>(m: DualModel<S>, y: S) -> DualModel<S> {
    DualModel { x: y, dx: zeros(m.dx.len()) }
}

/// The reciprocal: `(1/x)' = -x^-2`.
pub open spec fn dual_recip<S: FloatLike>(m: DualModel<S>) -> DualModel<S> {
    chain_unary_model(
        m,
        S::one_spec().div_spec(m.x),
        S::one_spec().div_spec(m.x.mul_spec(m.x)).neg_spec(),
    )
}

/// The square root: `sqrt(x)' = 1 / (2 sqrt(x))`.
pub open spec fn dual_sqrt<S: ElementaryFunction>(m: DualModel<S>) -> DualModel<S> {
    chain_unary_model(
        m,
        m.x.sqrt_spec(),
        S::one_spec().div_spec(S::from_int_spec(2).mul_spec(m.x.sqrt_spec())),
    )
}

/// The cube root: `cbrt(x)' = 1 / (3 cbrt(x)^2)`.
pub open spec fn dual_cbrt<S: ElementaryFunction>(m: DualModel<S>) -> DualModel<S> {
    chain_unary_model(
        m,
        m.x.cbrt_spec(),
        S::one_spec().div_spec(
            S::from_int_spec(3).mul_spec(m.x.cbrt_spec().mul_spec(m.x.cbrt_spec())),
        ),
    )
}

/// The integer power: `(x^n)' = n x^(n-1)`.
pub open spec fn dual_powi<S: ElementaryFunction>(m: DualModel<S>, n: i64) -> DualModel<S> {
    chain_unary_model(
        m,
        m.x.powi_spec(n),
        S::from_int_spec(n).mul_spec(m.x.powi_spec((n - 1) as i64)),
    )
}

/// The general power `x^n` with both channels variable:
/// `d/dx = y n / x` and `d/dn = y ln(x)`, with `y` the computed value.
pub open spec fn dual_powf<S: ElementaryFunction>(
    m: DualModel<S>,
    n: DualModel<S>,
) -> DualModel<S> {
    chain_binary_model(
        m,
        n,
        m.x.powf_spec(n.x),
        m.x.powf_spec(n.x).mul_spec(n.x).div_spec(m.x),
        m.x.powf_spec(n.x).mul_spec(m.x.ln_spec()),
    )
}

/// The hypotenuse: `d/da = a / hypot`, `d/db = b / hypot`.
pub open spec fn dual_hypot<S: ElementaryFunction>(
    m: DualModel<S>,
    b: DualModel<S>,
) -> DualModel<S> {
    chain_binary_model(
        m,
        b,
        m.x.hypot_spec(b.x),
        m.x.div_spec(m.x.hypot_spec(b.x)),
        b.x.div_spec(m.x.hypot_spec(b.x)),
    )
}

/// The exponential: its own derivative.
pub open spec fn dual_exp<S: ElementaryFunction>(m: DualModel<S>) -> DualModel<S> {
    chain_unary_model(m, m.x.exp_spec(), m.x.exp_spec())
}

/// Two to the power: `(2^x)' = 2^x ln(2)`.
pub open spec fn dual_exp2<S: ElementaryFunction>(m: DualModel<S>) -> DualModel<S> {
    chain_unary_model(
        m,
        m.x.exp2_spec(),
        m.x.exp2_spec().mul_spec(S::from_int_spec(2).ln_spec()),
    )
}

/// `exp(x) - 1`, whose derivative is `exp(x)`.
pub open spec fn dual_exp_m1<S: ElementaryFunction>(m: DualModel<S>) -> DualModel<S> {
    chain_unary_model(m, m.x.exp_m1_spec(), m.x.exp_spec())
}

/// The natural logarithm: `ln(x)' = 1/x`.
pub open spec fn dual_ln<S: ElementaryFunction>(m: DualModel<S>) -> DualModel<S> {
    chain_unary_model(m, m.x.ln_spec(), S::one_spec().div_spec(m.x))
}

/// The base-ten logarithm: `log10(x)' = 1 / (x ln(10))`.
pub open spec fn dual_log10<S: ElementaryFunction>(m: DualModel<S>) -> DualModel<S> {
    chain_unary_model(
        m,
        m.x.log10_spec(),
        S::one_spec().div_spec(S::from_int_spec(10).ln_spec().mul_spec(m.x)),
    )
}

/// The base-two logarithm: `log2(x)' = 1 / (x ln(2))`.
pub open spec fn dual_log2<S: ElementaryFunction>(m: DualModel<S>) -> DualModel<S> {
    chain_unary_model(
        m,
        m.x.log2_spec(),
        S::one_spec().div_spec(S::from_int_spec(2).ln_spec().mul_spec(m.x)),
    )
}

/// The logarithm in a variable base:
/// `d/dx = 1 / (x ln(base))`, `d/dbase = -ln(x) / (base ln(base)^2)`.
pub open spec fn dual_log<S: ElementaryFunction>(
    m: DualModel<S>,
    base: DualModel<S>,
) -> DualModel<S> {
    chain_binary_model(
        m,
        base,
        m.x.log_spec(base.x),
        S::one_spec().div_spec(m.x.mul_spec(base.x.ln_spec())),
        m.x.ln_spec().neg_spec().div_spec(
            base.x.mul_spec(base.x.ln_spec().mul_spec(base.x.ln_spec())),
        ),
    )
}

/// `ln(1 + x)`, whose derivative is `1 / (1 + x)`.
pub open spec fn dual_ln_1p<S: ElementaryFunction>(m: DualModel<S>) -> DualModel<S> {
    chain_unary_model(
        m,
        m.x.ln_1p_spec(),
        S::one_spec().div_spec(S::one_spec().add_spec(m.x)),
    )
}

/// The sine: `sin(x)' = cos(x)`.
pub open spec fn dual_sin<S: ElementaryFunction>(m: DualModel<S>) -> DualModel<S> {
    chain_unary_model(m, m.x.sin_spec(), m.x.cos_spec())
}

/// The cosine: `cos(x)' = -sin(x)`.
pub open spec fn dual_cos<S: ElementaryFunction>(m: DualModel<S>) -> DualModel<S> {
    chain_unary_model(m, m.x.cos_spec(), m.x.sin_spec().neg_spec())
}

/// The tangent: `tan(x)' = 1 + tan(x)^2`.
pub open spec fn dual_tan<S: ElementaryFunction>(m: DualModel<S>) -> DualModel<S> {
    chain_unary_model(
        m,
        m.x.tan_spec(),
        S::one_spec().add_spec(m.x.tan_spec().mul_spec(m.x.tan_spec())),
    )
}

/// The arcsine: `asin(x)' = 1 / cos(asin(x))`.
pub open spec fn dual_asin<S: ElementaryFunction>(m: DualModel<S>) -> DualModel<S> {
    chain_unary_model(
        m,
        m.x.asin_spec(),
        S::one_spec().div_spec(m.x.asin_spec().cos_spec()),
    )
}

/// The arccosine: `acos(x)' = -1 / sin(acos(x))`.
pub open spec fn dual_acos<S: ElementaryFunction>(m: DualModel<S>) -> DualModel<S> {
    chain_unary_model(
        m,
        m.x.acos_spec(),
        S::one_spec().div_spec(m.x.acos_spec().sin_spec()).neg_spec(),
    )
}

/// The arctangent: `atan(x)' = 1 / (1 + x^2)`.
pub open spec fn dual_atan<S: ElementaryFunction>(m: DualModel<S>) -> DualModel<S> {
    chain_unary_model(
        m,
        m.x.atan_spec(),
        S::one_spec().div_spec(S::one_spec().add_spec(m.x.mul_spec(m.x))),
    )
}

/// The hyperbolic sine: `sinh(x)' = cosh(x)`.
pub open spec fn dual_sinh<S: ElementaryFunction>(m: DualModel<S>) -> DualModel<S> {
    chain_unary_model(m, m.x.sinh_spec(), m.x.cosh_spec())
}

/// The hyperbolic cosine: `cosh(x)' = sinh(x)`.
pub open spec fn dual_cosh<S: ElementaryFunction>(m: DualModel<S>) -> DualModel<S> {
    chain_unary_model(m, m.x.cosh_spec(), m.x.sinh_spec())
}

/// The hyperbolic tangent: `tanh(x)' = 1 - tanh(x)^2`.
pub open spec fn dual_tanh<S: ElementaryFunction>(m: DualModel<S>) -> DualModel<S> {
    chain_unary_model(
        m,
        m.x.tanh_spec(),
        S::one_spec().sub_spec(m.x.tanh_spec().mul_spec(m.x.tanh_spec())),
    )
}

/// The inverse hyperbolic sine: `asinh(x)' = 1 / cosh(asinh(x))`.
pub open spec fn dual_asinh<S: ElementaryFunction>(m: DualModel<S>) -> DualModel<S> {
    chain_unary_model(
        m,
        m.x.asinh_spec(),
        S::one_spec().div_spec(m.x.asinh_spec().cosh_spec()),
    )
}

/// The inverse hyperbolic cosine: `acosh(x)' = 1 / sinh(acosh(x))`.
pub open spec fn dual_acosh<S: ElementaryFunction>(m: DualModel<S>) -> DualModel<S> {
    chain_unary_model(
        m,
        m.x.acosh_spec(),
        S::one_spec().div_spec(m.x.acosh_spec().sinh_spec()),
    )
}

/// The inverse hyperbolic tangent: `atanh(x)' = 1 / (1 - x^2)`.
pub open spec fn dual_atanh<S: ElementaryFunction>(m: DualModel<S>) -> DualModel<S> {
    chain_unary_model(
        m,
        m.x.atanh_spec(),
        S::one_spec().div_spec(S::one_spec().sub_spec(m.x.mul_spec(m.x))),
    )
}

/// The absolute value: `abs(x)' = signum(x)`.
pub open spec fn dual_abs<S: ElementaryFunction>(m: DualModel<S>) -> DualModel<S> {
    chain_unary_model(m, m.x.abs_spec(), m.x.signum_spec())
}

/// The fractional part: derivative one, since the floor part is constant
/// almost everywhere.
pub open spec fn dual_fract<S: ElementaryFunction>(m: DualModel<S>) -> DualModel<S> {
    chain_unary_model(m, m.x.fract_spec(), S::one_spec())
}

/// The fused shape `a * b + c` on both channels:
/// value `a b + c`, gradient `a' b + b' a + c'`.
pub open spec fn dual_mul_add<S: FloatLike>(
    a: DualModel<S>,
    b: DualModel<S>,
    c: DualModel<S>,
) -> DualModel<S> {
    DualModel {
        x: a.x.mul_spec(b.x).add_spec(c.x),
        dx: Seq::new(
            joint_len3(a, b, c),
            |i: int|
                grad_at(a, i).mul_spec(b.x).add_spec(grad_at(b, i).mul_spec(a.x)).add_spec(
                    grad_at(c, i),
                ),
        ),
    }
}

/// The length of the combined gradient of three operands.
pub open spec fn joint_len3<S: FloatLike>(
    a: DualModel<S>,
    b: DualModel<S>,
    c: DualModel<S>,
) -> nat {
    if joint_len(a, b) >= c.dx.len() {
        joint_len(a, b)
    } else {
        c.dx.len()
    }
}

/// Whichever operand's value is larger, kept whole; ties and
/// incomparable values keep the left operand.
pub open spec fn dual_max<S: FloatLike>(a: DualModel<S>, b: DualModel<S>) -> DualModel<S> {
    if a.x.cmp_spec(b.x) == Some(core::cmp::Ordering::Less) {
        b
    } else {
        a
    }
}

/// Whichever operand's value is smaller, kept whole; ties and
/// incomparable values keep the right operand.
pub open spec fn dual_min<S: FloatLike>(a: DualModel<S>, b: DualModel<S>) -> DualModel<S> {
    if a.x.cmp_spec(b.x) == Some(core::cmp::Ordering::Less) {
        a
    } else {
        b
    }
}

/// The positive difference: zero where `a < b`, else `a - b` with the
/// difference of the gradients.
pub open spec fn dual_abs_sub<S: FloatLike>(a: DualModel<S>, b: DualModel<S>) -> DualModel<S> {
    if a.x.cmp_spec(b.x) == Some(core::cmp::Ordering::Less) {
        DualModel { x: S::zero_spec(), dx: zeros(joint_len(a, b)) }
    } else {
        dual_sub(a, b)
    }
}

/// The quadrant-corrected arctangent of `y / x` (`y` is the receiver).
/// At `x = 0, y = 0` both channels are not-a-number.
pub open spec fn dual_atan2<S: ElementaryFunction>(
    y: DualModel<S>,
    x: DualModel<S>,
) -> DualModel<S> {
    if x.x.cmp_spec(S::zero_spec()) == Some(core::cmp::Ordering::Equal) && y.x.cmp_spec(
        S::zero_spec(),
    ) == Some(core::cmp::Ordering::Equal) {
        DualModel {
            x: S::nan_spec(),
            dx: Seq::new(joint_len(y, x), |i: int| S::nan_spec()),
        }
    } else if x.x.cmp_spec(S::zero_spec()) == Some(core::cmp::Ordering::Greater) || x.x.cmp_spec(
        S::zero_spec(),
    ) == Some(core::cmp::Ordering::Equal) {
        dual_atan(dual_div(y, x))
    } else if y.x.cmp_spec(S::zero_spec()) == Some(core::cmp::Ordering::Greater) || y.x.cmp_spec(
        S::zero_spec(),
    ) == Some(core::cmp::Ordering::Equal) {
        crate::dual::ops::dual_add_scalar(dual_atan(dual_div(y, x)), S::pi_spec())
    } else {
        crate::dual::ops::dual_sub_scalar(dual_atan(dual_div(y, x)), S::pi_spec())
    }
}

impl<S: FloatLike> Dual<S> {
    /// Chain rule for a unary operation: value `y`, gradient scaled by `d`.
    fn chain_unary(&self, y: S, d: S) -> (r: Self)
        ensures
            r@ == chain_unary_model(self@, y, d),
    {
        let mut dx: Vec<S> = Vec::new();
        let n = self.dx.len();
        for i in 0..n
            invariant
                n == self@.dx.len(),
                dx@.len() == i,
                forall|j: int| 0 <= j < i ==> dx@[j] == self@.dx[j].mul_spec(d),
        {
            dx.push(self.dx[i].mul(&d));
        }
        let r = Dual { x: y, dx };
        proof {
            assert(r@.dx =~= chain_unary_model(self@, y, d).dx);
        }
        r
    }

    /// Chain rule for a binary operation: value `y`, gradients combined
    /// with the partial derivatives `da` and `db`.
    fn chain_binary(&self, rhs: &Self, y: S, da: S, db: S) -> (r: Self)
        ensures
            r@ == chain_binary_model(self@, rhs@, y, da, db),
    {
        let n = if self.dx.len() >= rhs.dx.len() {
            self.dx.len()
        } else {
            rhs.dx.len()
        };
        let mut dx: Vec<S> = Vec::new();
        for i in 0..n
            invariant
                n == joint_len(self@, rhs@),
                dx@.len() == i,
                forall|j: int|
                    0 <= j < i ==> dx@[j] == grad_at(self@, j).mul_spec(da).add_spec(
                        grad_at(rhs@, j).mul_spec(db),
                    ),
        {
            dx.push(self.grad_or_zero(i).mul(&da).add(&rhs.grad_or_zero(i).mul(&db)));
        }
        let r = Dual { x: y, dx };
        proof {
            assert(r@.dx =~= chain_binary_model(self@, rhs@, y, da, db).dx);
        }
        r
    }

    /// The negation, as the elementary-function layer spells it.
    pub fn negate(&self) -> (r: Self)
        ensures
            r@ == dual_neg(self@),
    {
        self.neg()
    }

    /// The reciprocal: derivative `-x^-2`.
    pub fn recip(&self) -> (r: Self)
        ensures
            r@ == dual_recip(self@),
    {
        let y = S::one().div(&self.x);
        let d = S::one().div(&self.x.mul(&self.x)).neg();
        self.chain_unary(y, d)
    }

    /// Whichever operand's value is larger, value and gradient together.
    pub fn max(&self, other: &Self) -> (r: Self)
        ensures
            r@ == dual_max(self@, other@),
    {
        match self.x.value_cmp(&other.x) {
            Some(core::cmp::Ordering::Less) => other.clone(),
            _ => self.clone(),
        }
    }

    /// Whichever operand's value is smaller, value and gradient together.
    pub fn min(&self, other: &Self) -> (r: Self)
        ensures
            r@ == dual_min(self@, other@),
    {
        match self.x.value_cmp(&other.x) {
            Some(core::cmp::Ordering::Less) => self.clone(),
            _ => other.clone(),
        }
    }

    /// The positive difference: zero where `self < other`, else the
    /// difference.
    pub fn abs_sub(&self, other: &Self) -> (r: Self)
        ensures
            r@ == dual_abs_sub(self@, other@),
    {
        match self.x.value_cmp(&other.x) {
            Some(core::cmp::Ordering::Less) => {
                let n = if self.dx.len() >= other.dx.len() {
                    self.dx.len()
                } else {
                    other.dx.len()
                };
                let r = Dual::constant(n, S::zero());
                proof {
                    assert(r@.dx =~= dual_abs_sub(self@, other@).dx);
                }
                r
            },
            _ => self.sub(other),
        }
    }

    /// The fused shape `a * b + c`, equal to `self * a + b` on both
    /// channels.
    pub fn mul_add(&self, a: &Self, b: &Self) -> (r: Self)
        ensures
            r@ == dual_mul_add(self@, a@, b@),
    {
        let n0 = if self.dx.len() >= a.dx.len() {
            self.dx.len()
        } else {
            a.dx.len()
        };
        let n = if n0 >= b.dx.len() {
            n0
        } else {
            b.dx.len()
        };
        let mut dx: Vec<S> = Vec::new();
        for i in 0..n
            invariant
                n == joint_len3(self@, a@, b@),
                dx@.len() == i,
                forall|j: int|
                    0 <= j < i ==> dx@[j] == grad_at(self@, j).mul_spec(a@.x).add_spec(
                        grad_at(a@, j).mul_spec(self@.x),
                    ).add_spec(grad_at(b@, j)),
        {
            dx.push(
                self.grad_or_zero(i).mul(&a.x).add(&a.grad_or_zero(i).mul(&self.x)).add(
                    &b.grad_or_zero(i),
                ),
            );
        }
        let r = Dual { x: self.x.mul(&a.x).add(&b.x), dx };
        proof {
            assert(r@.dx =~= dual_mul_add(self@, a@, b@).dx);
        }
        r
    }

    /// The value channel, alone.
    pub fn to_float(&self) -> (r: S)
        ensures
            r == self@.x,
    {
        self.x
    }
}

/// `mul_add(a, b, c)` equals `a * b + c` exactly, on the value channel and
/// on every gradient component, for operands of one arity.
pub proof fn lemma_mul_add_matches_mul_then_add<S: FloatLike>(
    a: DualModel<S>,
    b: DualModel<S>,
    c: DualModel<S>,
)
    requires
        a.dx.len() == b.dx.len(),
        b.dx.len() == c.dx.len(),
    ensures
        dual_mul_add(a, b, c) == crate::dual::ops::dual_add(crate::dual::ops::dual_mul(a, b), c),
{
    let lhs = dual_mul_add(a, b, c);
    let rhs = crate::dual::ops::dual_add(crate::dual::ops::dual_mul(a, b), c);
    assert(lhs.dx =~= rhs.dx);
    assert(lhs =~= rhs);
}

impl<S: FloatLike> Clone for Dual<S> {
    /// An exact copy: the same value and the same gradient.
    fn clone(&self) -> (r: Self)
        ensures
            r@ == self@,
    {
        Dual { x: self.x, dx: self.grad_copy() }
    }
}

impl<S: ElementaryFunction> Dual<S> {
    /// The square root: derivative `1 / (2 sqrt(x))`.
    pub fn sqrt(&self) -> (r: Self)
        ensures
            r@ == dual_sqrt(self@),
    {
        let y = self.x.sqrt();
        let d = S::one().div(&S::from_i32(2).mul(&y));
        self.chain_unary(y, d)
    }

    /// The cube root: derivative `1 / (3 cbrt(x)^2)`.
    pub fn cbrt(&self) -> (r: Self)
        ensures
            r@ == dual_cbrt(self@),
    {
        let y = self.x.cbrt();
        let d = S::one().div(&S::from_i32(3).mul(&y.mul(&y)));
        self.chain_unary(y, d)
    }

    /// The integer power: derivative `n x^(n-1)`.
    pub fn powi(&self, n: i32) -> (r: Self)
        requires
            n > i32::MIN,
        ensures
            r@ == dual_powi(self@, n as i64),
    {
        let y = self.x.powi(n);
        let d = S::from_i32(n).mul(&self.x.powi(n - 1));
        self.chain_unary(y, d)
    }

    /// The general power with variable exponent: `d/dx = y n / x`,
    /// `d/dn = y ln(x)`.
    pub fn powf(&self, n: &Self) -> (r: Self)
        ensures
            r@ == dual_powf(self@, n@),
    {
        let y = self.x.powf(&n.x);
        let da = y.mul(&n.x).div(&self.x);
        let db = y.mul(&self.x.ln());
        self.chain_binary(n, y, da, db)
    }

    /// The hypotenuse: `d/da = a / hypot`, `d/db = b / hypot`.
    pub fn hypot(&self, other: &Self) -> (r: Self)
        ensures
            r@ == dual_hypot(self@, other@),
    {
        let y = self.x.hypot(&other.x);
        let da = self.x.div(&y);
        let db = other.x.div(&y);
        self.chain_binary(other, y, da, db)
    }

    /// The exponential: its own derivative.
    pub fn exp(&self) -> (r: Self)
        ensures
            r@ == dual_exp(self@),
    {
        let y = self.x.exp();
        self.chain_unary(y, y)
    }

    /// Two to the power: derivative `y ln(2)`.
    pub fn exp2(&self) -> (r: Self)
        ensures
            r@ == dual_exp2(self@),
    {
        let y = self.x.exp2();
        let d = y.mul(&S::from_i32(2).ln());
        self.chain_unary(y, d)
    }

    /// `exp(x) - 1`: derivative `exp(x)`.
    pub fn exp_m1(&self) -> (r: Self)
        ensures
            r@ == dual_exp_m1(self@),
    {
        let y = self.x.exp_m1();
        let d = self.x.exp();
        self.chain_unary(y, d)
    }

    /// The natural logarithm: derivative `1/x`.
    pub fn ln(&self) -> (r: Self)
        ensures
            r@ == dual_ln(self@),
    {
        let y = self.x.ln();
        let d = S::one().div(&self.x);
        self.chain_unary(y, d)
    }

    /// The base-ten logarithm: derivative `1 / (x ln(10))`.
    pub fn log10(&self) -> (r: Self)
        ensures
            r@ == dual_log10(self@),
    {
        let y = self.x.log10();
        let d = S::one().div(&S::from_i32(10).ln().mul(&self.x));
        self.chain_unary(y, d)
    }

    /// The base-two logarithm: derivative `1 / (x ln(2))`.
    pub fn log2(&self) -> (r: Self)
        ensures
            r@ == dual_log2(self@),
    {
        let y = self.x.log2();
        let d = S::one().div(&S::from_i32(2).ln().mul(&self.x));
        self.chain_unary(y, d)
    }

    /// The logarithm in a variable base.
    pub fn log(&self, base: &Self) -> (r: Self)
        ensures
            r@ == dual_log(self@, base@),
    {
        let y = self.x.log(&base.x);
        let lnb = base.x.ln();
        let da = S::one().div(&self.x.mul(&lnb));
        let db = self.x.ln().neg().div(&base.x.mul(&lnb.mul(&lnb)));
        self.chain_binary(base, y, da, db)
    }

    /// `ln(1 + x)`: derivative `1 / (1 + x)`.
    pub fn ln_1p(&self) -> (r: Self)
        ensures
            r@ == dual_ln_1p(self@),
    {
        let y = self.x.ln_1p();
        let d = S::one().div(&S::one().add(&self.x));
        self.chain_unary(y, d)
    }

    /// The sine: derivative `cos(x)`.
    pub fn sin(&self) -> (r: Self)
        ensures
            r@ == dual_sin(self@),
    {
        let y = self.x.sin();
        let d = self.x.cos();
        self.chain_unary(y, d)
    }

    /// The cosine: derivative `-sin(x)`.
    pub fn cos(&self) -> (r: Self)
        ensures
            r@ == dual_cos(self@),
    {
        let y = self.x.cos();
        let d = self.x.sin().neg();
        self.chain_unary(y, d)
    }

    /// The sine and the cosine together.
    pub fn sin_cos(&self) -> (r: (Self, Self))
        ensures
            r.0@ == dual_sin(self@),
            r.1@ == dual_cos(self@),
    {
        (self.sin(), self.cos())
    }

    /// The tangent: derivative `1 + tan(x)^2`.
    pub fn tan(&self) -> (r: Self)
        ensures
            r@ == dual_tan(self@),
    {
        let y = self.x.tan();
        let d = S::one().add(&y.mul(&y));
        self.chain_unary(y, d)
    }

    /// The arcsine: derivative `1 / cos(asin(x))`.
    pub fn asin(&self) -> (r: Self)
        ensures
            r@ == dual_asin(self@),
    {
        let y = self.x.asin();
        let d = S::one().div(&y.cos());
        self.chain_unary(y, d)
    }

    /// The arccosine: derivative `-1 / sin(acos(x))`.
    pub fn acos(&self) -> (r: Self)
        ensures
            r@ == dual_acos(self@),
    {
        let y = self.x.acos();
        let d = S::one().div(&y.sin()).neg();
        self.chain_unary(y, d)
    }

    /// The arctangent: derivative `1 / (1 + x^2)`.
    pub fn atan(&self) -> (r: Self)
        ensures
            r@ == dual_atan(self@),
    {
        let y = self.x.atan();
        let d = S::one().div(&S::one().add(&self.x.mul(&self.x)));
        self.chain_unary(y, d)
    }

    /// The quadrant-corrected arctangent of `self / x` with `self` the
    /// ordinate; at the origin both channels are not-a-number.
    pub fn atan2(&self, x: &Self) -> (r: Self)
        ensures
            r@ == dual_atan2(self@, x@),
    {
        let x_zero = matches!(x.x.value_cmp(&S::zero()), Some(core::cmp::Ordering::Equal));
        let y_zero = matches!(self.x.value_cmp(&S::zero()), Some(core::cmp::Ordering::Equal));
        if x_zero && y_zero {
            let n = if self.dx.len() >= x.dx.len() {
                self.dx.len()
            } else {
                x.dx.len()
            };
            let mut dx: Vec<S> = Vec::new();
            for i in 0..n
                invariant
                    dx@.len() == i,
                    forall|j: int| 0 <= j < i ==> dx@[j] == S::nan_spec(),
            {
                dx.push(S::nan());
            }
            let r = Dual { x: S::nan(), dx };
            proof {
                assert(r@.dx =~= dual_atan2(self@, x@).dx);
            }
            r
        } else {
            let x_nonneg = match x.x.value_cmp(&S::zero()) {
                Some(core::cmp::Ordering::Greater) => true,
                Some(core::cmp::Ordering::Equal) => true,
                _ => false,
            };
            if x_nonneg {
                self.div(x).atan()
            } else {
                let y_nonneg = match self.x.value_cmp(&S::zero()) {
                    Some(core::cmp::Ordering::Greater) => true,
                    Some(core::cmp::Ordering::Equal) => true,
                    _ => false,
                };
                if y_nonneg {
                    self.div(x).atan().add_scalar(&S::pi())
                } else {
                    self.div(x).atan().sub_scalar(&S::pi())
                }
            }
        }
    }

    /// The hyperbolic sine: derivative `cosh(x)`.
    pub fn sinh(&self) -> (r: Self)
        ensures
            r@ == dual_sinh(self@),
    {
        let y = self.x.sinh();
        let d = self.x.cosh();
        self.chain_unary(y, d)
    }

    /// The hyperbolic cosine: derivative `sinh(x)`.
    pub fn cosh(&self) -> (r: Self)
        ensures
            r@ == dual_cosh(self@),
    {
        let y = self.x.cosh();
        let d = self.x.sinh();
        self.chain_unary(y, d)
    }

    /// The hyperbolic tangent: derivative `1 - tanh(x)^2`.
    pub fn tanh(&self) -> (r: Self)
        ensures
            r@ == dual_tanh(self@),
    {
        let y = self.x.tanh();
        let d = S::one().sub(&y.mul(&y));
        self.chain_unary(y, d)
    }

    /// The inverse hyperbolic sine: derivative `1 / cosh(asinh(x))`.
    pub fn asinh(&self) -> (r: Self)
        ensures
            r@ == dual_asinh(self@),
    {
        let y = self.x.asinh();
        let d = S::one().div(&y.cosh());
        self.chain_unary(y, d)
    }

    /// The inverse hyperbolic cosine: derivative `1 / sinh(acosh(x))`.
    pub fn acosh(&self) -> (r: Self)
        ensures
            r@ == dual_acosh(self@),
    {
        let y = self.x.acosh();
        let d = S::one().div(&y.sinh());
        self.chain_unary(y, d)
    }

    /// The inverse hyperbolic tangent: derivative `1 / (1 - x^2)`.
    pub fn atanh(&self) -> (r: Self)
        ensures
            r@ == dual_atanh(self@),
    {
        let y = self.x.atanh();
        let d = S::one().div(&S::one().sub(&self.x.mul(&self.x)));
        self.chain_unary(y, d)
    }

    /// The absolute value: derivative `signum(x)`.
    pub fn abs(&self) -> (r: Self)
        ensures
            r@ == dual_abs(self@),
    {
        let y = self.x.abs();
        let d = self.x.signum();
        self.chain_unary(y, d)
    }

    /// The fractional part: derivative one almost everywhere.
    pub fn fract(&self) -> (r: Self)
        ensures
            r@ == dual_fract(self@),
    {
        let y = self.x.fract();
        self.chain_unary(y, S::one())
    }

    /// The sign, as a fresh constant: the gradient is discarded.
    pub fn signum(&self) -> (r: Self)
        ensures
            r@ == discrete_model(self@, self@.x.signum_spec()),
    {
        Dual::constant(self.dx.len(), self.x.signum())
    }

    /// The floor, as a fresh constant: the gradient is discarded.
    pub fn floor(&self) -> (r: Self)
        ensures
            r@ == discrete_model(self@, self@.x.floor_spec()),
    {
        Dual::constant(self.dx.len(), self.x.floor())
    }

    /// The ceiling, as a fresh constant: the gradient is discarded.
    pub fn ceil(&self) -> (r: Self)
        ensures
            r@ == discrete_model(self@, self@.x.ceil_spec()),
    {
        Dual::constant(self.dx.len(), self.x.ceil())
    }

    /// The nearest integer, as a fresh constant: the gradient is discarded.
    pub fn round(&self) -> (r: Self)
        ensures
            r@ == discrete_model(self@, self@.x.round_spec()),
    {
        Dual::constant(self.dx.len(), self.x.round())
    }

    /// The integer part, as a fresh constant: the gradient is discarded.
    pub fn trunc(&self) -> (r: Self)
        ensures
            r@ == discrete_model(self@, self@.x.trunc_spec()),
    {
        Dual::constant(self.dx.len(), self.x.trunc())
    }

    /// Radians turned into degrees: a scale by `180 / pi` on both
    /// channels.
    pub fn to_degrees(&self) -> (r: Self)
        ensures
            r@ == crate::dual::ops::dual_mul_scalar(
                self@,
                S::from_int_spec(180).div_spec(S::pi_spec()),
            ),
    {
        self.mul_scalar(&S::from_i32(180).div(&S::pi()))
    }

    /// Degrees turned into radians: a scale by `pi / 180` on both
    /// channels.
    pub fn to_radians(&self) -> (r: Self)
        ensures
            r@ == crate::dual::ops::dual_mul_scalar(
                self@,
                S::pi_spec().div_spec(S::from_int_spec(180)),
            ),
    {
        self.mul_scalar(&S::pi().div(&S::from_i32(180)))
    }
}

impl<S: crate::scalar::ElementaryFunction> crate::traits::DifferentiableScalar for Dual<S> {
    fn recip(&self) -> Self {
        Dual::recip(self)
    }
    fn negate(&self) -> Self {
        Dual::negate(self)
    }
    fn sqrt(&self) -> Self {
        Dual::sqrt(self)
    }
    fn cbrt(&self) -> Self {
        Dual::cbrt(self)
    }
    fn exp(&self) -> Self {
        Dual::exp(self)
    }
    fn exp2(&self) -> Self {
        Dual::exp2(self)
    }
    fn exp_m1(&self) -> Self {
        Dual::exp_m1(self)
    }
    fn ln(&self) -> Self {
        Dual::ln(self)
    }
    fn log10(&self) -> Self {
        Dual::log10(self)
    }
    fn log2(&self) -> Self {
        Dual::log2(self)
    }
    fn ln_1p(&self) -> Self {
        Dual::ln_1p(self)
    }
    fn sin(&self) -> Self {
        Dual::sin(self)
    }
    fn cos(&self) -> Self {
        Dual::cos(self)
    }
    fn tan(&self) -> Self {
        Dual::tan(self)
    }
    fn asin(&self) -> Self {
        Dual::asin(self)
    }
    fn acos(&self) -> Self {
        Dual::acos(self)
    }
    fn atan(&self) -> Self {
        Dual::atan(self)
    }
    fn sinh(&self) -> Self {
        Dual::sinh(self)
    }
    fn cosh(&self) -> Self {
        Dual::cosh(self)
    }
    fn tanh(&self) -> Self {
        Dual::tanh(self)
    }
    fn asinh(&self) -> Self {
        Dual::asinh(self)
    }
    fn acosh(&self) -> Self {
        Dual::acosh(self)
    }
    fn atanh(&self) -> Self {
        Dual::atanh(self)
    }
    fn abs(&self) -> Self {
        Dual::abs(self)
    }
    fn signum(&self) -> Self {
        Dual::signum(self)
    }
    fn floor(&self) -> Self {
        Dual::floor(self)
    }
    fn ceil(&self) -> Self {
        Dual::ceil(self)
    }
    fn round(&self) -> Self {
        Dual::round(self)
    }
    fn trunc(&self) -> Self {
        Dual::trunc(self)
    }
    fn fract(&self) -> Self {
        Dual::fract(self)
    }
    fn to_degrees(&self) -> Self {
        Dual::to_degrees(self)
    }
    fn to_radians(&self) -> Self {
        Dual::to_radians(self)
    }
    fn powf(&self, other: &Self) -> Self {
        Dual::powf(self, other)
    }
    fn hypot(&self, other: &Self) -> Self {
        Dual::hypot(self, other)
    }
    fn log(&self, other: &Self) -> Self {
        Dual::log(self, other)
    }
    fn atan2(&self, other: &Self) -> Self {
        Dual::atan2(self, other)
    }
    fn min(&self, other: &Self) -> Self {
        Dual::min(self, other)
    }
    fn max(&self, other: &Self) -> Self {
        Dual::max(self, other)
    }
    fn abs_sub(&self, other: &Self) -> Self {
        Dual::abs_sub(self, other)
    }
    fn powi(&self, n: i32) -> Self {
        if n > i32::MIN {
            Dual::powi(self, n)
        } else {
            Dual::powi(self, n + 1).mul(&Dual::recip(self))
        }
    }

    fn mul_add(&self, a: &Self, b: &Self) -> Self {
        Dual::mul_add(self, a, b)
    }

    fn sin_cos(&self) -> (Self, Self) {
        Dual::sin_cos(self)
    }
}

} // verus!
