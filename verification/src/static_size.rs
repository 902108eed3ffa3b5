//! The compile-time-sized storage strategy: a dual number whose gradient
//! is a stack array of `N` components.
//!
//! It shares the mathematical model and the external contracts of the
//! heap-backed [`crate::dual::Dual`]: every operation here is pinned to
//! the very same model function, so the two storages are interchangeable
//! up to where their gradients live.  With the arity in the type, mixing
//! arities is impossible rather than merely padded.

use vstd::prelude::*;

use crate::dual::elementary::{
    chain_binary_model, chain_unary_model, discrete_model, dual_abs, dual_abs_sub, dual_acos,
    dual_acosh, dual_asin, dual_asinh, dual_atan, dual_atan2, dual_atanh, dual_cbrt, dual_cos,
    dual_cosh, dual_exp, dual_exp2, dual_exp_m1, dual_fract, dual_hypot, dual_ln, dual_ln_1p,
    dual_log, dual_log10, dual_log2, dual_max, dual_min, dual_mul_add, dual_powf, dual_powi,
    dual_recip, dual_sin, dual_sinh, dual_sqrt, dual_tan, dual_tanh,
};
use crate::dual::ops::{
    dual_add, dual_add_scalar, dual_div, dual_div_scalar, dual_mul, dual_mul_scalar, dual_neg,
    dual_sub, dual_sub_scalar,
};
use crate::dual::{basis, grad_at, zeros, DualModel};
use crate::scalar::{ElementaryFunction, FloatLike};

verus! {

/// A value paired with a stack-allocated gradient of `N` components.
#[derive(Clone, Copy, Debug)]
pub struct Dual<S, const N: usize> {
    /// The represented expression's value at the current point.
    pub x: S,
    /// The gradient: `dx[i]` is the partial derivative with respect to the
    /// `i`-th independent variable.
    pub dx: [S; N],
}

impl<S, const N: usize> View for Dual<S, N> {
    type V = DualModel<S>;

    open spec fn view(&self) -> DualModel<S> {
        DualModel { x: self.x, dx: self.dx@ }
    }
}

impl<S: FloatLike, const N: usize> Dual<S, N> {
    /// An independent variable: value `value`, gradient one-hot at
    /// `var_index`.
    pub fn new(var_index: usize, value: S) -> (r: Self)
        requires
            var_index < N,
        ensures
            r@.x == value,
            r@.dx =~= basis::<S>(var_index as int, N as nat),
    {
        let mut dx: [S; N] = [S::zero(); N];
        dx[var_index] = S::one();
        let r = Dual { x: value, dx };
        proof {
            assert(r@.dx =~= basis::<S>(var_index as int, N as nat));
        }
        r
    }

    /// A constant: value `value`, gradient all zero.
    pub fn constant(value: S) -> (r: Self)
        ensures
            r@.x == value,
            r@.dx =~= zeros::<S>(N as nat),
    {
        let r = Dual { x: value, dx: [S::zero(); N] };
        proof {
            assert(r@.dx =~= zeros::<S>(N as nat));
        }
        r
    }

    /// The value channel.
    pub fn val(&self) -> (r: &S)
        ensures
            *r == self@.x,
    {
        &self.x
    }

    /// A read view of the gradient.
    pub fn grad(&self) -> (r: &[S; N])
        ensures
            r@ == self@.dx,
    {
        &self.dx
    }

    /// A write view of the gradient; the value channel stays as it is.
    pub fn grad_mut(&mut self) -> (r: &mut [S; N])
        ensures
            r@ == old(self)@.dx,
            final(self)@.dx == final(r)@,
            final(self)@.x == old(self)@.x,
    {
        &mut self.dx
    }

    /// Chain rule for a unary operation: value `y`, gradient scaled by `d`.
    fn chain_unary(&self, y: S, d: S) -> (r: Self)
        ensures
            r@ == chain_unary_model(self@, y, d),
    {
        let mut dx: [S; N] = [S::zero(); N];
        for i in 0..N
            invariant
                forall|j: int| 0 <= j < i ==> dx@[j] == self@.dx[j].mul_spec(d),
        {
            dx[i] = self.dx[i].mul(&d);
        }
        let r = Dual { x: y, dx };
        proof {
            assert(r@.dx =~= chain_unary_model(self@, y, d).dx);
        }
        r
    }

    /// Chain rule for a binary operation: value `y`, gradients combined
    /// with the partial derivatives `da` and `db`.
    fn chain_binary(&self, rhs: &Self, y: S, da: S, db: S) -> (r: Self)
        ensures
            r@ == chain_binary_model(self@, rhs@, y, da, db),
    {
        let mut dx: [S; N] = [S::zero(); N];
        for i in 0..N
            invariant
                forall|j: int|
                    0 <= j < i ==> dx@[j] == grad_at(self@, j).mul_spec(da).add_spec(
                        grad_at(rhs@, j).mul_spec(db),
                    ),
        {
            dx[i] = self.dx[i].mul(&da).add(&rhs.dx[i].mul(&db));
        }
        let r = Dual { x: y, dx };
        proof {
            assert(r@.dx =~= chain_binary_model(self@, rhs@, y, da, db).dx);
        }
        r
    }

    /// The sum of two duals.
    pub fn add(&self, rhs: &Self) -> (r: Self)
        ensures
            r@ == dual_add(self@, rhs@),
    {
        let mut dx: [S; N] = [S::zero(); N];
        for i in 0..N
            invariant
                forall|j: int|
                    0 <= j < i ==> dx@[j] == grad_at(self@, j).add_spec(grad_at(rhs@, j)),
        {
            dx[i] = self.dx[i].add(&rhs.dx[i]);
        }
        let r = Dual { x: self.x.add(&rhs.x), dx };
        proof {
            assert(r@.dx =~= dual_add(self@, rhs@).dx);
        }
        r
    }

    /// The difference of two duals.
    pub fn sub(&self, rhs: &Self) -> (r: Self)
        ensures
            r@ == dual_sub(self@, rhs@),
    {
        let mut dx: [S; N] = [S::zero(); N];
        for i in 0..N
            invariant
                forall|j: int|
                    0 <= j < i ==> dx@[j] == grad_at(self@, j).sub_spec(grad_at(rhs@, j)),
        {
            dx[i] = self.dx[i].sub(&rhs.dx[i]);
        }
        let r = Dual { x: self.x.sub(&rhs.x), dx };
        proof {
            assert(r@.dx =~= dual_sub(self@, rhs@).dx);
        }
        r
    }

    /// The negation of a dual.
    pub fn neg(&self) -> (r: Self)
        ensures
            r@ == dual_neg(self@),
    {
        let mut dx: [S; N] = [S::zero(); N];
        for i in 0..N
            invariant
                forall|j: int| 0 <= j < i ==> dx@[j] == self@.dx[j].neg_spec(),
        {
            dx[i] = self.dx[i].neg();
        }
        let r = Dual { x: self.x.neg(), dx };
        proof {
            assert(r@.dx =~= dual_neg(self@).dx);
        }
        r
    }

    /// The product of two duals, gradients by the product rule.
    pub fn mul(&self, rhs: &Self) -> (r: Self)
        ensures
            r@ == dual_mul(self@, rhs@),
    {
        let r = self.chain_binary(rhs, self.x.mul(&rhs.x), rhs.x, self.x);
        proof {
            assert(r@.dx =~= dual_mul(self@, rhs@).dx);
        }
        r
    }

    /// The quotient of two duals, gradients by the quotient rule.
    pub fn div(&self, rhs: &Self) -> (r: Self)
        ensures
            r@ == dual_div(self@, rhs@),
    {
        let mut dx: [S; N] = [S::zero(); N];
        for i in 0..N
            invariant
                forall|j: int|
                    0 <= j < i ==> dx@[j] == grad_at(self@, j).div_spec(rhs@.x).sub_spec(
                        grad_at(rhs@, j).mul_spec(self@.x).div_spec(rhs@.x.mul_spec(rhs@.x)),
                    ),
        {
            dx[i] = self.dx[i].div(&rhs.x).sub(
                &rhs.dx[i].mul(&self.x).div(&rhs.x.mul(&rhs.x)),
            );
        }
        let r = Dual { x: self.x.div(&rhs.x), dx };
        proof {
            assert(r@.dx =~= dual_div(self@, rhs@).dx);
        }
        r
    }

    /// A scalar added on the right: the gradient is untouched.
    pub fn add_scalar(&self, k: &S) -> (r: Self)
        ensures
            r@ == dual_add_scalar(self@, *k),
    {
        Dual { x: self.x.add(k), dx: self.dx }
    }

    /// A scalar subtracted on the right: the gradient is untouched.
    pub fn sub_scalar(&self, k: &S) -> (r: Self)
        ensures
            r@ == dual_sub_scalar(self@, *k),
    {
        Dual { x: self.x.sub(k), dx: self.dx }
    }

    /// A scalar factor on both channels.
    pub fn mul_scalar(&self, k: &S) -> (r: Self)
        ensures
            r@ == dual_mul_scalar(self@, *k),
    {
        let r = self.chain_unary(self.x.mul(k), *k);
        proof {
            assert(r@.dx =~= dual_mul_scalar(self@, *k).dx);
        }
        r
    }

    /// A scalar divisor on both channels.
    pub fn div_scalar(&self, k: &S) -> (r: Self)
        ensures
            r@ == dual_div_scalar(self@, *k),
    {
        let mut dx: [S; N] = [S::zero(); N];
        for i in 0..N
            invariant
                forall|j: int| 0 <= j < i ==> dx@[j] == self@.dx[j].div_spec(*k),
        {
            dx[i] = self.dx[i].div(k);
        }
        let r = Dual { x: self.x.div(k), dx };
        proof {
            assert(r@.dx =~= dual_div_scalar(self@, *k).dx);
        }
        r
    }

    /// The additive identity.
    pub fn zero() -> (r: Self)
        ensures
            r@.x == S::zero_spec(),
            r@.dx =~= zeros::<S>(N as nat),
    {
        Dual::constant(S::zero())
    }

    /// The multiplicative identity, a constant with zero gradient.
    pub fn one() -> (r: Self)
        ensures
            r@.x == S::one_spec(),
            r@.dx =~= zeros::<S>(N as nat),
    {
        Dual::constant(S::one())
    }

    /// The not-a-number value: both channels are not-a-number.
    pub fn nan() -> (r: Self)
        ensures
            r@.x == S::nan_spec(),
            forall|j: int| 0 <= j < N ==> r@.dx[j] == S::nan_spec(),
    {
        Dual { x: S::nan(), dx: [S::nan(); N] }
    }

    /// Positive infinity on the value channel, not-a-number gradient.
    pub fn infinity() -> (r: Self)
        ensures
            r@.x == S::infinity_spec(),
            forall|j: int| 0 <= j < N ==> r@.dx[j] == S::nan_spec(),
    {
        Dual { x: S::infinity(), dx: [S::nan(); N] }
    }

    /// Negative infinity on the value channel, not-a-number gradient.
    pub fn neg_infinity() -> (r: Self)
        ensures
            r@.x == S::neg_infinity_spec(),
            forall|j: int| 0 <= j < N ==> r@.dx[j] == S::nan_spec(),
    {
        Dual { x: S::neg_infinity(), dx: [S::nan(); N] }
    }

    /// Whether the value channel is not-a-number.
    pub fn is_nan(&self) -> (r: bool)
        ensures
            r == self@.x.is_nan_spec(),
    {
        self.x.is_nan()
    }

    /// Whether the value channel is finite.
    pub fn is_finite(&self) -> (r: bool)
        ensures
            r == self@.x.is_finite_spec(),
    {
        self.x.is_finite()
    }

    /// Whether the value channel is one of the infinities.
    pub fn is_infinite(&self) -> (r: bool)
        ensures
            r == self@.x.is_infinite_spec(),
    {
        self.x.is_infinite()
    }
}

/// Allocates compile-time-sized independent variables for one
/// differentiation session.
pub struct Variables<S, const MAX_VAR: usize> {
    /// How many variables have been minted so far.
    pub num_var: usize,
    pub _type: core::marker::PhantomData<S>,
}

impl<S: FloatLike, const MAX_VAR: usize> Variables<S, MAX_VAR> {
    /// A fresh allocator with no variable minted.
    pub fn new() -> (r: Self)
        ensures
            r.num_var == 0,
    {
        Variables { num_var: 0, _type: core::marker::PhantomData }
    }

    /// Mints the next independent variable, if capacity remains.
    pub fn gen(&mut self, init_value: S) -> (r: Option<Dual<S, MAX_VAR>>)
        ensures
            old(self).num_var < MAX_VAR ==> {
                &&& r matches Some(d)
                &&& d@.x == init_value
                &&& d@.dx == basis::<S>(old(self).num_var as int, MAX_VAR as nat)
                &&& final(self).num_var == old(self).num_var + 1
            },
            old(self).num_var >= MAX_VAR ==> {
                &&& r is None
                &&& final(self).num_var == old(self).num_var
            },
    {
        if self.num_var < MAX_VAR {
            let var = Dual::new(self.num_var, init_value);
            self.num_var = self.num_var + 1;
            Some(var)
        } else {
            None
        }
    }

    /// Mints one variable per initial value, which must use up the
    /// remaining capacity exactly.
    pub fn gen_all(&mut self, init_values: &[S]) -> (r: Vec<Dual<S, MAX_VAR>>)
        requires
            old(self).num_var <= MAX_VAR,
            init_values@.len() == MAX_VAR - old(self).num_var,
        ensures
            r@.len() == init_values@.len(),
            forall|k: int|
                0 <= k < r@.len() ==> {
                    &&& (#[trigger] r@[k])@.x == init_values@[k]
                    &&& r@[k]@.dx == basis::<S>(old(self).num_var + k, MAX_VAR as nat)
                },
            final(self).num_var == MAX_VAR,
    {
        let n = init_values.len();
        let mut r: Vec<Dual<S, MAX_VAR>> = Vec::new();
        for k in 0..n
            invariant
                self.num_var == old(self).num_var + k,
                self.num_var <= MAX_VAR,
                n == init_values@.len(),
                n == MAX_VAR - old(self).num_var,
                r@.len() == k,
                forall|j: int|
                    0 <= j < k ==> {
                        &&& (#[trigger] r@[j])@.x == init_values@[j]
                        &&& r@[j]@.dx == basis::<S>(old(self).num_var + j, MAX_VAR as nat)
                    },
        {
            let d = Dual::new(self.num_var, init_values[k]);
            self.num_var = self.num_var + 1;
            r.push(d);
        }
        r
    }

    /// A constant: all-zero gradient, no capacity consumed.
    pub fn constant(&self, value: S) -> (r: Dual<S, MAX_VAR>)
        ensures
            r@.x == value,
            r@.dx =~= zeros::<S>(MAX_VAR as nat),
    {
        Dual::constant(value)
    }
}

impl<S: ElementaryFunction, const N: usize> Dual<S, N> {
    /// The negation, as the elementary-function layer spells it.
    pub fn negate(&self) -> (r: Self)
        ensures
            r@ == dual_neg(self@),
    {
        self.neg()
    }

    /// The reciprocal: derivative `-x^-2`.
    pub fn recip(&self) -> (r: Self)
        ensures
            r@ == dual_recip(self@),
    {
        let y = S::one().div(&self.x);
        let d = S::one().div(&self.x.mul(&self.x)).neg();
        self.chain_unary(y, d)
    }

    /// The integer power: derivative `n x^(n-1)`.
    pub fn powi(&self, n: i32) -> (r: Self)
        requires
            n > i32::MIN,
        ensures
            r@ == dual_powi(self@, n as i64),
    {
        let y = self.x.powi(n);
        let d = S::from_i32(n).mul(&self.x.powi(n - 1));
        self.chain_unary(y, d)
    }

    /// The general power with variable exponent: `d/dx = y n / x`,
    /// `d/dn = y ln(x)`.
    pub fn powf(&self, n: &Self) -> (r: Self)
        ensures
            r@ == dual_powf(self@, n@),
    {
        let y = self.x.powf(&n.x);
        let da = y.mul(&n.x).div(&self.x);
        let db = y.mul(&self.x.ln());
        self.chain_binary(n, y, da, db)
    }

    /// The hypotenuse: `d/da = a / hypot`, `d/db = b / hypot`.
    pub fn hypot(&self, other: &Self) -> (r: Self)
        ensures
            r@ == dual_hypot(self@, other@),
    {
        let y = self.x.hypot(&other.x);
        let da = self.x.div(&y);
        let db = other.x.div(&y);
        self.chain_binary(other, y, da, db)
    }

    /// The logarithm in a variable base.
    pub fn log(&self, base: &Self) -> (r: Self)
        ensures
            r@ == dual_log(self@, base@),
    {
        let y = self.x.log(&base.x);
        let lnb = base.x.ln();
        let da = S::one().div(&self.x.mul(&lnb));
        let db = self.x.ln().neg().div(&base.x.mul(&lnb.mul(&lnb)));
        self.chain_binary(base, y, da, db)
    }

    /// The sine and the cosine together.
    pub fn sin_cos(&self) -> (r: (Self, Self))
        ensures
            r.0@ == dual_sin(self@),
            r.1@ == dual_cos(self@),
    {
        (self.sin(), self.cos())
    }

    /// The fused shape `a * b + c`, equal to `self * a + b` on both
    /// channels.
    pub fn mul_add(&self, a: &Self, b: &Self) -> (r: Self)
        ensures
            r@ == dual_mul_add(self@, a@, b@),
    {
        let mut dx: [S; N] = [S::zero(); N];
        for i in 0..N
            invariant
                forall|j: int|
                    0 <= j < i ==> dx@[j] == grad_at(self@, j).mul_spec(a@.x).add_spec(
                        grad_at(a@, j).mul_spec(self@.x),
                    ).add_spec(grad_at(b@, j)),
        {
            dx[i] = self.dx[i].mul(&a.x).add(&a.dx[i].mul(&self.x)).add(&b.dx[i]);
        }
        let r = Dual { x: self.x.mul(&a.x).add(&b.x), dx };
        proof {
            assert(r@.dx =~= dual_mul_add(self@, a@, b@).dx);
        }
        r
    }

    /// Whichever operand's value is larger, value and gradient together.
    pub fn max(&self, other: &Self) -> (r: Self)
        ensures
            r@ == dual_max(self@, other@),
    {
        match self.x.value_cmp(&other.x) {
            Some(core::cmp::Ordering::Less) => *other,
            _ => *self,
        }
    }

    /// Whichever operand's value is smaller, value and gradient together.
    pub fn min(&self, other: &Self) -> (r: Self)
        ensures
            r@ == dual_min(self@, other@),
    {
        match self.x.value_cmp(&other.x) {
            Some(core::cmp::Ordering::Less) => *self,
            _ => *other,
        }
    }

    /// The positive difference: zero where `self < other`, else the
    /// difference.
    pub fn abs_sub(&self, other: &Self) -> (r: Self)
        ensures
            r@ == dual_abs_sub(self@, other@),
    {
        match self.x.value_cmp(&other.x) {
            Some(core::cmp::Ordering::Less) => {
                let r = Dual::constant(S::zero());
                proof {
                    assert(r@.dx =~= dual_abs_sub(self@, other@).dx);
                }
                r
            },
            _ => self.sub(other),
        }
    }

    /// The quadrant-corrected arctangent of `self / x` with `self` the
    /// ordinate; at the origin both channels are not-a-number.
    pub fn atan2(&self, x: &Self) -> (r: Self)
        ensures
            r@ == dual_atan2(self@, x@),
    {
        let x_zero = matches!(x.x.value_cmp(&S::zero()), Some(core::cmp::Ordering::Equal));
        let y_zero = matches!(self.x.value_cmp(&S::zero()), Some(core::cmp::Ordering::Equal));
        if x_zero && y_zero {
            let r = Dual { x: S::nan(), dx: [S::nan(); N] };
            proof {
                assert(r@.dx =~= dual_atan2(self@, x@).dx);
            }
            r
        } else {
            let x_nonneg = match x.x.value_cmp(&S::zero()) {
                Some(core::cmp::Ordering::Greater) => true,
                Some(core::cmp::Ordering::Equal) => true,
                _ => false,
            };
            if x_nonneg {
                self.div(x).atan()
            } else {
                let y_nonneg = match self.x.value_cmp(&S::zero()) {
                    Some(core::cmp::Ordering::Greater) => true,
                    Some(core::cmp::Ordering::Equal) => true,
                    _ => false,
                };
                if y_nonneg {
                    self.div(x).atan().add_scalar(&S::pi())
                } else {
                    self.div(x).atan().sub_scalar(&S::pi())
                }
            }
        }
    }

    /// Radians turned into degrees: a scale by `180 / pi` on both
    /// channels.
    pub fn to_degrees(&self) -> (r: Self)
        ensures
            r@ == dual_mul_scalar(self@, S::from_int_spec(180).div_spec(S::pi_spec())),
    {
        self.mul_scalar(&S::from_i32(180).div(&S::pi()))
    }

    /// Degrees turned into radians: a scale by `pi / 180` on both
    /// channels.
    pub fn to_radians(&self) -> (r: Self)
        ensures
            r@ == dual_mul_scalar(self@, S::pi_spec().div_spec(S::from_int_spec(180))),
    {
        self.mul_scalar(&S::pi().div(&S::from_i32(180)))
    }


    /// The square root: derivative `1 / (2 sqrt(x))`.
    pub fn sqrt(&self) -> (r: Self)
        ensures
            r@ == dual_sqrt(self@),
    {
        let y = self.x.sqrt();
        let d = S::one().div(&S::from_i32(2).mul(&y));
        self.chain_unary(y, d)
    }

    /// The cube root: derivative `1 / (3 cbrt(x)^2)`.
    pub fn cbrt(&self) -> (r: Self)
        ensures
            r@ == dual_cbrt(self@),
    {
        let y = self.x.cbrt();
        let d = S::one().div(&S::from_i32(3).mul(&y.mul(&y)));
        self.chain_unary(y, d)
    }

    /// The exponential: its own derivative.
    pub fn exp(&self) -> (r: Self)
        ensures
            r@ == dual_exp(self@),
    {
        let y = self.x.exp();
        let d = y;
        self.chain_unary(y, d)
    }

    /// Two to the power: derivative `y ln(2)`.
    pub fn exp2(&self) -> (r: Self)
        ensures
            r@ == dual_exp2(self@),
    {
        let y = self.x.exp2();
        let d = y.mul(&S::from_i32(2).ln());
        self.chain_unary(y, d)
    }

    /// `exp(x) - 1`: derivative `exp(x)`.
    pub fn exp_m1(&self) -> (r: Self)
        ensures
            r@ == dual_exp_m1(self@),
    {
        let y = self.x.exp_m1();
        let d = self.x.exp();
        self.chain_unary(y, d)
    }

    /// The natural logarithm: derivative `1/x`.
    pub fn ln(&self) -> (r: Self)
        ensures
            r@ == dual_ln(self@),
    {
        let y = self.x.ln();
        let d = S::one().div(&self.x);
        self.chain_unary(y, d)
    }

    /// The base-ten logarithm: derivative `1 / (x ln(10))`.
    pub fn log10(&self) -> (r: Self)
        ensures
            r@ == dual_log10(self@),
    {
        let y = self.x.log10();
        let d = S::one().div(&S::from_i32(10).ln().mul(&self.x));
        self.chain_unary(y, d)
    }

    /// The base-two logarithm: derivative `1 / (x ln(2))`.
    pub fn log2(&self) -> (r: Self)
        ensures
            r@ == dual_log2(self@),
    {
        let y = self.x.log2();
        let d = S::one().div(&S::from_i32(2).ln().mul(&self.x));
        self.chain_unary(y, d)
    }

    /// `ln(1 + x)`: derivative `1 / (1 + x)`.
    pub fn ln_1p(&self) -> (r: Self)
        ensures
            r@ == dual_ln_1p(self@),
    {
        let y = self.x.ln_1p();
        let d = S::one().div(&S::one().add(&self.x));
        self.chain_unary(y, d)
    }

    /// The sine: derivative `cos(x)`.
    pub fn sin(&self) -> (r: Self)
        ensures
            r@ == dual_sin(self@),
    {
        let y = self.x.sin();
        let d = self.x.cos();
        self.chain_unary(y, d)
    }

    /// The cosine: derivative `-sin(x)`.
    pub fn cos(&self) -> (r: Self)
        ensures
            r@ == dual_cos(self@),
    {
        let y = self.x.cos();
        let d = self.x.sin().neg();
        self.chain_unary(y, d)
    }

    /// The tangent: derivative `1 + tan(x)^2`.
    pub fn tan(&self) -> (r: Self)
        ensures
            r@ == dual_tan(self@),
    {
        let y = self.x.tan();
        let d = S::one().add(&y.mul(&y));
        self.chain_unary(y, d)
    }

    /// The arcsine: derivative `1 / cos(asin(x))`.
    pub fn asin(&self) -> (r: Self)
        ensures
            r@ == dual_asin(self@),
    {
        let y = self.x.asin();
        let d = S::one().div(&y.cos());
        self.chain_unary(y, d)
    }

    /// The arccosine: derivative `-1 / sin(acos(x))`.
    pub fn acos(&self) -> (r: Self)
        ensures
            r@ == dual_acos(self@),
    {
        let y = self.x.acos();
        let d = S::one().div(&y.sin()).neg();
        self.chain_unary(y, d)
    }

    /// The arctangent: derivative `1 / (1 + x^2)`.
    pub fn atan(&self) -> (r: Self)
        ensures
            r@ == dual_atan(self@),
    {
        let y = self.x.atan();
        let d = S::one().div(&S::one().add(&self.x.mul(&self.x)));
        self.chain_unary(y, d)
    }

    /// The hyperbolic sine: derivative `cosh(x)`.
    pub fn sinh(&self) -> (r: Self)
        ensures
            r@ == dual_sinh(self@),
    {
        let y = self.x.sinh();
        let d = self.x.cosh();
        self.chain_unary(y, d)
    }

    /// The hyperbolic cosine: derivative `sinh(x)`.
    pub fn cosh(&self) -> (r: Self)
        ensures
            r@ == dual_cosh(self@),
    {
        let y = self.x.cosh();
        let d = self.x.sinh();
        self.chain_unary(y, d)
    }

    /// The hyperbolic tangent: derivative `1 - tanh(x)^2`.
    pub fn tanh(&self) -> (r: Self)
        ensures
            r@ == dual_tanh(self@),
    {
        let y = self.x.tanh();
        let d = S::one().sub(&y.mul(&y));
        self.chain_unary(y, d)
    }

    /// The inverse hyperbolic sine: derivative `1 / cosh(asinh(x))`.
    pub fn asinh(&self) -> (r: Self)
        ensures
            r@ == dual_asinh(self@),
    {
        let y = self.x.asinh();
        let d = S::one().div(&y.cosh());
        self.chain_unary(y, d)
    }

    /// The inverse hyperbolic cosine: derivative `1 / sinh(acosh(x))`.
    pub fn acosh(&self) -> (r: Self)
        ensures
            r@ == dual_acosh(self@),
    {
        let y = self.x.acosh();
        let d = S::one().div(&y.sinh());
        self.chain_unary(y, d)
    }

    /// The inverse hyperbolic tangent: derivative `1 / (1 - x^2)`.
    pub fn atanh(&self) -> (r: Self)
        ensures
            r@ == dual_atanh(self@),
    {
        let y = self.x.atanh();
        let d = S::one().div(&S::one().sub(&self.x.mul(&self.x)));
        self.chain_unary(y, d)
    }

    /// The absolute value: derivative `signum(x)`.
    pub fn abs(&self) -> (r: Self)
        ensures
            r@ == dual_abs(self@),
    {
        let y = self.x.abs();
        let d = self.x.signum();
        self.chain_unary(y, d)
    }

    /// The fractional part: derivative one almost everywhere.
    pub fn fract(&self) -> (r: Self)
        ensures
            r@ == dual_fract(self@),
    {
        let y = self.x.fract();
        let d = S::one();
        self.chain_unary(y, d)
    }

    /// The sign, as a fresh constant: the gradient is discarded.
    pub fn signum(&self) -> (r: Self)
        ensures
            r@ == discrete_model(self@, self@.x.signum_spec()),
    {
        let r = Dual::constant(self.x.signum());
        proof {
            assert(r@.dx =~= discrete_model(self@, self@.x.signum_spec()).dx);
        }
        r
    }

    /// The floor, as a fresh constant: the gradient is discarded.
    pub fn floor(&self) -> (r: Self)
        ensures
            r@ == discrete_model(self@, self@.x.floor_spec()),
    {
        let r = Dual::constant(self.x.floor());
        proof {
            assert(r@.dx =~= discrete_model(self@, self@.x.floor_spec()).dx);
        }
        r
    }

    /// The ceiling, as a fresh constant: the gradient is discarded.
    pub fn ceil(&self) -> (r: Self)
        ensures
            r@ == discrete_model(self@, self@.x.ceil_spec()),
    {
        let r = Dual::constant(self.x.ceil());
        proof {
            assert(r@.dx =~= discrete_model(self@, self@.x.ceil_spec()).dx);
        }
        r
    }

    /// The nearest integer, as a fresh constant: the gradient is discarded.
    pub fn round(&self) -> (r: Self)
        ensures
            r@ == discrete_model(self@, self@.x.round_spec()),
    {
        let r = Dual::constant(self.x.round());
        proof {
            assert(r@.dx =~= discrete_model(self@, self@.x.round_spec()).dx);
        }
        r
    }

    /// The integer part, as a fresh constant: the gradient is discarded.
    pub fn trunc(&self) -> (r: Self)
        ensures
            r@ == discrete_model(self@, self@.x.trunc_spec()),
    {
        let r = Dual::constant(self.x.trunc());
        proof {
            assert(r@.dx =~= discrete_model(self@, self@.x.trunc_spec()).dx);
        }
        r
    }

}

impl<S: FloatLike, const N: usize> crate::traits::BinaryOperand for Dual<S, N> {
    fn add(&self, rhs: &Self) -> Self {
        Dual::add(self, rhs)
    }

    fn sub(&self, rhs: &Self) -> Self {
        Dual::sub(self, rhs)
    }

    fn mul(&self, rhs: &Self) -> Self {
        Dual::mul(self, rhs)
    }

    fn div(&self, rhs: &Self) -> Self {
        Dual::div(self, rhs)
    }
}

impl<S: FloatLike, const N: usize> crate::traits::NumOps for Dual<S, N> {
    fn neg(&self) -> Self {
        Dual::neg(self)
    }
}

impl<S: ElementaryFunction, const N: usize> crate::traits::Extension for Dual<S, N> {
    fn zero() -> Self {
        Dual::zero()
    }

    fn one() -> Self {
        Dual::one()
    }

    fn nan() -> Self {
        Dual::nan()
    }

    fn abs(&self) -> Self {
        Dual::abs(self)
    }

    fn is_nan(&self) -> bool {
        Dual::is_nan(self)
    }

    fn from_i32(n: i32) -> Self {
        Dual::constant(S::from_i32(n))
    }
}

impl<S: ElementaryFunction, const N: usize> crate::traits::DifferentiableScalar for Dual<S, N> {
    fn recip(&self) -> Self {
        Dual::recip(self)
    }
    fn negate(&self) -> Self {
        Dual::negate(self)
    }
    fn sqrt(&self) -> Self {
        Dual::sqrt(self)
    }
    fn cbrt(&self) -> Self {
        Dual::cbrt(self)
    }
    fn exp(&self) -> Self {
        Dual::exp(self)
    }
    fn exp2(&self) -> Self {
        Dual::exp2(self)
    }
    fn exp_m1(&self) -> Self {
        Dual::exp_m1(self)
    }
    fn ln(&self) -> Self {
        Dual::ln(self)
    }
    fn log10(&self) -> Self {
        Dual::log10(self)
    }
    fn log2(&self) -> Self {
        Dual::log2(self)
    }
    fn ln_1p(&self) -> Self {
        Dual::ln_1p(self)
    }
    fn sin(&self) -> Self {
        Dual::sin(self)
    }
    fn cos(&self) -> Self {
        Dual::cos(self)
    }
    fn tan(&self) -> Self {
        Dual::tan(self)
    }
    fn asin(&self) -> Self {
        Dual::asin(self)
    }
    fn acos(&self) -> Self {
        Dual::acos(self)
    }
    fn atan(&self) -> Self {
        Dual::atan(self)
    }
    fn sinh(&self) -> Self {
        Dual::sinh(self)
    }
    fn cosh(&self) -> Self {
        Dual::cosh(self)
    }
    fn tanh(&self) -> Self {
        Dual::tanh(self)
    }
    fn asinh(&self) -> Self {
        Dual::asinh(self)
    }
    fn acosh(&self) -> Self {
        Dual::acosh(self)
    }
    fn atanh(&self) -> Self {
        Dual::atanh(self)
    }
    fn abs(&self) -> Self {
        Dual::abs(self)
    }
    fn signum(&self) -> Self {
        Dual::signum(self)
    }
    fn floor(&self) -> Self {
        Dual::floor(self)
    }
    fn ceil(&self) -> Self {
        Dual::ceil(self)
    }
    fn round(&self) -> Self {
        Dual::round(self)
    }
    fn trunc(&self) -> Self {
        Dual::trunc(self)
    }
    fn fract(&self) -> Self {
        Dual::fract(self)
    }
    fn to_degrees(&self) -> Self {
        Dual::to_degrees(self)
    }
    fn to_radians(&self) -> Self {
        Dual::to_radians(self)
    }
    fn powf(&self, other: &Self) -> Self {
        Dual::powf(self, other)
    }
    fn hypot(&self, other: &Self) -> Self {
        Dual::hypot(self, other)
    }
    fn log(&self, other: &Self) -> Self {
        Dual::log(self, other)
    }
    fn atan2(&self, other: &Self) -> Self {
        Dual::atan2(self, other)
    }
    fn min(&self, other: &Self) -> Self {
        Dual::min(self, other)
    }
    fn max(&self, other: &Self) -> Self {
        Dual::max(self, other)
    }
    fn abs_sub(&self, other: &Self) -> Self {
        Dual::abs_sub(self, other)
    }
    fn powi(&self, n: i32) -> Self {
        if n > i32::MIN {
            Dual::powi(self, n)
        } else {
            Dual::powi(self, n + 1).mul(&Dual::recip(self))
        }
    }

    fn mul_add(&self, a: &Self, b: &Self) -> Self {
        Dual::mul_add(self, a, b)
    }

    fn sin_cos(&self) -> (Self, Self) {
        Dual::sin_cos(self)
    }
}

impl<S: FloatLike, const N: usize> PartialEq for Dual<S, N> {
    /// Equal when the value channels compare equal; gradients are ignored.
    fn eq(&self, other: &Self) -> (r: bool) {
        matches!(self.x.value_cmp(&other.x), Some(core::cmp::Ordering::Equal))
    }
}

impl<S: FloatLike, const N: usize> vstd::std_specs::cmp::PartialEqSpecImpl for Dual<S, N> {
    open spec fn obeys_eq_spec() -> bool {
        true
    }

    open spec fn eq_spec(&self, other: &Self) -> bool {
        self@.x.cmp_spec(other@.x) == Some(core::cmp::Ordering::Equal)
    }
}

impl<S: FloatLike, const N: usize> PartialOrd for Dual<S, N> {
    /// Ordered as the value channels are; gradients are ignored.
    fn partial_cmp(&self, other: &Self) -> (r: Option<core::cmp::Ordering>) {
        self.x.value_cmp(&other.x)
    }
}

impl<S: FloatLike, const N: usize> vstd::std_specs::cmp::PartialOrdSpecImpl for Dual<S, N> {
    open spec fn obeys_partial_cmp_spec() -> bool {
        true
    }

    open spec fn partial_cmp_spec(&self, other: &Self) -> Option<core::cmp::Ordering> {
        self@.x.cmp_spec(other@.x)
    }
}

} // verus!
