//! Arithmetic on dual numbers: sum, difference, product and quotient rules.
//!
//! Each operation computes the value channel with the scalar's own
//! operation and propagates the gradient by the matching derivative rule.
//! The contracts pin both channels exactly, component by component, over
//! the scalar's specification-level operations.
//!
//! The remainder operation is deliberately absent: the derivative of a real
//! modulo is ambiguous at its discontinuities, and a silently wrong gradient
//! would be worse than no operation, so asking for one fails at compile
//! time.

use vstd::prelude::*;

use crate::dual::{grad_at, Dual, DualModel};
use crate::scalar::FloatLike;

verus! {

/// The length of the combined gradient of two operands: the longer of the
/// two, missing components counting as zero.
pub open spec fn joint_len<S: FloatLike>(a: DualModel<S>, b: DualModel<S>) -> nat {
    if a.dx.len() >= b.dx.len() {
        a.dx.len()
    } else {
        b.dx.len()
    }
}

/// The sum: values add, gradients add componentwise.
pub open spec fn dual_add<S: FloatLike>(a: DualModel<S>, b: DualModel<S>) -> DualModel<S> {
    DualModel {
        x: a.x.add_spec(b.x),
        dx: Seq::new(joint_len(a, b), |i: int| grad_at(a, i).add_spec(grad_at(b, i))),
    }
}

/// The difference: values subtract, gradients subtract componentwise.
pub open spec fn dual_sub<S: FloatLike>(a: DualModel<S>, b: DualModel<S>) -> DualModel<S> {
    DualModel {
        x: a.x.sub_spec(b.x),
        dx: Seq::new(joint_len(a, b), |i: int| grad_at(a, i).sub_spec(grad_at(b, i))),
    }
}

/// The negation: both channels negate componentwise.
pub open spec fn dual_neg<S: FloatLike>(a: DualModel<S>) -> DualModel<S> {
    DualModel { x: a.x.neg_spec(), dx: Seq::new(a.dx.len(), |i: int| a.dx[i].neg_spec()) }
}

/// The product rule: `(a * b)' = a' * b + b' * a`, evaluated at the values.
pub open spec fn dual_mul<S: FloatLike>(a: DualModel<S>, b: DualModel<S>) -> DualModel<S> {
    DualModel {
        x: a.x.mul_spec(b.x),
        dx: Seq::new(
            joint_len(a, b),
            |i: int| grad_at(a, i).mul_spec(b.x).add_spec(grad_at(b, i).mul_spec(a.x)),
        ),
    }
}

/// The quotient rule: `(a / b)' = a' / b - b' * a / b^2`.
pub open spec fn dual_div<S: FloatLike>(a: DualModel<S>, b: DualModel<S>) -> DualModel<S> {
    DualModel {
        x: a.x.div_spec(b.x),
        dx: Seq::new(
            joint_len(a, b),
            |i: int|
                grad_at(a, i).div_spec(b.x).sub_spec(
                    grad_at(b, i).mul_spec(a.x).div_spec(b.x.mul_spec(b.x)),
                ),
        ),
    }
}

/// A scalar added on the right: the value shifts, the gradient is kept.
pub open spec fn dual_add_scalar<S: FloatLike>(a: DualModel<S>, k: S) -> DualModel<S> {
    DualModel { x: a.x.add_spec(k), dx: a.dx }
}

/// A scalar subtracted on the right: the value shifts, the gradient is kept.
pub open spec fn dual_sub_scalar<S: FloatLike>(a: DualModel<S>, k: S) -> DualModel<S> {
    DualModel { x: a.x.sub_spec(k), dx: a.dx }
}

/// A scalar factor: both channels scale by `k`.
pub open spec fn dual_mul_scalar<S: FloatLike>(a: DualModel<S>, k: S) -> DualModel<S> {
    DualModel { x: a.x.mul_spec(k), dx: Seq::new(a.dx.len(), |i: int| a.dx[i].mul_spec(k)) }
}

/// A scalar divisor: both channels divide by `k`.
pub open spec fn dual_div_scalar<S: FloatLike>(a: DualModel<S>, k: S) -> DualModel<S> {
    DualModel { x: a.x.div_spec(k), dx: Seq::new(a.dx.len(), |i: int| a.dx[i].div_spec(k)) }
}

impl<S: FloatLike> Dual<S> {
    /// Gradient component `i` of this value, zero beyond its length.
    pub(crate) fn grad_or_zero(&self, i: usize) -> (r: S)
        ensures
            r == grad_at(self@, i as int),
    {
        if i < self.dx.len() {
            self.dx[i]
        } else {
            S::zero()
        }
    }

    /// The sum of two duals.
    pub fn add(&self, rhs: &Self) -> (r: Self)
        ensures
            r@ == dual_add(self@, rhs@),
    {
        let n = if self.dx.len() >= rhs.dx.len() {
            self.dx.len()
        } else {
            rhs.dx.len()
        };
        let mut dx: Vec<S> = Vec::new();
        for i in 0..n
            invariant
                n == joint_len(self@, rhs@),
                dx@.len() == i,
                forall|j: int|
                    0 <= j < i ==> dx@[j] == grad_at(self@, j).add_spec(grad_at(rhs@, j)),
        {
            dx.push(self.grad_or_zero(i).add(&rhs.grad_or_zero(i)));
        }
        let r = Dual { x: self.x.add(&rhs.x), dx };
        proof {
            assert(r@.dx =~= dual_add(self@, rhs@).dx);
        }
        r
    }

    /// The difference of two duals.
    pub fn sub(&self, rhs: &Self) -> (r: Self)
        ensures
            r@ == dual_sub(self@, rhs@),
    {
        let n = if self.dx.len() >= rhs.dx.len() {
            self.dx.len()
        } else {
            rhs.dx.len()
        };
        let mut dx: Vec<S> = Vec::new();
        for i in 0..n
            invariant
                n == joint_len(self@, rhs@),
                dx@.len() == i,
                forall|j: int|
                    0 <= j < i ==> dx@[j] == grad_at(self@, j).sub_spec(grad_at(rhs@, j)),
        {
            dx.push(self.grad_or_zero(i).sub(&rhs.grad_or_zero(i)));
        }
        let r = Dual { x: self.x.sub(&rhs.x), dx };
        proof {
            assert(r@.dx =~= dual_sub(self@, rhs@).dx);
        }
        r
    }

    /// The negation of a dual.
    pub fn neg(&self) -> (r: Self)
        ensures
            r@ == dual_neg(self@),
    {
        let mut dx: Vec<S> = Vec::new();
        let n = self.dx.len();
        for i in 0..n
            invariant
                n == self@.dx.len(),
                dx@.len() == i,
                forall|j: int| 0 <= j < i ==> dx@[j] == self@.dx[j].neg_spec(),
        {
            dx.push(self.dx[i].neg());
        }
        let r = Dual { x: self.x.neg(), dx };
        proof {
            assert(r@.dx =~= dual_neg(self@).dx);
        }
        r
    }

    /// The product of two duals, gradients by the product rule.
    pub fn mul(&self, rhs: &Self) -> (r: Self)
        ensures
            r@ == dual_mul(self@, rhs@),
    {
        let n = if self.dx.len() >= rhs.dx.len() {
            self.dx.len()
        } else {
            rhs.dx.len()
        };
        let mut dx: Vec<S> = Vec::new();
        for i in 0..n
            invariant
                n == joint_len(self@, rhs@),
                dx@.len() == i,
                forall|j: int|
                    0 <= j < i ==> dx@[j] == grad_at(self@, j).mul_spec(rhs@.x).add_spec(
                        grad_at(rhs@, j).mul_spec(self@.x),
                    ),
        {
            dx.push(self.grad_or_zero(i).mul(&rhs.x).add(&rhs.grad_or_zero(i).mul(&self.x)));
        }
        let r = Dual { x: self.x.mul(&rhs.x), dx };
        proof {
            assert(r@.dx =~= dual_mul(self@, rhs@).dx);
        }
        r
    }

    /// The quotient of two duals, gradients by the quotient rule.
    ///
    /// Division by a zero-valued dual is not special-cased: both channels
    /// get whatever the scalar's own division yields there.
    pub fn div(&self, rhs: &Self) -> (r: Self)
        ensures
            r@ == dual_div(self@, rhs@),
    {
        let n = if self.dx.len() >= rhs.dx.len() {
            self.dx.len()
        } else {
            rhs.dx.len()
        };
        let mut dx: Vec<S> = Vec::new();
        for i in 0..n
            invariant
                n == joint_len(self@, rhs@),
                dx@.len() == i,
                forall|j: int|
                    0 <= j < i ==> dx@[j] == grad_at(self@, j).div_spec(rhs@.x).sub_spec(
                        grad_at(rhs@, j).mul_spec(self@.x).div_spec(rhs@.x.mul_spec(rhs@.x)),
                    ),
        {
            dx.push(
                self.grad_or_zero(i).div(&rhs.x).sub(
                    &rhs.grad_or_zero(i).mul(&self.x).div(&rhs.x.mul(&rhs.x)),
                ),
            );
        }
        let r = Dual { x: self.x.div(&rhs.x), dx };
        proof {
            assert(r@.dx =~= dual_div(self@, rhs@).dx);
        }
        r
    }

    /// Copies the gradient as it stands.
    pub(crate) fn grad_copy(&self) -> (r: Vec<S>)
        ensures
            r@ == self@.dx,
    {
        let mut dx: Vec<S> = Vec::new();
        let n = self.dx.len();
        for i in 0..n
            invariant
                n == self@.dx.len(),
                dx@.len() == i,
                forall|j: int| 0 <= j < i ==> dx@[j] == self@.dx[j],
        {
            dx.push(self.dx[i]);
        }
        proof {
            assert(dx@ =~= self@.dx);
        }
        dx
    }

    /// A scalar added on the right: the gradient is untouched.
    pub fn add_scalar(&self, k: &S) -> (r: Self)
        ensures
            r@ == dual_add_scalar(self@, *k),
    {
        Dual { x: self.x.add(k), dx: self.grad_copy() }
    }

    /// A scalar subtracted on the right: the gradient is untouched.
    pub fn sub_scalar(&self, k: &S) -> (r: Self)
        ensures
            r@ == dual_sub_scalar(self@, *k),
    {
        Dual { x: self.x.sub(k), dx: self.grad_copy() }
    }

    /// A scalar factor on both channels.
    pub fn mul_scalar(&self, k: &S) -> (r: Self)
        ensures
            r@ == dual_mul_scalar(self@, *k),
    {
        let mut dx: Vec<S> = Vec::new();
        let n = self.dx.len();
        for i in 0..n
            invariant
                n == self@.dx.len(),
                dx@.len() == i,
                forall|j: int| 0 <= j < i ==> dx@[j] == self@.dx[j].mul_spec(*k),
        {
            dx.push(self.dx[i].mul(k));
        }
        let r = Dual { x: self.x.mul(k), dx };
        proof {
            assert(r@.dx =~= dual_mul_scalar(self@, *k).dx);
        }
        r
    }

    /// A scalar divisor on both channels.
    pub fn div_scalar(&self, k: &S) -> (r: Self)
        ensures
            r@ == dual_div_scalar(self@, *k),
    {
        let mut dx: Vec<S> = Vec::new();
        let n = self.dx.len();
        for i in 0..n
            invariant
                n == self@.dx.len(),
                dx@.len() == i,
                forall|j: int| 0 <= j < i ==> dx@[j] == self@.dx[j].div_spec(*k),
        {
            dx.push(self.dx[i].div(k));
        }
        let r = Dual { x: self.x.div(k), dx };
        proof {
            assert(r@.dx =~= dual_div_scalar(self@, *k).dx);
        }
        r
    }
}

} // verus!
