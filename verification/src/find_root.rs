//! Standalone fixed-point solvers over vectors of scalars, with
//! componentwise convergence tests.
//!
//! Each equation of the system has the form `x = f(x)`.  A solver owns the
//! operation and a step budget; `solve` iterates from an initial state
//! until every component meets its absolute and relative tolerance, or the
//! budget is spent, and returns the state it reached.  The operation comes
//! through [`SelfConsistentOp`], so its application may also fail.

use vstd::prelude::*;

use crate::opt::error::Error;
use crate::opt::self_consistent::SelfConsistentOp;
use crate::scalar::{ElementaryFunction, FloatLike};

verus! {

/// Whether `|a - b|` is within `atol` plus `rtol` of the larger magnitude.
fn within_tolerance<S: ElementaryFunction>(a: &S, b: &S, atol: &S, rtol: &S) -> bool {
    let diff = a.sub(b).abs();
    let la = a.abs();
    let lb = b.abs();
    let largest = match la.value_cmp(&lb) {
        Some(core::cmp::Ordering::Less) => lb,
        _ => la,
    };
    let bound = atol.add(&largest.mul(rtol));
    matches!(diff.value_cmp(&bound), Some(core::cmp::Ordering::Less))
}

/// Wegstein's method on a vector: each component is damped by its own
/// secant slope from the two most recent iterates.
pub struct Wegstein<F> {
    /// The fixed-point operation.
    pub f: F,
    /// The step budget.
    pub max_iter: usize,
}

impl<S: ElementaryFunction, F: SelfConsistentOp<Variable = Vec<S>>> Wegstein<F> {
    /// A solver for `x = f(x)` with the default step budget.
    pub fn new(f: F) -> (r: Self)
        ensures
            r.max_iter == 500,
    {
        Wegstein { f, max_iter: 500 }
    }

    /// The same solver with the step budget `n`.
    pub fn with_max_iteration(self, n: usize) -> (r: Self)
        ensures
            r.max_iter == n,
            r.f == self.f,
    {
        Wegstein { max_iter: n, ..self }
    }

    /// Iterates from `init` until every component converges or the budget
    /// is spent; the state reached is returned either way.  Fails if the
    /// operation fails or yields a state of another length.
    pub fn solve(&self, init: &[S], atol: &[S], rtol: &[S]) -> (r: Result<Vec<S>, Error>)
        requires
            atol@.len() == init@.len(),
            rtol@.len() == init@.len(),
        ensures
            r matches Ok(v) ==> v@.len() == init@.len(),
    {
        let n = init.len();
        let mut x_prev = slice_to_vec(init);
        let mut y_prev = match (self.f).apply(&x_prev) {
            Ok(y) => y,
            Err(e) => {
                return Err(e);
            },
        };
        if y_prev.len() != n {
            return Err(Error::InvalidVariable);
        }
        let mut x = copy_vec(&y_prev);
        let mut k: usize = 0;
        while k < self.max_iter
            invariant
                n == init@.len(),
                atol@.len() == n,
                rtol@.len() == n,
                x@.len() == n,
                x_prev@.len() == n,
                y_prev@.len() == n,
            decreases self.max_iter - k,
        {
            let mut y = match (self.f).apply(&x) {
                Ok(y) => y,
                Err(e) => {
                    return Err(e);
                },
            };
            if y.len() != n {
                return Err(Error::InvalidVariable);
            }
            let mut converge = true;
            let mut i: usize = 0;
            while i < n
                invariant
                    n == init@.len(),
                    atol@.len() == n,
                    rtol@.len() == n,
                    x@.len() == n,
                    x_prev@.len() == n,
                    y@.len() == n,
                    y_prev@.len() == n,
                decreases n - i,
            {
                let x1 = x[i];
                let x0 = x_prev[i];
                let y1 = y[i];
                let y0 = y_prev[i];
                if within_tolerance(&y1, &x1, &atol[i], &rtol[i]) {
                    x_prev.set(i, y1);
                } else {
                    let dx = x1.sub(&x0);
                    let dy = y1.sub(&y0);
                    let next = dy.mul(&x1).sub(&dx.mul(&y1)).div(&dy.sub(&dx));
                    x_prev.set(i, next);
                    converge = false;
                }
                i += 1;
            }
            if converge {
                return Ok(x_prev);
            }
            core::mem::swap(&mut x, &mut x_prev);
            core::mem::swap(&mut y, &mut y_prev);
            k += 1;
        }
        Ok(x)
    }
}

/// Steffensen's method on a vector: two substitution steps combined into
/// one quadratically convergent update per component.
pub struct Steffensen<F> {
    /// The fixed-point operation.
    pub f: F,
    /// The step budget.
    pub max_iter: usize,
}

impl<S: ElementaryFunction, F: SelfConsistentOp<Variable = Vec<S>>> Steffensen<F> {
    /// A solver for `x = f(x)` with the default step budget.
    pub fn new(f: F) -> (r: Self)
        ensures
            r.max_iter == 500,
    {
        Steffensen { f, max_iter: 500 }
    }

    /// The same solver with the step budget `n`.
    pub fn with_max_iteration(self, n: usize) -> (r: Self)
        ensures
            r.max_iter == n,
            r.f == self.f,
    {
        Steffensen { max_iter: n, ..self }
    }

    /// Iterates from `init` until every component converges or the budget
    /// is spent; the state reached is returned either way.  Fails if the
    /// operation fails or yields a state of another length.
    pub fn solve(&self, init: &[S], atol: &[S], rtol: &[S]) -> (r: Result<Vec<S>, Error>)
        requires
            atol@.len() == init@.len(),
            rtol@.len() == init@.len(),
        ensures
            r matches Ok(v) ==> v@.len() == init@.len(),
    {
        let n = init.len();
        let mut x = slice_to_vec(init);
        let mut k: usize = 0;
        while k < self.max_iter
            invariant
                n == init@.len(),
                atol@.len() == n,
                rtol@.len() == n,
                x@.len() == n,
            decreases self.max_iter - k,
        {
            let y = match (self.f).apply(&x) {
                Ok(y) => y,
                Err(e) => {
                    return Err(e);
                },
            };
            if y.len() != n {
                return Err(Error::InvalidVariable);
            }
            let z = match (self.f).apply(&y) {
                Ok(z) => z,
                Err(e) => {
                    return Err(e);
                },
            };
            if z.len() != n {
                return Err(Error::InvalidVariable);
            }
            let mut converge = true;
            let mut i: usize = 0;
            while i < n
                invariant
                    n == init@.len(),
                    atol@.len() == n,
                    rtol@.len() == n,
                    x@.len() == n,
                    y@.len() == n,
                    z@.len() == n,
                decreases n - i,
            {
                let x0 = x[i];
                let x1 = y[i];
                let x2 = z[i];
                if within_tolerance(&x1, &x0, &atol[i], &rtol[i]) {
                    x.set(i, x1);
                } else {
                    let dx0 = x1.sub(&x0);
                    let dx1 = x2.sub(&x1);
                    let next = x0.sub(&dx0.mul(&dx0).div(&dx1.sub(&dx0)));
                    x.set(i, next);
                    converge = false;
                }
                i += 1;
            }
            if converge {
                return Ok(x);
            }
            k += 1;
        }
        Ok(x)
    }
}

/// Copies a slice of scalars into a vector.
fn slice_to_vec<S: FloatLike>(s: &[S]) -> (r: Vec<S>)
    ensures
        r@ == s@,
{
    let mut r: Vec<S> = Vec::new();
    let n = s.len();
    for i in 0..n
        invariant
            n == s@.len(),
            r@.len() == i,
            forall|j: int| 0 <= j < i ==> r@[j] == s@[j],
    {
        r.push(s[i]);
    }
    proof {
        assert(r@ =~= s@);
    }
    r
}

/// Copies a vector of scalars.
fn copy_vec<S: FloatLike>(v: &Vec<S>) -> (r: Vec<S>)
    ensures
        r@ == v@,
{
    slice_to_vec(v.as_slice())
}

} // verus!
