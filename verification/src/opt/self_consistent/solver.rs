//! Fixed-point acceleration steps: Wegstein's secant damping and
//! Steffensen's quadratic update.

use vstd::prelude::*;

use crate::opt::error::Error;
use crate::opt::self_consistent::SelfConsistentOp;
use crate::opt::traits::Solver;
use crate::traits::{BinaryOperand, Extension, NumOps};

verus! {

/// Wegstein's method: damps the plain substitution step with the secant
/// slope of the two most recent iterates.
pub struct Wegstein<T> {
    pub y_prev: Option<T>,
    pub x_prev: Option<T>,
}

impl<T> Wegstein<T> {
    /// A fresh solver with no history; the first step is plain substitution.
    pub fn new() -> (r: Self)
        ensures
            r.y_prev is None,
            r.x_prev is None,
    {
        Wegstein { y_prev: None, x_prev: None }
    }
}

impl<T, U> Solver<T> for Wegstein<U> where T: SelfConsistentOp<Variable = U>, U: Extension {
    type Variable = T::Variable;

    type ReportArg = T::Variable;

    fn next_iter(&mut self, op: &T, x: &T::Variable) -> Result<T::Variable, Error> {
        let y = op.apply(x)?;
        if self.y_prev.is_some() && self.x_prev.is_some() {
            let y_prev = match &self.y_prev {
                Some(v) => v.clone(),
                None => Extension::zero(),
            };
            let x_prev = match &self.x_prev {
                Some(v) => v.clone(),
                None => Extension::zero(),
            };
            let s = y.sub(&y_prev).div(&x.sub(&x_prev));
            let one: U = Extension::one();
            let t = one.div(&one.sub(&s));
            let next = t.mul(&y).add(&one.sub(&t).mul(x));
            self.x_prev = Some(x.clone());
            self.y_prev = Some(y);
            Ok(next)
        } else {
            self.x_prev = Some(x.clone());
            self.y_prev = Some(y.clone());
            Ok(y)
        }
    }
}

/// Steffensen's method: two substitution steps combined into one
/// quadratically convergent update.
pub struct Steffensen;

impl Steffensen {
    pub fn new() -> Self {
        Steffensen {  }
    }
}

impl<T> Solver<T> for Steffensen where T: SelfConsistentOp, T::Variable: Extension {
    type Variable = T::Variable;

    type ReportArg = T::Variable;

    fn next_iter(&mut self, op: &T, x: &T::Variable) -> Result<T::Variable, Error> {
        let y = op.apply(x)?;
        let z = op.apply(&y)?.sub(&y);
        let y = y.sub(x);
        let x = x.sub(&y.mul(&y).div(&z.sub(&y)));
        Ok(x)
    }
}

} // verus!
