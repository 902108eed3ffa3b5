//! Root-finding steps: the Newton-Raphson update and a Runge-Kutta-flavoured
//! four-stage variant of it.

use vstd::prelude::*;

use crate::opt::error::Error;
use crate::opt::find_root::FindRootOp;
use crate::opt::traits::Solver;
use crate::traits::{BinaryOperand, Extension, NumOps};

verus! {

/// The classic update: subtract the Jacobian-solved residual.
pub struct NewtonRaphson;

impl<T> Solver<T> for NewtonRaphson where T: FindRootOp, T::Variable: Extension {
    type Variable = T::Variable;

    type ReportArg = T::Variable;

    fn next_iter(&mut self, op: &T, x: &Self::Variable) -> Result<Self::Variable, Error> {
        let f0 = op.apply(x)?;
        let k1 = op.solve_jacobian(&op.jacobian(x)?, &f0)?;
        let xnew = x.sub(&k1);
        Ok(xnew)
    }
}

/// A four-stage update that re-evaluates the Jacobian at intermediate
/// points and combines the stages with Runge-Kutta weights.
pub struct Sand;

impl<T> Solver<T> for Sand where T: FindRootOp, T::Variable: Extension {
    type Variable = T::Variable;

    type ReportArg = T::Variable;

    fn next_iter(&mut self, op: &T, x: &Self::Variable) -> Result<Self::Variable, Error> {
        let two: T::Variable = Extension::from_i32(2);
        let six: T::Variable = Extension::from_i32(6);
        let f0 = op.apply(x)?;
        let k1 = op.solve_jacobian(&op.jacobian(x)?, &f0)?;
        let k2 = op.solve_jacobian(&op.jacobian(&x.sub(&k1.div(&two)))?, &f0)?;
        let k3 = op.solve_jacobian(&op.jacobian(&x.sub(&k2.div(&two)))?, &f0)?;
        let k4 = op.solve_jacobian(&op.jacobian(&x.sub(&k3))?, &f0)?;
        let xnew = x.sub(&k1.add(&k2.add(&k3).mul(&two)).add(&k4).div(&six));
        Ok(xnew)
    }
}

} // verus!
