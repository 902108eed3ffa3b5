//! The dual-number value type and the variable allocator.
//!
//! A [`Dual`] holds a value together with a gradient vector whose component
//! `i` is the partial derivative of the represented expression with respect
//! to the `i`-th independent variable.  [`Variables`] tracks how many
//! independent variables have been minted against a declared capacity and
//! seeds each one with a one-hot gradient.
//!
//! Contracts are stated over [`DualModel`], the mathematical image of a
//! `Dual`: the scalar value and the gradient as a sequence.  Components
//! beyond a gradient's length count as zero, so values of different arity
//! combine deterministically (freshly sized values pad with zeros).

use vstd::prelude::*;

pub mod elementary;
pub mod num;
pub mod ops;

use crate::scalar::FloatLike;

verus! {

/// The mathematical image of a `Dual`: its value and its gradient.
#[verifier::ext_equal]
pub ghost struct DualModel<S> {
    pub x: S,
    pub dx: Seq<S>,
}

/// Gradient component `i`, counting missing components as zero.
pub open spec fn grad_at<S: FloatLike>(m: DualModel<S>, i: int) -> S {
    if 0 <= i < m.dx.len() {
        m.dx[i]
    } else {
        S::zero_spec()
    }
}

/// The all-zero gradient of length `n`.
pub open spec fn zeros<S: FloatLike>(n: nat) -> Seq<S> {
    Seq::new(n, |i: int| S::zero_spec())
}

/// The standard basis gradient of length `n`: one at `i`, zero elsewhere.
pub open spec fn basis<S: FloatLike>(i: int, n: nat) -> Seq<S> {
    Seq::new(n, |j: int| if j == i { S::one_spec() } else { S::zero_spec() })
}

/// A value paired with its gradient with respect to the independent
/// variables of one differentiation session.
pub struct Dual<S> {
    /// The represented expression's value at the current point.
    pub x: S,
    /// The gradient: `dx[i]` is the partial derivative with respect to the
    /// `i`-th independent variable.
    pub dx: Vec<S>,
}

impl<S> View for Dual<S> {
    type V = DualModel<S>;

    open spec fn view(&self) -> DualModel<S> {
        DualModel { x: self.x, dx: self.dx@ }
    }
}

/// A gradient vector of `n` zeros.
fn zero_grad<S: FloatLike>(n: usize) -> (r: Vec<S>)
    ensures
        r@ =~= zeros::<S>(n as nat),
{
    let mut r: Vec<S> = Vec::new();
    for i in 0..n
        invariant
            r@.len() == i,
            forall|j: int| 0 <= j < i ==> r@[j] == S::zero_spec(),
    {
        r.push(S::zero());
    }
    r
}

impl<S: FloatLike> Dual<S> {
    /// An independent variable: value `value`, gradient one-hot at
    /// `var_index` among `n` variables.
    pub fn new(n: usize, var_index: usize, value: S) -> (r: Self)
        requires
            var_index < n,
        ensures
            r@.x == value,
            r@.dx =~= basis::<S>(var_index as int, n as nat),
    {
        let mut dx = zero_grad::<S>(n);
        dx.set(var_index, S::one());
        assert(dx@ =~= basis::<S>(var_index as int, n as nat));
        Dual { x: value, dx }
    }

    /// A constant: value `value`, gradient all zero over `n` variables.
    pub fn constant(n: usize, value: S) -> (r: Self)
        ensures
            r@.x == value,
            r@.dx =~= zeros::<S>(n as nat),
    {
        Dual { x: value, dx: zero_grad::<S>(n) }
    }

    /// The value channel.
    pub fn val(&self) -> (r: &S)
        ensures
            *r == self@.x,
    {
        &self.x
    }

    /// A read view of the gradient.
    pub fn grad(&self) -> (r: &Vec<S>)
        ensures
            r@ == self@.dx,
    {
        &self.dx
    }

    /// A write view of the gradient; the value channel stays as it is.
    pub fn grad_mut(&mut self) -> (r: &mut Vec<S>)
        ensures
            r@ == old(self)@.dx,
            final(self)@.dx == final(r)@,
            final(self)@.x == old(self)@.x,
    {
        &mut self.dx
    }
}

/// Allocates independent variables for one differentiation session.
///
/// Created once with a declared capacity; each minting call advances
/// `num_var`, and minting fails once the capacity is exhausted.
pub struct Variables<S> {
    /// The declared number of independent variables.
    pub max_var: usize,
    /// How many variables have been minted so far.
    pub num_var: usize,
    pub _type: core::marker::PhantomData<S>,
}

impl<S: FloatLike> Variables<S> {
    /// A fresh allocator for `num_variables` independent variables.
    pub fn new(num_variables: usize) -> (r: Self)
        ensures
            r.max_var == num_variables,
            r.num_var == 0,
    {
        Variables { max_var: num_variables, num_var: 0, _type: core::marker::PhantomData }
    }

    /// Mints the next independent variable, if capacity remains.
    ///
    /// On the `i`-th successful call the result carries the `i`-th standard
    /// basis vector as its gradient; once `num_var` reaches `max_var` the
    /// allocator is exhausted and `None` comes back.
    pub fn gen(&mut self, init_value: S) -> (r: Option<Dual<S>>)
        ensures
            old(self).num_var < old(self).max_var ==> {
                &&& r matches Some(d)
                &&& d@.x == init_value
                &&& d@.dx == basis::<S>(old(self).num_var as int, old(self).max_var as nat)
                &&& final(self).num_var == old(self).num_var + 1
            },
            old(self).num_var >= old(self).max_var ==> {
                &&& r is None
                &&& final(self).num_var == old(self).num_var
            },
            final(self).max_var == old(self).max_var,
    {
        if self.num_var < self.max_var {
            let var = Dual::new(self.max_var, self.num_var, init_value);
            self.num_var = self.num_var + 1;
            Some(var)
        } else {
            None
        }
    }

    /// Mints one variable per initial value, which must use up the remaining
    /// capacity exactly.
    pub fn gen_all(&mut self, init_values: &[S]) -> (r: Vec<Dual<S>>)
        requires
            old(self).num_var <= old(self).max_var,
            init_values@.len() == old(self).max_var - old(self).num_var,
        ensures
            r@.len() == init_values@.len(),
            forall|k: int|
                0 <= k < r@.len() ==> {
                    &&& (#[trigger] r@[k])@.x == init_values@[k]
                    &&& r@[k]@.dx == basis::<S>(
                        old(self).num_var + k,
                        old(self).max_var as nat,
                    )
                },
            final(self).num_var == final(self).max_var,
            final(self).max_var == old(self).max_var,
    {
        let n = init_values.len();
        let mut r: Vec<Dual<S>> = Vec::new();
        for k in 0..n
            invariant
                self.max_var == old(self).max_var,
                self.num_var == old(self).num_var + k,
                self.num_var <= self.max_var,
                n == init_values@.len(),
                n == old(self).max_var - old(self).num_var,
                r@.len() == k,
                forall|j: int|
                    0 <= j < k ==> {
                        &&& (#[trigger] r@[j])@.x == init_values@[j]
                        &&& r@[j]@.dx == basis::<S>(
                            old(self).num_var + j,
                            old(self).max_var as nat,
                        )
                    },
        {
            let d = Dual::new(self.max_var, self.num_var, init_values[k]);
            self.num_var = self.num_var + 1;
            r.push(d);
        }
        r
    }

    /// A constant over this allocator's variables: all-zero gradient, and no
    /// capacity is consumed (the allocator is not even mutable here).
    pub fn constant(&self, value: S) -> (r: Dual<S>)
        ensures
            r@.x == value,
            r@.dx == zeros::<S>(self.max_var as nat),
    {
        Dual::constant(self.max_var, value)
    }
}

} // verus!
