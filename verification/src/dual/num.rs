//! Conformance of `Dual` to the numeric capabilities of a plain scalar.
//!
//! These adapters let a `Dual` stand wherever generic numerical code
//! expects a float-like number: identities, parsing, integer conversion,
//! and the special values, each delegated to the value channel with an
//! all-zero gradient.  A fresh identity or parsed value carries an empty
//! gradient, which combines with any arity since missing components count
//! as zero.
//!
//! Equality and ordering compare only the value channel, never the
//! gradient: duals order like the functions they represent at the current
//! point.  This is intentional, and it silently discards gradient
//! information in any comparison-driven control flow (the branch selection
//! of `min` and `max` relies on exactly this).

use vstd::prelude::*;

use crate::dual::{zeros, Dual};
use crate::scalar::FloatLike;

verus! {

impl<S: FloatLike> Dual<S> {
    /// The additive identity, a constant of arity zero.
    pub fn zero() -> (r: Self)
        ensures
            r@.x == S::zero_spec(),
            r@.dx.len() == 0,
    {
        Dual { x: S::zero(), dx: Vec::new() }
    }

    /// Whether the value channel is the additive identity.
    pub fn is_zero(&self) -> (r: bool)
        ensures
            r == (self@.x.cmp_spec(S::zero_spec()) == Some(core::cmp::Ordering::Equal)),
    {
        matches!(self.x.value_cmp(&S::zero()), Some(core::cmp::Ordering::Equal))
    }

    /// Turns the value into the additive identity and the gradient into
    /// zero, keeping its arity.
    pub fn set_zero(&mut self)
        ensures
            final(self)@.x == S::zero_spec(),
            final(self)@.dx == zeros::<S>(old(self)@.dx.len()),
    {
        self.x = S::zero();
        let n = self.dx.len();
        let mut i: usize = 0;
        while i < n
            invariant
                n == self.dx.len(),
                i <= n,
                self.x == S::zero_spec(),
                forall|j: int| 0 <= j < i ==> self.dx@[j] == S::zero_spec(),
            decreases n - i,
        {
            self.dx.set(i, S::zero());
            i += 1;
        }
        proof {
            assert(self.dx@ =~= zeros::<S>(old(self)@.dx.len()));
        }
    }

    /// The multiplicative identity, a constant of arity zero.
    pub fn one() -> (r: Self)
        ensures
            r@.x == S::one_spec(),
            r@.dx.len() == 0,
    {
        Dual { x: S::one(), dx: Vec::new() }
    }

    /// Whether the value channel is the multiplicative identity.
    pub fn is_one(&self) -> (r: bool)
        ensures
            r == (self@.x.cmp_spec(S::one_spec()) == Some(core::cmp::Ordering::Equal)),
    {
        matches!(self.x.value_cmp(&S::one()), Some(core::cmp::Ordering::Equal))
    }

    /// Turns the value into the multiplicative identity; the gradient of a
    /// constant is zero, so it is zeroed as well, keeping its arity.
    pub fn set_one(&mut self)
        ensures
            final(self)@.x == S::one_spec(),
            final(self)@.dx == zeros::<S>(old(self)@.dx.len()),
    {
        self.set_zero();
        self.x = S::one();
    }

    /// The not-a-number constant, of arity zero.
    pub fn nan() -> (r: Self)
        ensures
            r@.x == S::nan_spec(),
            r@.dx.len() == 0,
    {
        Dual { x: S::nan(), dx: Vec::new() }
    }

    /// Whether the value channel is not-a-number.
    pub fn is_nan(&self) -> (r: bool)
        ensures
            r == self@.x.is_nan_spec(),
    {
        self.x.is_nan()
    }

    /// The positive-infinity constant, of arity zero.
    pub fn infinity() -> (r: Self)
        ensures
            r@.x == S::infinity_spec(),
            r@.dx.len() == 0,
    {
        Dual { x: S::infinity(), dx: Vec::new() }
    }

    /// The negative-infinity constant, of arity zero.
    pub fn neg_infinity() -> (r: Self)
        ensures
            r@.x == S::neg_infinity_spec(),
            r@.dx.len() == 0,
    {
        Dual { x: S::neg_infinity(), dx: Vec::new() }
    }

    /// Whether the value channel is finite.
    pub fn is_finite(&self) -> (r: bool)
        ensures
            r == self@.x.is_finite_spec(),
    {
        self.x.is_finite()
    }

    /// Whether the value channel is one of the infinities.
    pub fn is_infinite(&self) -> (r: bool)
        ensures
            r == self@.x.is_infinite_spec(),
    {
        self.x.is_infinite()
    }

    /// Parses a value in the given base; the result is a constant with
    /// zero gradient.
    pub fn from_str_radix(s: &str, radix: u32) -> (r: Option<Self>)
        ensures
            match S::from_str_radix_spec(s, radix) {
                Some(v) => {
                    &&& r matches Some(d)
                    &&& d@.x == v
                    &&& d@.dx.len() == 0
                },
                None => r is None,
            },
    {
        match S::from_str_radix(s, radix) {
            Some(x) => Some(Dual { x, dx: Vec::new() }),
            None => None,
        }
    }

    /// The signed integer `n` as a constant with zero gradient.
    pub fn from_i64(n: i64) -> (r: Self)
        ensures
            r@.x == S::from_int_spec(n),
            r@.dx.len() == 0,
    {
        Dual { x: S::from_i64(n), dx: Vec::new() }
    }

    /// The unsigned integer `n` as a constant with zero gradient.
    pub fn from_u64(n: u64) -> (r: Self)
        ensures
            n <= i64::MAX ==> r@.x == S::from_int_spec(n as i64),
            r@.dx.len() == 0,
    {
        Dual { x: S::from_u64(n), dx: Vec::new() }
    }
}

impl<S: FloatLike> crate::traits::BinaryOperand for Dual<S> {
    fn add(&self, rhs: &Self) -> Self {
        Dual::add(self, rhs)
    }

    fn sub(&self, rhs: &Self) -> Self {
        Dual::sub(self, rhs)
    }

    fn mul(&self, rhs: &Self) -> Self {
        Dual::mul(self, rhs)
    }

    fn div(&self, rhs: &Self) -> Self {
        Dual::div(self, rhs)
    }
}

impl<S: FloatLike> crate::traits::NumOps for Dual<S> {
    fn neg(&self) -> Self {
        Dual::neg(self)
    }
}

impl<S: crate::scalar::ElementaryFunction> crate::traits::Extension for Dual<S> {
    fn zero() -> Self {
        Dual::zero()
    }

    fn one() -> Self {
        Dual::one()
    }

    fn nan() -> Self {
        Dual::nan()
    }

    fn abs(&self) -> Self {
        Dual::abs(self)
    }

    fn is_nan(&self) -> bool {
        Dual::is_nan(self)
    }

    fn from_i32(n: i32) -> Self {
        Dual::from_i64(n as i64)
    }
}

impl<S: FloatLike> Default for Dual<S> {
    /// The zero constant of arity zero.
    fn default() -> (r: Self)
        ensures
            r@.x == S::zero_spec(),
            r@.dx.len() == 0,
    {
        Dual::zero()
    }
}

impl<S: FloatLike> PartialEq for Dual<S> {
    /// Equal when the value channels compare equal; gradients are ignored.
    fn eq(&self, other: &Self) -> (r: bool) {
        matches!(self.x.value_cmp(&other.x), Some(core::cmp::Ordering::Equal))
    }
}

impl<S: FloatLike> vstd::std_specs::cmp::PartialEqSpecImpl for Dual<S> {
    open spec fn obeys_eq_spec() -> bool {
        true
    }

    open spec fn eq_spec(&self, other: &Self) -> bool {
        self@.x.cmp_spec(other@.x) == Some(core::cmp::Ordering::Equal)
    }
}

impl<S: FloatLike> PartialOrd for Dual<S> {
    /// Ordered as the value channels are; gradients are ignored.
    fn partial_cmp(&self, other: &Self) -> (r: Option<core::cmp::Ordering>) {
        self.x.value_cmp(&other.x)
    }
}

impl<S: FloatLike> vstd::std_specs::cmp::PartialOrdSpecImpl for Dual<S> {
    open spec fn obeys_partial_cmp_spec() -> bool {
        true
    }

    open spec fn partial_cmp_spec(&self, other: &Self) -> Option<core::cmp::Ordering> {
        self@.x.cmp_spec(other@.x)
    }
}

} // verus!
