use std::cmp::Ordering;

use dual::dual::{Dual, Variables};
use dual::scalar::{ElementaryFunction, FloatLike};

/// A plain double-precision scalar for exercising the library.
#[derive(Clone, Copy, Debug, PartialEq)]
struct F(f64);

impl FloatLike for F {
    fn zero_spec() -> F {
        F(0.0)
    }
    fn one_spec() -> F {
        F(1.0)
    }
    fn add_spec(self, rhs: F) -> F {
        F(self.0 + rhs.0)
    }
    fn sub_spec(self, rhs: F) -> F {
        F(self.0 - rhs.0)
    }
    fn mul_spec(self, rhs: F) -> F {
        F(self.0 * rhs.0)
    }
    fn div_spec(self, rhs: F) -> F {
        F(self.0 / rhs.0)
    }
    fn neg_spec(self) -> F {
        F(-self.0)
    }
    fn nan_spec() -> F {
        F(f64::NAN)
    }
    fn infinity_spec() -> F {
        F(f64::INFINITY)
    }
    fn neg_infinity_spec() -> F {
        F(f64::NEG_INFINITY)
    }
    fn is_nan_spec(self) -> bool {
        self.0.is_nan()
    }
    fn is_finite_spec(self) -> bool {
        self.0.is_finite()
    }
    fn is_infinite_spec(self) -> bool {
        self.0.is_infinite()
    }
    fn cmp_spec(self, rhs: F) -> Option<Ordering> {
        self.0.partial_cmp(&rhs.0)
    }
    fn from_int_spec(n: i64) -> F {
        F(n as f64)
    }
    fn from_str_radix_spec(s: &str, radix: u32) -> Option<F> {
        <f64 as num_traits::Num>::from_str_radix(s, radix).ok().map(F)
    }
    fn zero() -> F {
        F(0.0)
    }
    fn one() -> F {
        F(1.0)
    }
    fn add(&self, rhs: &F) -> F {
        F(self.0 + rhs.0)
    }
    fn sub(&self, rhs: &F) -> F {
        F(self.0 - rhs.0)
    }
    fn mul(&self, rhs: &F) -> F {
        F(self.0 * rhs.0)
    }
    fn div(&self, rhs: &F) -> F {
        F(self.0 / rhs.0)
    }
    fn neg(&self) -> F {
        F(-self.0)
    }
    fn nan() -> F {
        F(f64::NAN)
    }
    fn infinity() -> F {
        F(f64::INFINITY)
    }
    fn neg_infinity() -> F {
        F(f64::NEG_INFINITY)
    }
    fn is_nan(&self) -> bool {
        self.0.is_nan()
    }
    fn is_finite(&self) -> bool {
        self.0.is_finite()
    }
    fn is_infinite(&self) -> bool {
        self.0.is_infinite()
    }
    fn value_cmp(&self, rhs: &F) -> Option<Ordering> {
        self.0.partial_cmp(&rhs.0)
    }
    fn from_i32(n: i32) -> F {
        F(n as f64)
    }
    fn from_i64(n: i64) -> F {
        F(n as f64)
    }
    fn from_u64(n: u64) -> F {
        F(n as f64)
    }
    fn from_str_radix(s: &str, radix: u32) -> Option<F> {
        <f64 as num_traits::Num>::from_str_radix(s, radix).ok().map(F)
    }
}

impl ElementaryFunction for F {
    fn sqrt_spec(self) -> F {
        F(self.0.sqrt())
    }
    fn cbrt_spec(self) -> F {
        F(self.0.cbrt())
    }
    fn exp_spec(self) -> F {
        F(self.0.exp())
    }
    fn exp2_spec(self) -> F {
        F(self.0.exp2())
    }
    fn exp_m1_spec(self) -> F {
        F(self.0.exp_m1())
    }
    fn ln_spec(self) -> F {
        F(self.0.ln())
    }
    fn log10_spec(self) -> F {
        F(self.0.log10())
    }
    fn log2_spec(self) -> F {
        F(self.0.log2())
    }
    fn ln_1p_spec(self) -> F {
        F(self.0.ln_1p())
    }
    fn sin_spec(self) -> F {
        F(self.0.sin())
    }
    fn cos_spec(self) -> F {
        F(self.0.cos())
    }
    fn tan_spec(self) -> F {
        F(self.0.tan())
    }
    fn asin_spec(self) -> F {
        F(self.0.asin())
    }
    fn acos_spec(self) -> F {
        F(self.0.acos())
    }
    fn atan_spec(self) -> F {
        F(self.0.atan())
    }
    fn sinh_spec(self) -> F {
        F(self.0.sinh())
    }
    fn cosh_spec(self) -> F {
        F(self.0.cosh())
    }
    fn tanh_spec(self) -> F {
        F(self.0.tanh())
    }
    fn asinh_spec(self) -> F {
        F(self.0.asinh())
    }
    fn acosh_spec(self) -> F {
        F(self.0.acosh())
    }
    fn atanh_spec(self) -> F {
        F(self.0.atanh())
    }
    fn abs_spec(self) -> F {
        F(self.0.abs())
    }
    fn signum_spec(self) -> F {
        F(self.0.signum())
    }
    fn floor_spec(self) -> F {
        F(self.0.floor())
    }
    fn ceil_spec(self) -> F {
        F(self.0.ceil())
    }
    fn round_spec(self) -> F {
        F(self.0.round())
    }
    fn trunc_spec(self) -> F {
        F(self.0.trunc())
    }
    fn fract_spec(self) -> F {
        F(self.0.fract())
    }
    fn powi_spec(self, n: i64) -> F {
        F(self.0.powi(n as i32))
    }
    fn powf_spec(self, n: F) -> F {
        F(self.0.powf(n.0))
    }
    fn hypot_spec(self, other: F) -> F {
        F(self.0.hypot(other.0))
    }
    fn log_spec(self, base: F) -> F {
        F(self.0.log(base.0))
    }
    fn pi_spec() -> F {
        F(std::f64::consts::PI)
    }
    fn sqrt(&self) -> F {
        F(self.0.sqrt())
    }
    fn cbrt(&self) -> F {
        F(self.0.cbrt())
    }
    fn exp(&self) -> F {
        F(self.0.exp())
    }
    fn exp2(&self) -> F {
        F(self.0.exp2())
    }
    fn exp_m1(&self) -> F {
        F(self.0.exp_m1())
    }
    fn ln(&self) -> F {
        F(self.0.ln())
    }
    fn log10(&self) -> F {
        F(self.0.log10())
    }
    fn log2(&self) -> F {
        F(self.0.log2())
    }
    fn ln_1p(&self) -> F {
        F(self.0.ln_1p())
    }
    fn sin(&self) -> F {
        F(self.0.sin())
    }
    fn cos(&self) -> F {
        F(self.0.cos())
    }
    fn tan(&self) -> F {
        F(self.0.tan())
    }
    fn asin(&self) -> F {
        F(self.0.asin())
    }
    fn acos(&self) -> F {
        F(self.0.acos())
    }
    fn atan(&self) -> F {
        F(self.0.atan())
    }
    fn sinh(&self) -> F {
        F(self.0.sinh())
    }
    fn cosh(&self) -> F {
        F(self.0.cosh())
    }
    fn tanh(&self) -> F {
        F(self.0.tanh())
    }
    fn asinh(&self) -> F {
        F(self.0.asinh())
    }
    fn acosh(&self) -> F {
        F(self.0.acosh())
    }
    fn atanh(&self) -> F {
        F(self.0.atanh())
    }
    fn abs(&self) -> F {
        F(self.0.abs())
    }
    fn signum(&self) -> F {
        F(self.0.signum())
    }
    fn floor(&self) -> F {
        F(self.0.floor())
    }
    fn ceil(&self) -> F {
        F(self.0.ceil())
    }
    fn round(&self) -> F {
        F(self.0.round())
    }
    fn trunc(&self) -> F {
        F(self.0.trunc())
    }
    fn fract(&self) -> F {
        F(self.0.fract())
    }
    fn powi(&self, n: i32) -> F {
        F(self.0.powi(n))
    }
    fn powf(&self, n: &F) -> F {
        F(self.0.powf(n.0))
    }
    fn hypot(&self, other: &F) -> F {
        F(self.0.hypot(other.0))
    }
    fn log(&self, base: &F) -> F {
        F(self.0.log(base.0))
    }
    fn pi() -> F {
        F(std::f64::consts::PI)
    }
}
/// Relative equality: exact, or within `tol` absolutely or relative to
/// the larger magnitude.
fn rel_eq_tol(a: f64, b: f64, tol: f64) -> bool {
    if a == b {
        return true;
    }
    let diff = (a - b).abs();
    let largest = a.abs().max(b.abs());
    diff <= tol || diff <= tol * largest
}

fn rel_eq(a: f64, b: f64) -> bool {
    rel_eq_tol(a, b, f64::EPSILON)
}

/// Both channels agree within `tol`, over the shared gradient components.
fn assert_id_tol(a: &Dual<F>, b: &Dual<F>, tol: f64) {
    assert!(
        rel_eq_tol(a.val().0, b.val().0, tol),
        "values differ: {} vs {}",
        a.val().0,
        b.val().0
    );
    for (da, db) in a.grad().iter().zip(b.grad().iter()) {
        assert!(rel_eq_tol(da.0, db.0, tol), "gradients differ: {} vs {}", da.0, db.0);
    }
}

fn assert_id(a: &Dual<F>, b: &Dual<F>) {
    assert_id_tol(a, b, f64::EPSILON);
}

#[test]
fn elf_negate() {
    let x = Dual::new(1, 0, F(3.0)).negate();
    assert!(rel_eq(-3.0, x.val().0));
    assert!(rel_eq(-1.0, x.grad()[0].0));
}

#[test]
fn elf_recip() {
    let x = Dual::new(1, 0, F(3.0)).recip();
    assert!(rel_eq(1.0 / 3.0, x.val().0));
    assert!(rel_eq(-1.0 / 9.0, x.grad()[0].0));

    assert_id(&x.recip().mul(&x), &Dual::constant(1, F(1.0)));
    assert_id(&x.recip().recip(), &x);
    assert_id(&x.div(&x.recip()), &x.mul(&x));
}

#[test]
fn elf_sqrt() {
    let x = Dual::new(1, 0, F(3.0)).sqrt();
    assert!(rel_eq(f64::sqrt(3.0), x.val().0));
    assert!(rel_eq(0.5 / f64::sqrt(3.0), x.grad()[0].0));

    assert_id(&x.sqrt().mul(&x.sqrt()), &x);
    assert_id(&x.sqrt().div(&x), &x.sqrt().recip());
}

#[test]
fn elf_powi() {
    let x = Dual::new(2, 0, F(0.5));
    assert_id(&x.powi(2).mul(&x.powi(3)), &x.powi(5));
    assert_id(&x.powi(2).mul(&x.powi(-3)), &x.powi(-1));
    assert_id(&x.powi(2).div(&x.powi(3)), &x.powi(-1));
    assert_id(&x.powi(2).div(&x.powi(-3)), &x.powi(5));
    assert_id(&x.sqrt().powi(2), &x);
    assert_id(&x.powi(2).sqrt(), &x);
    assert_id(&x.recip().powi(-1), &x);
    assert_id(&x.powi(-1).recip(), &x);
}

#[test]
fn elf_cbrt() {
    let x = Dual::new(2, 0, F(0.5));
    assert_id(&x.cbrt().powi(3), &x);
    assert_id(&x.powi(3).cbrt(), &x);
    assert_id(&x.cbrt().powi(2), &x.div(&x.cbrt()));
    assert_id(&x.cbrt().powi(2), &x.mul(&x.cbrt().recip()));
}

#[test]
fn elf_powf() {
    let x = Dual::new(2, 0, F(f64::exp(1.0))).powf(&Dual::new(2, 1, F(2.0)));
    assert!(rel_eq(f64::exp(2.0), x.val().0));
    assert!(rel_eq(2.0 * f64::exp(1.0), x.grad()[0].0));
    assert!(rel_eq(f64::exp(2.0), x.grad()[1].0));

    let y = Dual::new(1, 0, F(f64::exp(1.0))).powf(&Dual::new(1, 0, F(2.0)));
    assert!(rel_eq(y.grad()[0].0, x.grad()[0].0 + x.grad()[1].0));

    let x = Dual::new(2, 0, F(2.0));
    let z = Dual::new(2, 1, F(f64::exp(1.0)));
    assert_id(&x.powf(&z.negate()), &x.powf(&z).recip());
    assert_id(&x.powf(&z).mul(&x.powf(&z.negate())), &Dual::constant(2, F(1.0)));
    assert_id(&x.powf(&z).mul(&x.powf(&z)), &x.powf(&z.add(&z)));
    assert_id(&x.powf(&z).powf(&z), &x.powf(&z.mul(&z)));
    assert_id_tol(
        &x.sqrt().mul(&x.cbrt()),
        &x.powf(&Dual::constant(2, F(5.0 / 6.0))),
        f64::EPSILON * 10.0,
    );
}

#[test]
fn elf_exp() {
    let x = Dual::new(2, 0, F(0.5));
    let y = Dual::new(2, 1, F(1.5));
    assert_id(&x.add(&y).exp(), &x.exp().mul(&y.exp()));
    assert_id(&x.mul(&y).exp(), &x.exp().powf(&y));
}

#[test]
fn elf_exp2() {
    let x = Dual::new(2, 0, F(0.5));
    let y = Dual::new(2, 1, F(1.5));
    assert_id(&x.add(&y).exp2(), &x.exp2().mul(&y.exp2()));
    assert_id(&x.mul(&y).exp2(), &x.exp2().powf(&y));
}

#[test]
fn elf_ln() {
    let x = Dual::new(2, 0, F(0.5));
    let y = Dual::new(2, 1, F(1.5));
    assert_id(&x.ln().exp(), &x);
    assert_id(&x.exp().ln(), &x);
    assert_id(&x.mul(&y).ln(), &x.ln().add(&y.ln()));
    assert_id(&y.mul(&x.ln()), &x.powf(&y).ln());
    assert_id(&x.sqrt().ln(), &x.ln().mul_scalar(&F(0.5)));
    assert_id(&x.cbrt().ln(), &x.ln().div_scalar(&F(3.0)));
}

#[test]
fn elf_log2() {
    let x = Dual::new(2, 0, F(0.5));
    let y = Dual::new(2, 1, F(1.5));
    assert_id(&x.log2().exp2(), &x);
    assert_id(&x.exp2().log2(), &x);
    assert_id(&x.mul(&y).log2(), &x.log2().add(&y.log2()));
    assert_id(&y.mul(&x.log2()), &x.powf(&y).log2());
}

#[test]
fn elf_log10() {
    let x = Dual::new(2, 0, F(0.5));
    let y = Dual::new(2, 1, F(1.5));
    assert_id(&x.mul(&y).log10(), &x.log10().add(&y.log10()));
    assert_id(&y.mul(&x.log10()), &x.powf(&y).log10());
}

#[test]
fn elf_log() {
    let x = Dual::new(2, 0, F(0.5));
    let y = Dual::new(2, 1, F(1.5));
    assert_id(&x.ln().div(&y.ln()), &x.log(&y));
}

#[test]
fn elf_sin_cos() {
    let x = Dual::new(1, 0, F(0.5));
    assert_id(&x.sin().powi(2).add(&x.cos().mul(&x.cos())), &Dual::constant(1, F(1.0)));
    assert_id(&x.mul_scalar(&F(2.0)).sin(), &x.sin().mul(&x.cos()).mul_scalar(&F(2.0)));
    assert_id(&x.mul_scalar(&F(2.0)).cos(), &x.cos().powi(2).sub(&x.sin().powi(2)));
    assert_id(
        &x.mul_scalar(&F(0.5)).sin().powi(2),
        &x.cos().negate().add_scalar(&F(1.0)).mul_scalar(&F(0.5)),
    );
    assert_id(
        &x.mul_scalar(&F(0.5)).cos().powi(2),
        &x.cos().add_scalar(&F(1.0)).mul_scalar(&F(0.5)),
    );
}

#[test]
fn elf_tan() {
    let x = Dual::new(1, 0, F(0.5));
    assert_id(&x.tan(), &x.sin().div(&x.cos()));
}

#[test]
fn elf_asin() {
    let x = Dual::new(1, 0, F(0.5)).asin();
    assert!(rel_eq(f64::asin(0.5), x.val().0));
    assert!(rel_eq(1.0 / (1.0_f64 - 0.5 * 0.5).sqrt(), x.grad()[0].0));

    assert_id(&x.sin().asin(), &x);
    assert_id(&x.asin().sin(), &x);
}

#[test]
fn elf_acos() {
    let x = Dual::new(1, 0, F(0.5)).asin();
    assert_id(&x.cos().acos(), &x);
    assert_id(&x.acos().cos(), &x);
}

#[test]
fn elf_sinh_cosh() {
    let x = Dual::new(1, 0, F(0.5));
    assert_id(&x.cosh().powi(2).sub(&x.sinh().mul(&x.sinh())), &Dual::constant(1, F(1.0)));
    assert_id(&x.sinh(), &x.exp().sub(&x.negate().exp()).mul_scalar(&F(0.5)));
    assert_id(&x.cosh(), &x.exp().add(&x.negate().exp()).mul_scalar(&F(0.5)));
}

#[test]
fn elf_tanh() {
    let x = Dual::new(1, 0, F(0.5));
    assert_id(&x.tanh(), &x.sinh().div(&x.cosh()));
}

#[test]
fn float_like_negate() {
    let x = Dual::new(1, 0, F(3.0)).negate();
    assert!(rel_eq(-3.0, x.val().0));
    assert!(rel_eq(-1.0, x.grad()[0].0));
}

#[test]
fn float_like_recip() {
    let x = Dual::new(1, 0, F(3.0)).recip();
    assert!(rel_eq(1.0 / 3.0, x.val().0));
    assert!(rel_eq(-1.0 / 9.0, x.grad()[0].0));

    assert_id(&x.recip().mul(&x), &Dual::constant(1, F(1.0)));
    assert_id(&x.recip().recip(), &x);
    assert_id(&x.div(&x.recip()), &x.mul(&x));
}

#[test]
fn mul_add() {
    let x = Dual::new(3, 0, F(0.5));
    let y = Dual::new(3, 1, F(1.5));
    let z = Dual::new(3, 2, F(-1.5));
    assert_id(&x.mul_add(&y, &z), &x.mul(&y).add(&z));
}

#[test]
fn abs_sub() {
    let x = Dual::new(3, 0, F(0.5));
    let y = Dual::new(3, 1, F(1.5));
    assert_id(&x.abs_sub(&y), &x.sub(&y).max(&Dual::constant(3, F(0.0))));
    assert_id(&y.abs_sub(&x), &y.sub(&x).max(&Dual::constant(3, F(0.0))));
}

#[test]
fn float_like_sqrt() {
    let x = Dual::new(1, 0, F(3.0)).sqrt();
    assert!(rel_eq(f64::sqrt(3.0), x.val().0));
    assert!(rel_eq(0.5 / f64::sqrt(3.0), x.grad()[0].0));

    assert_id(&x.sqrt().mul(&x.sqrt()), &x);
    assert_id(&x.sqrt().div(&x), &x.sqrt().recip());
}

#[test]
fn float_like_powi() {
    let x = Dual::new(2, 0, F(0.5));
    assert_id(&x.powi(2).mul(&x.powi(3)), &x.powi(5));
    assert_id(&x.powi(2).mul(&x.powi(-3)), &x.powi(-1));
    assert_id(&x.powi(2).div(&x.powi(3)), &x.powi(-1));
    assert_id(&x.powi(2).div(&x.powi(-3)), &x.powi(5));
    assert_id(&x.sqrt().powi(2), &x);
    assert_id(&x.powi(2).sqrt(), &x);
    assert_id(&x.recip().powi(-1), &x);
    assert_id(&x.powi(-1).recip(), &x);
}

#[test]
fn float_like_cbrt() {
    let x = Dual::new(2, 0, F(0.5));
    assert_id(&x.cbrt().powi(3), &x);
    assert_id(&x.powi(3).cbrt(), &x);
    assert_id(&x.cbrt().powi(2), &x.div(&x.cbrt()));
    assert_id(&x.cbrt().powi(2), &x.mul(&x.cbrt().recip()));
}

#[test]
fn float_like_powf() {
    let x = Dual::new(2, 0, F(f64::exp(1.0))).powf(&Dual::new(2, 1, F(2.0)));
    assert!(rel_eq(f64::exp(2.0), x.val().0));
    assert!(rel_eq(2.0 * f64::exp(1.0), x.grad()[0].0));
    assert!(rel_eq(f64::exp(2.0), x.grad()[1].0));

    let y = Dual::new(1, 0, F(f64::exp(1.0))).powf(&Dual::new(1, 0, F(2.0)));
    assert!(rel_eq(y.grad()[0].0, x.grad()[0].0 + x.grad()[1].0));

    let x = Dual::new(2, 0, F(2.0));
    let z = Dual::new(2, 1, F(f64::exp(1.0)));
    assert_id(&x.powf(&z.negate()), &x.powf(&z).recip());
    assert_id(&x.powf(&z).mul(&x.powf(&z.negate())), &Dual::constant(2, F(1.0)));
    assert_id(&x.powf(&z).mul(&x.powf(&z)), &x.powf(&z.add(&z)));
    assert_id(&x.powf(&z).powf(&z), &x.powf(&z.mul(&z)));
    assert_id_tol(
        &x.sqrt().mul(&x.cbrt()),
        &x.powf(&Dual::constant(2, F(5.0 / 6.0))),
        f64::EPSILON * 10.0,
    );
}

#[test]
fn hypot() {
    let x = Dual::new(2, 0, F(0.5));
    let y = Dual::new(2, 1, F(1.5));
    assert_id(&x.hypot(&y), &x.powi(2).add(&y.powi(2)).sqrt());
}

#[test]
fn float_like_exp() {
    let x = Dual::new(2, 0, F(0.5));
    let y = Dual::new(2, 1, F(1.5));
    assert_id(&x.add(&y).exp(), &x.exp().mul(&y.exp()));
    assert_id(&x.mul(&y).exp(), &x.exp().powf(&y));
}

#[test]
fn float_like_exp2() {
    let x = Dual::new(2, 0, F(0.5));
    let y = Dual::new(2, 1, F(1.5));
    assert_id(&x.add(&y).exp2(), &x.exp2().mul(&y.exp2()));
    assert_id(&x.mul(&y).exp2(), &x.exp2().powf(&y));
}

#[test]
fn float_like_ln() {
    let x = Dual::new(2, 0, F(0.5));
    let y = Dual::new(2, 1, F(1.5));
    assert_id(&x.ln().exp(), &x);
    assert_id(&x.exp().ln(), &x);
    assert_id(&x.mul(&y).ln(), &x.ln().add(&y.ln()));
    assert_id(&y.mul(&x.ln()), &x.powf(&y).ln());
    assert_id(&x.sqrt().ln(), &x.ln().mul_scalar(&F(0.5)));
    assert_id(&x.cbrt().ln(), &x.ln().div_scalar(&F(3.0)));
}

#[test]
fn float_like_log2() {
    let x = Dual::new(2, 0, F(0.5));
    let y = Dual::new(2, 1, F(1.5));
    assert_id(&x.log2().exp2(), &x);
    assert_id(&x.exp2().log2(), &x);
    assert_id(&x.mul(&y).log2(), &x.log2().add(&y.log2()));
    assert_id(&y.mul(&x.log2()), &x.powf(&y).log2());
}

#[test]
fn float_like_log10() {
    let x = Dual::new(2, 0, F(0.5));
    let y = Dual::new(2, 1, F(1.5));
    assert_id(&x.mul(&y).log10(), &x.log10().add(&y.log10()));
    assert_id(&y.mul(&x.log10()), &x.powf(&y).log10());
}

#[test]
fn float_like_log() {
    let x = Dual::new(2, 0, F(0.5));
    let y = Dual::new(2, 1, F(1.5));
    assert_id(&x.ln().div(&y.ln()), &x.log(&y));
}

#[test]
fn float_like_sin_cos() {
    let x = Dual::new(1, 0, F(0.5));
    assert_id(&x.sin().powi(2).add(&x.cos().mul(&x.cos())), &Dual::constant(1, F(1.0)));
    assert_id(&x.mul_scalar(&F(2.0)).sin(), &x.sin().mul(&x.cos()).mul_scalar(&F(2.0)));
    assert_id(&x.mul_scalar(&F(2.0)).cos(), &x.cos().powi(2).sub(&x.sin().powi(2)));
    assert_id(
        &x.mul_scalar(&F(0.5)).sin().powi(2),
        &x.cos().negate().add_scalar(&F(1.0)).mul_scalar(&F(0.5)),
    );
    assert_id(
        &x.mul_scalar(&F(0.5)).cos().powi(2),
        &x.cos().add_scalar(&F(1.0)).mul_scalar(&F(0.5)),
    );
}

#[test]
fn float_like_tan() {
    let x = Dual::new(1, 0, F(0.5));
    assert_id(&x.tan(), &x.sin().div(&x.cos()));
}

#[test]
fn float_like_asin() {
    let x = Dual::new(1, 0, F(0.5)).asin();
    assert!(rel_eq(f64::asin(0.5), x.val().0));
    assert!(rel_eq(1.0 / (1.0_f64 - 0.5 * 0.5).sqrt(), x.grad()[0].0));

    assert_id(&x.sin().asin(), &x);
    assert_id(&x.asin().sin(), &x);
}

#[test]
fn float_like_acos() {
    let x = Dual::new(1, 0, F(0.5)).asin();
    assert_id(&x.cos().acos(), &x);
    assert_id(&x.acos().cos(), &x);
}

#[test]
fn float_like_sinh_cosh() {
    let x = Dual::new(1, 0, F(0.5));
    assert_id(&x.cosh().powi(2).sub(&x.sinh().mul(&x.sinh())), &Dual::constant(1, F(1.0)));
    assert_id(&x.sinh(), &x.exp().sub(&x.negate().exp()).mul_scalar(&F(0.5)));
    assert_id(&x.cosh(), &x.exp().add(&x.negate().exp()).mul_scalar(&F(0.5)));
}

#[test]
fn float_like_tanh() {
    let x = Dual::new(1, 0, F(0.5));
    assert_id(&x.tanh(), &x.sinh().div(&x.cosh()));
}

#[test]
fn lib_case01() {
    let mut vars = Variables::<F>::new(3);
    let x = vars.gen(F(0.0)).unwrap();
    let y = vars.gen_all(&[F(1.0), F(10.0)]);

    let loss = x.add(&y[0]).mul(&y[1]);
    assert_eq!(loss.grad().clone(), vec![F(10.0), F(10.0), F(1.0)]);
    assert_eq!((0.0 + 1.0) * 10.0, loss.val().0);
}

#[test]
fn lib_case02() {
    let mut vars = Variables::<F>::new(3);
    let x = vars.gen(F(2.0)).unwrap();
    let y = vars.gen_all(&[F(1.0), F(10.0)]);

    let loss = x.add(&x.add(&y[0]).mul(&y[1]));
    assert_eq!(loss.grad().clone(), vec![F(11.0), F(10.0), F(3.0)]);
    assert_eq!(2.0 + (2.0 + 1.0) * 10.0, loss.val().0);
}

#[test]
fn static_size_case01() {
    let x = Dual::new(3, 0, F(0.0));
    let y = [Dual::new(3, 1, F(1.0)), Dual::new(3, 2, F(10.0))];

    let loss = x.add(&y[0]).mul(&y[1]);
    assert_eq!(loss.grad().clone(), vec![F(10.0), F(10.0), F(1.0)]);
    assert_eq!((0.0 + 1.0) * 10.0, loss.val().0);
}

#[test]
fn static_size_case02() {
    let x = Dual::new(3, 0, F(2.0));
    let y = [Dual::new(3, 1, F(1.0)), Dual::new(3, 2, F(10.0))];

    let loss = x.add(&x.add(&y[0]).mul(&y[1]));
    assert_eq!(loss.grad().clone(), vec![F(11.0), F(10.0), F(3.0)]);
    assert_eq!(2.0 + (2.0 + 1.0) * 10.0, loss.val().0);
}

#[test]
fn dual_it_works() {
    let mut vars = Variables::<F>::new(3);
    let x = vars.gen(F(0.0)).unwrap();
    let rest = vars.gen_all(&[F(1.0), F(10.0)]);
    let y = rest[0].clone();
    let z = rest[1].clone();

    let loss = x.add(&y).mul(&z);
    assert_eq!(loss.grad().clone(), vec![F(10.0), F(10.0), F(1.0)]);
}

#[test]
fn works() {
    let mut vars = Variables::<F>::new(3);
    let x = vars.gen(F(0.0)).unwrap();
    let y = vars.gen_all(&[F(1.0), F(10.0)]);

    let loss = x.add(&y[0]).mul(&y[1]);
    assert_eq!(loss.grad().clone(), vec![F(10.0), F(10.0), F(1.0)]);
}

#[test]
fn atan2_at_origin_is_nan() {
    let y = Dual::new(1, 0, F(0.0));
    let x = Dual::constant(1, F(0.0));
    let r = y.atan2(&x);
    assert!(r.val().0.is_nan());
    assert!(r.grad()[0].0.is_nan());
}

#[test]
fn atan2_quadrants() {
    let q = std::f64::consts::FRAC_PI_4;
    let y = Dual::new(2, 0, F(1.0));
    let x = Dual::new(2, 1, F(1.0));
    assert!(rel_eq(q, y.atan2(&x).val().0));
    let xn = Dual::new(2, 1, F(-1.0));
    assert!(rel_eq(3.0 * q, y.atan2(&xn).val().0));
    let yn = Dual::new(2, 0, F(-1.0));
    assert!(rel_eq(-3.0 * q, yn.atan2(&xn).val().0));
    assert!(rel_eq(-q, yn.atan2(&x).val().0));
}

#[test]
fn min_max_select_the_whole_dual() {
    let x = Dual::new(2, 0, F(1.0));
    let y = Dual::new(2, 1, F(3.0));
    let hi = x.max(&y);
    assert_eq!(hi.val().0, 3.0);
    assert_eq!(hi.grad().clone(), vec![F(0.0), F(1.0)]);
    let lo = x.min(&y);
    assert_eq!(lo.val().0, 1.0);
    assert_eq!(lo.grad().clone(), vec![F(1.0), F(0.0)]);
}

#[test]
fn discrete_ops_discard_the_gradient() {
    let x = Dual::new(1, 0, F(2.7));
    assert_eq!(x.floor().val().0, 2.0);
    assert_eq!(x.floor().grad().clone(), vec![F(0.0)]);
    assert_eq!(x.ceil().val().0, 3.0);
    assert_eq!(x.ceil().grad().clone(), vec![F(0.0)]);
    assert_eq!(x.round().val().0, 3.0);
    assert_eq!(x.round().grad().clone(), vec![F(0.0)]);
    assert_eq!(x.trunc().val().0, 2.0);
    assert_eq!(x.trunc().grad().clone(), vec![F(0.0)]);
    assert_eq!(x.signum().val().0, 1.0);
    assert_eq!(x.signum().grad().clone(), vec![F(0.0)]);
    let f = x.fract();
    assert!(rel_eq(0.7, f.val().0));
    assert_eq!(f.grad().clone(), vec![F(1.0)]);
}

#[test]
fn abs_follows_the_sign() {
    let x = Dual::new(1, 0, F(-2.5)).abs();
    assert_eq!(x.val().0, 2.5);
    assert_eq!(x.grad().clone(), vec![F(-1.0)]);
}

#[test]
fn comparison_ignores_the_gradient() {
    let x = Dual::new(1, 0, F(3.0));
    let c = Dual::constant(1, F(3.0));
    assert!(x == c);
    assert!(Dual::new(1, 0, F(2.0)) < c);
    assert!(!(Dual::<F>::nan() == Dual::<F>::nan()));
}

#[test]
fn conformance_constants() {
    let z = Dual::<F>::zero();
    assert!(z.is_zero());
    assert_eq!(z.val().0, 0.0);
    let o = Dual::<F>::one();
    assert!(o.is_one());
    assert!(Dual::<F>::nan().is_nan());
    assert!(Dual::<F>::infinity().is_infinite());
    assert!(!Dual::<F>::infinity().is_finite());
    assert!(Dual::<F>::neg_infinity().is_infinite());
    assert_eq!(Dual::<F>::from_i64(-7).val().0, -7.0);
    assert_eq!(Dual::<F>::from_u64(9).val().0, 9.0);
    let p = Dual::<F>::from_str_radix("2.5", 10).unwrap();
    assert_eq!(p.val().0, 2.5);
    assert_eq!(p.grad().len(), 0);
    assert_eq!(Dual::new(2, 0, F(4.0)).to_float().0, 4.0);
}

#[test]
fn set_zero_and_set_one_zero_the_gradient() {
    let mut x = Dual::new(2, 0, F(4.0));
    x.set_one();
    assert_eq!(x.val().0, 1.0);
    assert_eq!(x.grad().clone(), vec![F(0.0), F(0.0)]);
    let mut y = Dual::new(2, 1, F(4.0));
    y.set_zero();
    assert_eq!(y.val().0, 0.0);
    assert_eq!(y.grad().clone(), vec![F(0.0), F(0.0)]);
}

struct VecQuad;

impl dual::opt::self_consistent::SelfConsistentOp for VecQuad {
    type Variable = Vec<F>;

    fn apply(&self, x: &Vec<F>) -> Result<Vec<F>, dual::opt::error::Error> {
        Ok(vec![F(x[0].0 * x[0].0 + x[0].0 - 2.0)])
    }
}

#[test]
fn wegstein_solve_vector() {
    let solver = dual::find_root::Wegstein::new(VecQuad);
    let sol = solver.solve(&[F(2.0)], &[F(0.0)], &[F(1e-15)]).unwrap();
    assert!(rel_eq_tol(f64::sqrt(2.0), sol[0].0, 1e-15));
}

#[test]
fn steffensen_solve_vector() {
    let solver = dual::find_root::Steffensen::new(VecQuad).with_max_iteration(200);
    let sol = solver.solve(&[F(2.0)], &[F(0.0)], &[F(1e-15)]).unwrap();
    assert!(rel_eq_tol(f64::sqrt(2.0), sol[0].0, 1e-15));
}

#[test]
fn solve_rejects_wrong_arity() {
    let solver = dual::find_root::Wegstein::new(VecQuad);
    let r = solver.solve(&[F(2.0), F(1.0)], &[F(0.0), F(0.0)], &[F(1e-15), F(1e-15)]);
    assert!(r.is_err());
}

#[test]
fn static_storage_matches_dynamic() {
    let x = dual::static_size::Dual::<F, 2>::new(0, F(0.5));
    let y = dual::static_size::Dual::<F, 2>::new(1, F(1.5));
    let d = dual::Dual::new(2, 0, F(0.5));
    let e = dual::Dual::new(2, 1, F(1.5));

    let s = x.mul(&y).add(&x.recip());
    let v = d.mul(&e).add(&d.recip());
    assert_eq!(s.val().0, v.val().0);
    for i in 0..2 {
        assert_eq!(s.grad()[i].0, v.grad()[i].0);
    }

    let t = x.sin().powi(2).add(&x.cos().mul(&x.cos()));
    assert!(rel_eq(1.0, t.val().0));
    for g in t.grad().iter() {
        assert!(g.0.abs() < 1e-12);
    }
}

#[test]
fn static_allocator_is_one_hot() {
    let mut vars = dual::static_size::Variables::<F, 3>::new();
    let x = vars.gen(F(0.0)).unwrap();
    let y = vars.gen_all(&[F(1.0), F(10.0)]);
    let loss = x.add(&y[0]).mul(&y[1]);
    assert_eq!(loss.grad(), &[F(10.0), F(10.0), F(1.0)]);
    assert_eq!((0.0 + 1.0) * 10.0, loss.val().0);
    assert!(vars.gen(F(5.0)).is_none());
    let c = vars.constant(F(4.0));
    assert_eq!(c.grad(), &[F(0.0), F(0.0), F(0.0)]);
}

#[test]
fn static_special_values() {
    let n = dual::static_size::Dual::<F, 2>::nan();
    assert!(n.is_nan());
    assert!(n.grad()[0].0.is_nan());
    assert!(dual::static_size::Dual::<F, 2>::infinity().is_infinite());
    assert!(!dual::static_size::Dual::<F, 2>::neg_infinity().is_finite());
    let z = dual::static_size::Dual::<F, 2>::zero();
    assert_eq!(z.grad(), &[F(0.0), F(0.0)]);
    let o = dual::static_size::Dual::<F, 2>::one();
    assert_eq!(o.val().0, 1.0);
    let m = x_max_helper();
    assert_eq!(m.val().0, 3.0);
    assert_eq!(m.grad(), &[F(0.0), F(1.0)]);
}

fn x_max_helper() -> dual::static_size::Dual<F, 2> {
    let x = dual::static_size::Dual::<F, 2>::new(0, F(1.0));
    let y = dual::static_size::Dual::<F, 2>::new(1, F(3.0));
    x.max(&y)
}

#[test]
fn static_discrete_and_minmax() {
    let x = dual::static_size::Dual::<F, 1>::new(0, F(2.7));
    assert_eq!(x.floor().val().0, 2.0);
    assert_eq!(x.floor().grad(), &[F(0.0)]);
    assert_eq!(x.trunc().grad(), &[F(0.0)]);
    let y = dual::static_size::Dual::<F, 1>::new(0, F(0.5));
    let mm = y.mul_add(&y, &y);
    let direct = y.mul(&y).add(&y);
    assert_eq!(mm.val().0, direct.val().0);
    assert_eq!(mm.grad()[0].0, direct.grad()[0].0);
}

#[test]
fn exp_m1_and_ln_1p_derivatives() {
    let x = Dual::new(1, 0, F(0.5)).exp_m1();
    assert!(rel_eq(0.5_f64.exp_m1(), x.val().0));
    assert!(rel_eq(0.5_f64.exp(), x.grad()[0].0));
    let y = Dual::new(1, 0, F(0.5)).ln_1p();
    assert!(rel_eq(0.5_f64.ln_1p(), y.val().0));
    assert!(rel_eq(1.0 / 1.5, y.grad()[0].0));
}

#[test]
fn inverse_hyperbolic_derivatives() {
    let x = Dual::new(1, 0, F(0.5)).asinh();
    assert!(rel_eq(0.5_f64.asinh(), x.val().0));
    assert!(rel_eq(1.0 / 0.5_f64.asinh().cosh(), x.grad()[0].0));
    let y = Dual::new(1, 0, F(1.5)).acosh();
    assert!(rel_eq(1.5_f64.acosh(), y.val().0));
    assert!(rel_eq(1.0 / 1.5_f64.acosh().sinh(), y.grad()[0].0));
    let z = Dual::new(1, 0, F(0.5)).atanh();
    assert!(rel_eq(0.5_f64.atanh(), z.val().0));
    assert!(rel_eq(1.0 / (1.0 - 0.25), z.grad()[0].0));
}

#[test]
fn tangent_derivative_value() {
    let x = Dual::new(1, 0, F(0.5)).tan();
    assert!(rel_eq(0.5_f64.tan(), x.val().0));
    assert!(rel_eq(1.0 + 0.5_f64.tan() * 0.5_f64.tan(), x.grad()[0].0));
}

#[test]
fn static_atan2_and_comparison() {
    let y = dual::static_size::Dual::<F, 1>::new(0, F(0.0));
    let x = dual::static_size::Dual::<F, 1>::constant(F(0.0));
    let r = y.atan2(&x);
    assert!(r.val().0.is_nan());
    assert!(r.grad()[0].0.is_nan());
    let a = dual::static_size::Dual::<F, 2>::new(0, F(1.0));
    let b = dual::static_size::Dual::<F, 2>::new(1, F(1.0));
    assert!(rel_eq(std::f64::consts::FRAC_PI_4, a.atan2(&b).val().0));
    let c = dual::static_size::Dual::<F, 2>::constant(F(1.0));
    assert!(a == c);
    assert!(!(a < c));
}

#[test]
fn degrees_and_radians_scale_both_channels() {
    let x = Dual::new(1, 0, F(std::f64::consts::PI));
    let d = x.to_degrees();
    assert!(rel_eq(180.0, d.val().0));
    assert!(rel_eq(180.0 / std::f64::consts::PI, d.grad()[0].0));
    let back = d.to_radians();
    assert!(rel_eq(std::f64::consts::PI, back.val().0));
    assert!(rel_eq(1.0, back.grad()[0].0));
    let s = dual::static_size::Dual::<F, 1>::new(0, F(std::f64::consts::PI)).to_degrees();
    assert!(rel_eq(180.0, s.val().0));
}
impl dual::traits::BinaryOperand for F {
    fn add(&self, rhs: &F) -> F {
        F(self.0 + rhs.0)
    }
    fn sub(&self, rhs: &F) -> F {
        F(self.0 - rhs.0)
    }
    fn mul(&self, rhs: &F) -> F {
        F(self.0 * rhs.0)
    }
    fn div(&self, rhs: &F) -> F {
        F(self.0 / rhs.0)
    }
}

impl dual::traits::NumOps for F {
    fn neg(&self) -> F {
        F(-self.0)
    }
}

impl dual::traits::Extension for F {
    fn zero() -> F {
        F(0.0)
    }
    fn one() -> F {
        F(1.0)
    }
    fn nan() -> F {
        F(f64::NAN)
    }
    fn abs(&self) -> F {
        F(self.0.abs())
    }
    fn is_nan(&self) -> bool {
        self.0.is_nan()
    }
    fn from_i32(n: i32) -> F {
        F(n as f64)
    }
}

impl dual::traits::DifferentiableScalar for F {
    fn recip(&self) -> F {
        F(1.0 / self.0)
    }
    fn negate(&self) -> F {
        F(-self.0)
    }
    fn sqrt(&self) -> F {
        F(self.0.sqrt())
    }
    fn cbrt(&self) -> F {
        F(self.0.cbrt())
    }
    fn exp(&self) -> F {
        F(self.0.exp())
    }
    fn exp2(&self) -> F {
        F(self.0.exp2())
    }
    fn exp_m1(&self) -> F {
        F(self.0.exp_m1())
    }
    fn ln(&self) -> F {
        F(self.0.ln())
    }
    fn log10(&self) -> F {
        F(self.0.log10())
    }
    fn log2(&self) -> F {
        F(self.0.log2())
    }
    fn ln_1p(&self) -> F {
        F(self.0.ln_1p())
    }
    fn sin(&self) -> F {
        F(self.0.sin())
    }
    fn cos(&self) -> F {
        F(self.0.cos())
    }
    fn tan(&self) -> F {
        F(self.0.tan())
    }
    fn asin(&self) -> F {
        F(self.0.asin())
    }
    fn acos(&self) -> F {
        F(self.0.acos())
    }
    fn atan(&self) -> F {
        F(self.0.atan())
    }
    fn sinh(&self) -> F {
        F(self.0.sinh())
    }
    fn cosh(&self) -> F {
        F(self.0.cosh())
    }
    fn tanh(&self) -> F {
        F(self.0.tanh())
    }
    fn asinh(&self) -> F {
        F(self.0.asinh())
    }
    fn acosh(&self) -> F {
        F(self.0.acosh())
    }
    fn atanh(&self) -> F {
        F(self.0.atanh())
    }
    fn abs(&self) -> F {
        F(self.0.abs())
    }
    fn signum(&self) -> F {
        F(self.0.signum())
    }
    fn floor(&self) -> F {
        F(self.0.floor())
    }
    fn ceil(&self) -> F {
        F(self.0.ceil())
    }
    fn round(&self) -> F {
        F(self.0.round())
    }
    fn trunc(&self) -> F {
        F(self.0.trunc())
    }
    fn fract(&self) -> F {
        F(self.0.fract())
    }
    fn to_degrees(&self) -> F {
        F(self.0.to_degrees())
    }
    fn to_radians(&self) -> F {
        F(self.0.to_radians())
    }
    fn powf(&self, other: &F) -> F {
        F(self.0.powf(other.0))
    }
    fn hypot(&self, other: &F) -> F {
        F(self.0.hypot(other.0))
    }
    fn log(&self, other: &F) -> F {
        F(self.0.log(other.0))
    }
    fn atan2(&self, other: &F) -> F {
        F(self.0.atan2(other.0))
    }
    fn min(&self, other: &F) -> F {
        F(self.0.min(other.0))
    }
    fn max(&self, other: &F) -> F {
        F(self.0.max(other.0))
    }
    fn abs_sub(&self, other: &F) -> F {
        F(self.0.abs_sub(other.0))
    }
    fn powi(&self, n: i32) -> F {
        F(self.0.powi(n))
    }
    fn mul_add(&self, a: &F, b: &F) -> F {
        F(self.0 * a.0 + b.0)
    }
    fn sin_cos(&self) -> (F, F) {
        (F(self.0.sin()), F(self.0.cos()))
    }
}

/// An operation written once over any differentiable scalar.
fn bumpy<D: dual::traits::DifferentiableScalar>(x: &D, y: &D) -> D {
    x.sin().mul(&y.exp()).add(&x.hypot(y)).sub(&y.recip())
}

#[test]
fn generic_op_runs_with_and_without_tracking() {
    let plain = bumpy(&F(0.7), &F(1.3));

    let mut vars = Variables::<F>::new(2);
    let x = vars.gen(F(0.7)).unwrap();
    let y = vars.gen(F(1.3)).unwrap();
    let carried = bumpy(&x, &y);
    assert!(rel_eq(plain.0, carried.val().0));

    // The carried gradient agrees with a central finite difference.
    let h = 1e-6;
    let dx = (bumpy(&F(0.7 + h), &F(1.3)).0 - bumpy(&F(0.7 - h), &F(1.3)).0) / (2.0 * h);
    let dy = (bumpy(&F(0.7), &F(1.3 + h)).0 - bumpy(&F(0.7), &F(1.3 - h)).0) / (2.0 * h);
    assert!((carried.grad()[0].0 - dx).abs() < 1e-6);
    assert!((carried.grad()[1].0 - dy).abs() < 1e-6);

    // The fixed-size storage computes the same thing.
    let sx = dual::static_size::Dual::<F, 2>::new(0, F(0.7));
    let sy = dual::static_size::Dual::<F, 2>::new(1, F(1.3));
    let st = bumpy(&sx, &sy);
    assert!(rel_eq(carried.val().0, st.val().0));
    assert!(rel_eq(carried.grad()[0].0, st.grad()[0].0));
    assert!(rel_eq(carried.grad()[1].0, st.grad()[1].0));
}
