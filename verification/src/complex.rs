use vstd::prelude::*;
use num::complex::Complex64;

verus! {

/// `num`'s complex number type, declared so that values of it can flow
/// through the verified transforms. A value of it is opaque here: every
/// operation on one goes through the trusted wrappers below, and the
/// contracts speak of those operations only through the named results
/// `cx_sum`, `cx_prod`, and so on.
#[verifier::external_type_specification]
#[verifier::external_body]
#[verifier::reject_recursive_types(T)]
pub struct ExComplex<T>(num::complex::Complex<T>);

/// The sum that `num`'s `Add for Complex<f64>` returns on these operands.
pub uninterp spec fn cx_sum(a: Complex64, b: Complex64) -> Complex64;

/// The product that `num`'s `Mul for Complex<f64>` returns on these operands.
pub uninterp spec fn cx_prod(a: Complex64, b: Complex64) -> Complex64;

/// The quotient that `num`'s `Div for Complex<f64>` returns on these operands.
pub uninterp spec fn cx_quot(a: Complex64, b: Complex64) -> Complex64;

/// The complex conjugate that `num`'s `Complex::conj` returns on this operand.
pub uninterp spec fn cx_conjugate(a: Complex64) -> Complex64;

/// The complex exponential that `num`'s `Complex::exp` returns on this operand.
pub uninterp spec fn cx_exp_of(a: Complex64) -> Complex64;

/// The complex number that `num` builds from the integer `k`: `k` converted
/// to a double as its real component, zero as its imaginary component.
pub uninterp spec fn cx_from_int(k: int) -> Complex64;

/// The purely imaginary complex number whose imaginary component is the
/// integer `k` converted to a double.
pub uninterp spec fn cx_imag_int(k: int) -> Complex64;

/// The complex number keeping only the real component of `a`: its imaginary
/// component replaced by zero.
pub uninterp spec fn cx_real_part(a: Complex64) -> Complex64;

/// The purely imaginary angular step used by the transform kernels: zero as
/// its real component and, as its imaginary component, two pi divided by `n`,
/// negated when `negated` is set.
pub uninterp spec fn cx_omega_of(n: int, negated: bool) -> Complex64;

/// Relies on `num`'s `Add for Complex<f64>`: componentwise IEEE addition,
/// a function of its two operands alone.
#[verifier::external_body]
pub(crate) fn cx_add(a: Complex64, b: Complex64) -> (r: Complex64)
    ensures
        r == cx_sum(a, b),
{
    a + b
}

/// Relies on `num`'s `Mul for Complex<f64>`: the usual four-product complex
/// multiplication in IEEE arithmetic, a function of its two operands alone.
#[verifier::external_body]
pub(crate) fn cx_mul(a: Complex64, b: Complex64) -> (r: Complex64)
    ensures
        r == cx_prod(a, b),
{
    a * b
}

/// Relies on `num`'s `Div for Complex<f64>`: complex division through the
/// squared norm of the divisor, a function of its two operands alone.
#[verifier::external_body]
pub(crate) fn cx_div(a: Complex64, b: Complex64) -> (r: Complex64)
    ensures
        r == cx_quot(a, b),
{
    a / b
}

/// Relies on `num`'s `Complex::conj`: the real component kept, the imaginary
/// component negated, a function of its operand alone.
#[verifier::external_body]
pub(crate) fn cx_conj(a: Complex64) -> (r: Complex64)
    ensures
        r == cx_conjugate(a),
{
    a.conj()
}

/// Relies on `num`'s `Complex::exp`: the complex exponential computed from
/// the standard library's exponential, sine and cosine, a function of its
/// operand alone.
#[verifier::external_body]
pub(crate) fn cx_exp(a: Complex64) -> (r: Complex64)
    ensures
        r == cx_exp_of(a),
{
    a.exp()
}

/// Relies on `num`'s `FromPrimitive for Complex<f64>`: `from_usize` converts
/// `k` to a double and pairs it with a zero imaginary component; on doubles
/// the conversion never fails.
#[verifier::external_body]
pub(crate) fn cx_usize(k: usize) -> (r: Complex64)
    ensures
        r == cx_from_int(k as int),
{
    num::traits::FromPrimitive::from_usize(k).unwrap()
}

/// Relies on `num`'s `Complex::new`, `Zero for f64` and `FromPrimitive for
/// f64`: builds the purely imaginary complex number whose imaginary
/// component is `k` converted to a double; the conversion never fails.
#[verifier::external_body]
pub(crate) fn cx_imag_usize(k: usize) -> (r: Complex64)
    ensures
        r == cx_imag_int(k as int),
{
    let im = num::traits::FromPrimitive::from_usize(k).unwrap();
    Complex64::new(num::traits::Zero::zero(), im)
}

/// Relies on `num`'s `Complex::new` and `Zero for f64`: keeps the real
/// component of `a` and replaces its imaginary component by zero.
#[verifier::external_body]
pub(crate) fn cx_real(a: Complex64) -> (r: Complex64)
    ensures
        r == cx_real_part(a),
{
    Complex64::new(a.re, num::traits::Zero::zero())
}

/// Relies on `num`'s `FloatConst::TAU` (the double constant two pi, the
/// exact double of the PI constant), `FromPrimitive for Complex<f64>`, IEEE
/// division, and `Complex::conj`: builds the angular step
/// `cx_omega_of(n, negated)`. The conversion of `n` never fails.
#[verifier::external_body]
pub(crate) fn cx_omega(n: usize, negated: bool) -> (r: Complex64)
    ensures
        r == cx_omega_of(n as int, negated),
{
    let nc: Complex64 = num::traits::FromPrimitive::from_usize(n).unwrap();
    let tau_c = Complex64::new(num::traits::FloatConst::TAU(), num::traits::Zero::zero());
    let w = Complex64::new(num::traits::Zero::zero(), tau_c.re / nc.re);
    if negated {
        w.conj()
    } else {
        w
    }
}

} // verus!
