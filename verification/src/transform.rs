use vstd::prelude::*;
use vstd::pervasive::unreached;
use num::complex::Complex64;
use crate::algebra::{
    add_vv, mat_rows, mat_vec_prod, mul_mv, mul_vv_el, mv_dims_ok, TransformError,
};
use crate::complex::{
    cx_conj, cx_conjugate, cx_div, cx_exp, cx_exp_of, cx_from_int, cx_imag_int, cx_imag_usize,
    cx_mul, cx_omega, cx_omega_of, cx_prod, cx_quot, cx_real, cx_real_part, cx_sum, cx_usize,
};

verus! {

/// Whether `n` is a power of two; one counts as the zeroth power.
pub open spec fn is_pow_of_two(n: int) -> bool
    decreases n,
{
    if n <= 0 {
        false
    } else if n == 1 {
        true
    } else {
        n % 2 == 0 && is_pow_of_two(n / 2)
    }
}

/// The even-indexed elements of a sequence.
pub open spec fn evens(x: Seq<Complex64>) -> Seq<Complex64> {
    Seq::new((x.len() + 1) / 2, |i: int| x[2 * i])
}

/// The odd-indexed elements of a sequence.
pub open spec fn odds(x: Seq<Complex64>) -> Seq<Complex64> {
    Seq::new(x.len() / 2, |i: int| x[2 * i + 1])
}

/// The sequence with every element reduced to what the transforms read of
/// it: its real component, the imaginary component replaced by zero.
pub open spec fn lift_real(x: Seq<Complex64>) -> Seq<Complex64> {
    Seq::new(x.len(), |i: int| cx_real_part(x[i]))
}

/// The sequence of elementwise complex conjugates.
pub open spec fn conj_seq(x: Seq<Complex64>) -> Seq<Complex64> {
    Seq::new(x.len(), |i: int| cx_conjugate(x[i]))
}

/// Entry `(i, j)` of the n-by-n transform matrix: the complex exponential
/// of the angular step multiplied by `i` and by `j`, both lifted to purely
/// imaginary factors, in exactly that association order.
pub open spec fn kernel_entry(n: int, negated: bool, i: int, j: int) -> Complex64 {
    cx_exp_of(cx_prod(cx_prod(cx_omega_of(n, negated), cx_imag_int(i)), cx_imag_int(j)))
}

/// The n-by-n transform matrix of the naive engine.
pub open spec fn transform_matrix(n: int, negated: bool) -> Seq<Seq<Complex64>> {
    Seq::new(n as nat, |i: int| Seq::new(n as nat, |j: int| kernel_entry(n, negated, i, j)))
}

/// What the naive engine returns on a complex sequence: the forward
/// transform matrix applied to it by matrix-vector multiplication.
pub open spec fn dft_compl_spec(x: Seq<Complex64>) -> Seq<Complex64> {
    mat_vec_prod(transform_matrix(x.len() as int, true), x)
}

/// Twiddle factor `k` of a combine step over length `n`: the complex
/// exponential of the (non-negated) angular step times `k`.
pub open spec fn twiddle(n: int, k: int) -> Complex64 {
    cx_exp_of(cx_prod(cx_omega_of(n, false), cx_from_int(k)))
}

/// What the fast engine returns on a complex sequence: on lengths up to
/// two, the naive engine's result; above, the even- and odd-indexed halves
/// transformed recursively and recombined, both result halves adding the
/// even half's transform to the odd half's twiddled transform — the first
/// half with twiddle factors `0 .. n/2`, the second with `n/2 .. n`.
pub open spec fn fft_compl_spec(x: Seq<Complex64>) -> Seq<Complex64>
    decreases x.len(),
{
    if x.len() <= 2 {
        dft_compl_spec(x)
    } else {
        let n = x.len() as int;
        let e = fft_compl_spec(evens(x));
        let o = fft_compl_spec(odds(x));
        Seq::new(
            x.len(),
            |k: int|
                if k < n / 2 {
                    cx_sum(e[k], cx_prod(o[k], twiddle(n, k)))
                } else {
                    cx_sum(e[k - n / 2], cx_prod(o[k - n / 2], twiddle(n, k)))
                },
        )
    }
}

/// What `dft` returns: the naive engine applied to the lifted input.
pub open spec fn dft_spec(x: Seq<Complex64>) -> Seq<Complex64> {
    dft_compl_spec(lift_real(x))
}

/// What `fft` returns on a power-of-two length: the fast engine applied to
/// the lifted input.
pub open spec fn fft_spec(x: Seq<Complex64>) -> Seq<Complex64> {
    fft_compl_spec(lift_real(x))
}

/// Every element of `y` divided by the complex number `n`, keeping only the
/// real component of each quotient.
pub open spec fn scale_real(y: Seq<Complex64>, n: int) -> Seq<Complex64> {
    Seq::new(y.len(), |i: int| cx_real_part(cx_quot(y[i], cx_from_int(n))))
}

/// What `idft` returns: the inverse transform matrix applied to the input,
/// every entry divided by the length, imaginary components dropped.
pub open spec fn idft_spec(x: Seq<Complex64>) -> Seq<Complex64> {
    scale_real(mat_vec_prod(transform_matrix(x.len() as int, false), x), x.len() as int)
}

/// What `ifft` returns on a power-of-two length: conjugate the input, run
/// the fast engine, conjugate its output, divide by the length and keep the
/// real components.
pub open spec fn ifft_spec(x: Seq<Complex64>) -> Seq<Complex64> {
    scale_real(conj_seq(fft_compl_spec(conj_seq(x))), x.len() as int)
}

/// Builds the n-by-n transform matrix of the naive engine, row by row.
fn build_transform_matrix(n: usize, negated: bool) -> (m: Vec<Vec<Complex64>>)
    ensures
        m@.len() == n,
        mat_rows(m@) == transform_matrix(n as int, negated),
{
    let w = cx_omega(n, negated);
    let mut m: Vec<Vec<Complex64>> = Vec::new();
    for i in 0..n
        invariant
            w == cx_omega_of(n as int, negated),
            m@.len() == i,
            forall|k: int| 0 <= k < i ==> m@[k]@ == transform_matrix(n as int, negated)[k],
    {
        let ic = cx_imag_usize(i);
        let mut row: Vec<Complex64> = Vec::new();
        for j in 0..n
            invariant
                w == cx_omega_of(n as int, negated),
                ic == cx_imag_int(i as int),
                row@.len() == j,
                forall|l: int|
                    0 <= l < j ==> row@[l] == kernel_entry(n as int, negated, i as int, l),
        {
            let jc = cx_imag_usize(j);
            row.push(cx_exp(cx_mul(cx_mul(w, ic), jc)));
        }
        proof {
            assert(row@ =~= transform_matrix(n as int, negated)[i as int]);
        }
        m.push(row);
    }
    proof {
        assert(mat_rows(m@) =~= transform_matrix(n as int, negated));
    }
    m
}

/// The naive engine: builds the forward transform matrix and applies it to
/// `x` by matrix-vector multiplication.
pub fn dft_compl(x: Vec<Complex64>) -> (r: Vec<Complex64>)
    requires
        x@.len() >= 1,
    ensures
        r@.len() == x@.len(),
        r@ == dft_compl_spec(x@),
{
    let n = x.len();
    let m = build_transform_matrix(n, true);
    proof {
        assert(mv_dims_ok(mat_rows(m@), x@));
    }
    match mul_mv(&m, &x) {
        Ok(v) => v,
        Err(_) => unreached(),
    }
}

/// The fast engine: on a length of at most two, delegates to the naive
/// engine; on an even length, transforms the even- and odd-indexed halves
/// recursively and recombines them with the twiddle factors; any other
/// length is not a power of two and is reported as an invalid size. The
/// result is exactly `fft_compl_spec(x@)`, and the call succeeds if and
/// only if the length is a power of two.
pub fn fft_compl(x: Vec<Complex64>) -> (r: Result<Vec<Complex64>, TransformError>)
    requires
        x@.len() >= 1,
    ensures
        match r {
            Ok(v) => is_pow_of_two(x@.len() as int) && v@.len() == x@.len() && v@
                == fft_compl_spec(x@),
            Err(e) => !is_pow_of_two(x@.len() as int) && e == TransformError::InvalidTransformSize,
        },
    decreases x@.len(),
{
    let n = x.len();
    if n <= 2 {
        proof {
            assert(is_pow_of_two(1));
            assert(is_pow_of_two(2));
        }
        return Ok(dft_compl(x));
    }
    if n % 2 == 1 {
        return Err(TransformError::InvalidTransformSize);
    }
    let half = n / 2;
    let mut x_even: Vec<Complex64> = Vec::new();
    let mut x_odd: Vec<Complex64> = Vec::new();
    for i in 0..half
        invariant
            x@.len() == n,
            n % 2 == 0,
            n >= 4,
            half == n / 2,
            x_even@.len() == i,
            x_odd@.len() == i,
            forall|k: int| 0 <= k < i ==> x_even@[k] == x@[2 * k],
            forall|k: int| 0 <= k < i ==> x_odd@[k] == x@[2 * k + 1],
    {
        x_even.push(x[2 * i]);
        x_odd.push(x[2 * i + 1]);
    }
    proof {
        assert(x_even@ =~= evens(x@));
        assert(x_odd@ =~= odds(x@));
        assert(is_pow_of_two(n as int) == is_pow_of_two(half as int));
    }
    let e_res = match fft_compl(x_even) {
        Ok(v) => v,
        Err(e) => {
            return Err(e);
        },
    };
    let o_res = match fft_compl(x_odd) {
        Ok(v) => v,
        Err(e) => {
            return Err(e);
        },
    };
    let w = cx_omega(n, false);
    let mut f_k: Vec<Complex64> = Vec::new();
    for k in 0..n
        invariant
            w == cx_omega_of(n as int, false),
            f_k@.len() == k,
            forall|l: int| 0 <= l < k ==> f_k@[l] == twiddle(n as int, l),
    {
        f_k.push(cx_exp(cx_mul(w, cx_usize(k))));
    }
    let mut t_lo: Vec<Complex64> = Vec::new();
    let mut t_hi: Vec<Complex64> = Vec::new();
    for k in 0..half
        invariant
            half == n / 2,
            n % 2 == 0,
            f_k@.len() == n,
            forall|l: int| 0 <= l < n ==> f_k@[l] == twiddle(n as int, l),
            t_lo@.len() == k,
            t_hi@.len() == k,
            forall|l: int| 0 <= l < k ==> t_lo@[l] == f_k@[l],
            forall|l: int| 0 <= l < k ==> t_hi@[l] == f_k@[half + l],
    {
        t_lo.push(f_k[k]);
        t_hi.push(f_k[half + k]);
    }
    let prod_lo = match mul_vv_el(&o_res, &t_lo) {
        Ok(v) => v,
        Err(_) => unreached(),
    };
    let prod_hi = match mul_vv_el(&o_res, &t_hi) {
        Ok(v) => v,
        Err(_) => unreached(),
    };
    let mut combined = match add_vv(&e_res, &prod_lo) {
        Ok(v) => v,
        Err(_) => unreached(),
    };
    let mut second = match add_vv(&e_res, &prod_hi) {
        Ok(v) => v,
        Err(_) => unreached(),
    };
    combined.append(&mut second);
    proof {
        assert(combined@ =~= fft_compl_spec(x@));
    }
    Ok(combined)
}

/// Computes the discrete Fourier transform of a real sequence carried as
/// complex values: the imaginary component of every element is dropped and
/// the naive engine is applied. The result has the input's length.
pub fn dft(x: &Vec<Complex64>) -> (r: Vec<Complex64>)
    requires
        x@.len() >= 1,
    ensures
        r@.len() == x@.len(),
        r@ == dft_spec(x@),
{
    let n = x.len();
    let mut xc: Vec<Complex64> = Vec::new();
    for i in 0..n
        invariant
            x@.len() == n,
            xc@.len() == i,
            forall|k: int| 0 <= k < i ==> xc@[k] == cx_real_part(x@[k]),
    {
        xc.push(cx_real(x[i]));
    }
    proof {
        assert(xc@ =~= lift_real(x@));
    }
    dft_compl(xc)
}

/// Computes the inverse discrete Fourier transform: applies the inverse
/// transform matrix, divides every entry by the length and keeps only the
/// real components. The result has the input's length.
pub fn idft(x: &Vec<Complex64>) -> (r: Vec<Complex64>)
    requires
        x@.len() >= 1,
    ensures
        r@.len() == x@.len(),
        r@ == idft_spec(x@),
{
    let n = x.len();
    let m = build_transform_matrix(n, false);
    proof {
        assert(mv_dims_ok(mat_rows(m@), x@));
    }
    let y = match mul_mv(&m, x) {
        Ok(v) => v,
        Err(_) => unreached(),
    };
    let nc = cx_usize(n);
    let mut rr: Vec<Complex64> = Vec::new();
    for i in 0..n
        invariant
            y@.len() == n,
            nc == cx_from_int(n as int),
            rr@.len() == i,
            forall|k: int|
                0 <= k < i ==> rr@[k] == cx_real_part(cx_quot(y@[k], cx_from_int(n as int))),
    {
        rr.push(cx_real(cx_div(y[i], nc)));
    }
    proof {
        assert(rr@ =~= idft_spec(x@));
    }
    rr
}

/// Computes the fast Fourier transform of a real sequence carried as
/// complex values: the imaginary component of every element is dropped and
/// the fast engine is applied. Succeeds, with a result of the input's
/// length, if and only if that length is a power of two; any other length
/// is reported as an invalid transform size.
pub fn fft(x: &Vec<Complex64>) -> (r: Result<Vec<Complex64>, TransformError>)
    requires
        x@.len() >= 1,
    ensures
        match r {
            Ok(v) => is_pow_of_two(x@.len() as int) && v@.len() == x@.len() && v@ == fft_spec(x@),
            Err(e) => !is_pow_of_two(x@.len() as int) && e == TransformError::InvalidTransformSize,
        },
{
    let n = x.len();
    let mut xc: Vec<Complex64> = Vec::new();
    for i in 0..n
        invariant
            x@.len() == n,
            xc@.len() == i,
            forall|k: int| 0 <= k < i ==> xc@[k] == cx_real_part(x@[k]),
    {
        xc.push(cx_real(x[i]));
    }
    proof {
        assert(xc@ =~= lift_real(x@));
    }
    fft_compl(xc)
}

/// Computes the inverse fast Fourier transform through the identity
/// `ifft(x) = conj(fft(conj(x))) / n`: conjugates the input, runs the fast
/// engine, conjugates its output, divides by the length and keeps only the
/// real components. Succeeds, with a result of the input's length, if and
/// only if that length is a power of two; any other length is reported as
/// an invalid transform size.
pub fn ifft(x: &Vec<Complex64>) -> (r: Result<Vec<Complex64>, TransformError>)
    requires
        x@.len() >= 1,
    ensures
        match r {
            Ok(v) => is_pow_of_two(x@.len() as int) && v@.len() == x@.len() && v@ == ifft_spec(x@),
            Err(e) => !is_pow_of_two(x@.len() as int) && e == TransformError::InvalidTransformSize,
        },
{
    let n = x.len();
    let mut x_conj: Vec<Complex64> = Vec::new();
    for i in 0..n
        invariant
            x@.len() == n,
            x_conj@.len() == i,
            forall|k: int| 0 <= k < i ==> x_conj@[k] == cx_conjugate(x@[k]),
    {
        x_conj.push(cx_conj(x[i]));
    }
    proof {
        assert(x_conj@ =~= conj_seq(x@));
    }
    let y = match fft_compl(x_conj) {
        Ok(v) => v,
        Err(e) => {
            return Err(e);
        },
    };
    let nc = cx_usize(n);
    let mut rr: Vec<Complex64> = Vec::new();
    for i in 0..n
        invariant
            y@.len() == n,
            y@ == fft_compl_spec(conj_seq(x@)),
            nc == cx_from_int(n as int),
            rr@.len() == i,
            forall|k: int|
                0 <= k < i ==> rr@[k] == cx_real_part(
                    cx_quot(cx_conjugate(y@[k]), cx_from_int(n as int)),
                ),
    {
        rr.push(cx_real(cx_div(cx_conj(y[i]), nc)));
    }
    proof {
        assert(rr@ =~= ifft_spec(x@));
    }
    Ok(rr)
}

/// Law: on lengths one and two the fast transform agrees exactly with the
/// naive transform — the fast engine's base case delegates to the naive
/// engine, both on real sequences and on complex ones.
pub proof fn lemma_fft_base_case_matches_dft(x: Seq<Complex64>)
    requires
        1 <= x.len() <= 2,
    ensures
        fft_spec(x) == dft_spec(x),
        fft_compl_spec(x) == dft_compl_spec(x),
{
}

} // verus!

