use vstd::prelude::*;
use num::complex::Complex64;
use crate::complex::{cx_sum, cx_prod, cx_from_int, cx_add, cx_mul, cx_usize};

verus! {

/// How an operation of this library fails. Either failure marks inputs the
/// transforms are not defined on; no partial result is ever returned.
#[derive(Clone, Copy, Debug, PartialEq, Eq, Structural)]
pub enum TransformError {
    /// Two sequences, or a matrix and a sequence, disagree in dimension.
    DimensionMismatch,
    /// A fast transform was asked for on a length that is not a power of two.
    InvalidTransformSize,
}

/// Elementwise sum of two complex sequences of equal length.
pub open spec fn elem_sum(a: Seq<Complex64>, b: Seq<Complex64>) -> Seq<Complex64> {
    Seq::new(a.len(), |i: int| cx_sum(a[i], b[i]))
}

/// Elementwise product of two complex sequences of equal length.
pub open spec fn elem_prod(a: Seq<Complex64>, b: Seq<Complex64>) -> Seq<Complex64> {
    Seq::new(a.len(), |i: int| cx_prod(a[i], b[i]))
}

/// The left-to-right accumulation of the first `k` products `row[j] * v[j]`,
/// seeded with the complex zero, exactly as the executable inner product
/// accumulates them.
pub open spec fn sum_prefix(row: Seq<Complex64>, v: Seq<Complex64>, k: int) -> Complex64
    decreases k,
{
    if k <= 0 {
        cx_from_int(0)
    } else {
        cx_sum(sum_prefix(row, v, k - 1), cx_prod(row[k - 1], v[k - 1]))
    }
}

/// The inner product of a matrix row with a vector.
pub open spec fn row_dot(row: Seq<Complex64>, v: Seq<Complex64>) -> Complex64 {
    sum_prefix(row, v, row.len() as int)
}

/// The rows of an executable matrix, as a sequence of sequences.
pub open spec fn mat_rows(a: Seq<Vec<Complex64>>) -> Seq<Seq<Complex64>> {
    Seq::new(a.len(), |i: int| a[i]@)
}

/// Matrix-vector product: entry `i` of the result is the inner product of
/// row `i` with the vector.
pub open spec fn mat_vec_prod(m: Seq<Seq<Complex64>>, v: Seq<Complex64>) -> Seq<Complex64> {
    Seq::new(m.len(), |i: int| row_dot(m[i], v))
}

/// The dimensions a matrix-vector product is defined on: a nonempty square
/// matrix and a vector of the matching length.
pub open spec fn mv_dims_ok(m: Seq<Seq<Complex64>>, v: Seq<Complex64>) -> bool {
    &&& m.len() >= 1
    &&& v.len() == m.len()
    &&& forall|i: int| 0 <= i < m.len() ==> (#[trigger] m[i].len()) == m.len()
}

/// Elementwise addition of two complex vectors. Returns the sums exactly
/// when the lengths agree, and reports the mismatch otherwise.
pub fn add_vv(a: &Vec<Complex64>, b: &Vec<Complex64>) -> (r: Result<
    Vec<Complex64>,
    TransformError,
>)
    ensures
        match r {
            Ok(c) => a@.len() == b@.len() && c@ == elem_sum(a@, b@),
            Err(e) => a@.len() != b@.len() && e == TransformError::DimensionMismatch,
        },
{
    if a.len() != b.len() {
        return Err(TransformError::DimensionMismatch);
    }
    let n = a.len();
    let mut c: Vec<Complex64> = Vec::new();
    for i in 0..n
        invariant
            a@.len() == n,
            b@.len() == n,
            c@.len() == i,
            forall|k: int| 0 <= k < i ==> c@[k] == cx_sum(a@[k], b@[k]),
    {
        c.push(cx_add(a[i], b[i]));
    }
    proof {
        assert(c@ =~= elem_sum(a@, b@));
    }
    Ok(c)
}

/// Elementwise multiplication of two complex vectors. Returns the products
/// exactly when the lengths agree, and reports the mismatch otherwise.
pub fn mul_vv_el(a: &Vec<Complex64>, b: &Vec<Complex64>) -> (r: Result<
    Vec<Complex64>,
    TransformError,
>)
    ensures
        match r {
            Ok(c) => a@.len() == b@.len() && c@ == elem_prod(a@, b@),
            Err(e) => a@.len() != b@.len() && e == TransformError::DimensionMismatch,
        },
{
    if a.len() != b.len() {
        return Err(TransformError::DimensionMismatch);
    }
    let n = a.len();
    let mut c: Vec<Complex64> = Vec::new();
    for i in 0..n
        invariant
            a@.len() == n,
            b@.len() == n,
            c@.len() == i,
            forall|k: int| 0 <= k < i ==> c@[k] == cx_prod(a@[k], b@[k]),
    {
        c.push(cx_mul(a[i], b[i]));
    }
    proof {
        assert(c@ =~= elem_prod(a@, b@));
    }
    Ok(c)
}

/// Multiplies a square complex matrix by a complex vector. Returns the
/// product exactly when the matrix is nonempty and square and the vector
/// length matches, and reports the mismatch otherwise.
pub fn mul_mv(a: &Vec<Vec<Complex64>>, b: &Vec<Complex64>) -> (r: Result<
    Vec<Complex64>,
    TransformError,
>)
    ensures
        match r {
            Ok(c) => mv_dims_ok(mat_rows(a@), b@) && c@ == mat_vec_prod(mat_rows(a@), b@),
            Err(e) => !mv_dims_ok(mat_rows(a@), b@) && e == TransformError::DimensionMismatch,
        },
{
    let rows = a.len();
    if rows == 0 {
        return Err(TransformError::DimensionMismatch);
    }
    for i in 0..rows
        invariant
            a@.len() == rows,
            forall|k: int| 0 <= k < i ==> a@[k]@.len() == rows,
    {
        if a[i].len() != rows {
            proof {
                assert(mat_rows(a@)[i as int].len() != mat_rows(a@).len());
            }
            return Err(TransformError::DimensionMismatch);
        }
    }
    if b.len() != rows {
        return Err(TransformError::DimensionMismatch);
    }
    let mut c: Vec<Complex64> = Vec::new();
    for i in 0..rows
        invariant
            a@.len() == rows,
            b@.len() == rows,
            forall|k: int| 0 <= k < rows ==> a@[k]@.len() == rows,
            c@.len() == i,
            forall|k: int| 0 <= k < i ==> c@[k] == row_dot(a@[k]@, b@),
    {
        let row = &a[i];
        let mut acc = cx_usize(0);
        for j in 0..rows
            invariant
                a@.len() == rows,
                b@.len() == rows,
                row@ == a@[i as int]@,
                row@.len() == rows,
                i < rows,
                acc == sum_prefix(row@, b@, j as int),
        {
            acc = cx_add(acc, cx_mul(row[j], b[j]));
        }
        c.push(acc);
    }
    proof {
        assert(c@ =~= mat_vec_prod(mat_rows(a@), b@));
    }
    Ok(c)
}

} // verus!
