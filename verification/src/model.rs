//! The mathematical model of the library: spec functions over `Seq` that the
//! contracts of every operation speak in.

use vstd::prelude::*;

use crate::scalar::Scalar;
use crate::LinAlgError;

verus! {

/// The accumulating sum `f(0) + f(1) + ... + f(n - 1)`, seeded at the
/// additive identity and folded from the left, exactly as the executable
/// loops accumulate.
pub open spec fn sum_fn<T: Scalar>(n: int, f: spec_fn(int) -> T) -> T
    decreases n,
{
    if n <= 0 {
        T::zero_s()
    } else {
        sum_fn(n - 1, f).plus_s(f(n - 1))
    }
}

/// The first `n` terms of the dot product, accumulated from the additive
/// identity exactly as the executable loops do.
pub open spec fn dot_prefix_s<T: Scalar>(a: Seq<T>, b: Seq<T>, n: int) -> T
    decreases n,
{
    if n <= 0 {
        T::zero_s()
    } else {
        dot_prefix_s(a, b, n - 1).plus_s(a[n - 1].times_s(b[n - 1]))
    }
}

/// The dot product: the sum of element-wise products.
pub open spec fn dot_s<T: Scalar>(a: Seq<T>, b: Seq<T>) -> T {
    dot_prefix_s(a, b, a.len() as int)
}

/// The shape error of a pair of vector operands, if they have one: an empty
/// operand is reported before a length mismatch.
pub open spec fn pair_err<T: Scalar>(a: Seq<T>, b: Seq<T>) -> Option<LinAlgError> {
    if a.len() == 0 || b.len() == 0 {
        Some(LinAlgError::EmptyOperand)
    } else if a.len() != b.len() {
        Some(LinAlgError::DimensionMismatch)
    } else {
        None
    }
}

/// Every element multiplied by `k`, the element on the left.
pub open spec fn vec_scale_s<T: Scalar>(v: Seq<T>, k: T) -> Seq<T> {
    Seq::new(v.len(), |i: int| v[i].times_s(k))
}

/// The element-wise sum.
pub open spec fn vec_add_s<T: Scalar>(a: Seq<T>, b: Seq<T>) -> Seq<T> {
    Seq::new(a.len(), |i: int| a[i].plus_s(b[i]))
}

/// The element-wise difference.
pub open spec fn vec_sub_s<T: Scalar>(a: Seq<T>, b: Seq<T>) -> Seq<T> {
    Seq::new(a.len(), |i: int| a[i].minus_s(b[i]))
}

/// The Euclidean length: the square root of `dot_s(v, v)`.
pub open spec fn magnitude_s<T: Scalar>(v: Seq<T>) -> T {
    dot_s(v, v).sqrt_s()
}

/// Whether every element is the additive identity.
pub open spec fn all_zero<T: Scalar>(v: Seq<T>) -> bool {
    forall|i: int| 0 <= i < v.len() ==> v[i] == T::zero_s()
}

/// The rows of a matrix held as a vector of vectors.
pub open spec fn rows_s<T>(m: Seq<Vec<T>>) -> Seq<Seq<T>> {
    Seq::new(m.len(), |i: int| m[i]@)
}

/// Whether every row is as long as the first: the table is rectangular.
pub open spec fn rect_s<T>(m: Seq<Seq<T>>) -> bool {
    forall|i: int| 0 <= i < m.len() ==> (#[trigger] m[i]).len() == m[0].len()
}

/// A well-formed matrix: at least one row, at least one column, and
/// rectangular.  A degenerate matrix is rejected before any arithmetic.
pub open spec fn matrix_wf<T>(m: Seq<Seq<T>>) -> bool {
    m.len() > 0 && m[0].len() > 0 && rect_s(m)
}

/// The shape error of a single matrix operand, if it has one: an empty
/// matrix or one whose first row is empty is a degenerate operand, and rows
/// that disagree in length disagree in column count.
pub open spec fn matrix_arg_err<T>(m: Seq<Seq<T>>) -> Option<LinAlgError> {
    if m.len() == 0 || m[0].len() == 0 {
        Some(LinAlgError::EmptyOperand)
    } else if !rect_s(m) {
        Some(LinAlgError::ColumnCountMismatch)
    } else {
        None
    }
}

/// The shape error of a pair of matrix operands under element-wise
/// addition, if they have one: the left operand's own shape is examined
/// first, then the right's, then the row counts, then the column counts.
pub open spec fn mat_pair_err_add<T>(a: Seq<Seq<T>>, b: Seq<Seq<T>>) -> Option<LinAlgError> {
    if matrix_arg_err(a) is Some {
        matrix_arg_err(a)
    } else if matrix_arg_err(b) is Some {
        matrix_arg_err(b)
    } else if a.len() != b.len() {
        Some(LinAlgError::RowCountMismatch)
    } else if a[0].len() != b[0].len() {
        Some(LinAlgError::ColumnCountMismatch)
    } else {
        None
    }
}

/// The shape error of a pair of matrix operands under multiplication, if
/// they have one: each operand's own shape first, then the inner dimension.
pub open spec fn mat_pair_err_mul<T>(a: Seq<Seq<T>>, b: Seq<Seq<T>>) -> Option<LinAlgError> {
    if matrix_arg_err(a) is Some {
        matrix_arg_err(a)
    } else if matrix_arg_err(b) is Some {
        matrix_arg_err(b)
    } else if a[0].len() != b.len() {
        Some(LinAlgError::InnerDimensionMismatch)
    } else {
        None
    }
}

/// The shape error of a matrix-point pair, if it has one: the matrix's own
/// shape first, then the inner dimension against the point's length.
pub open spec fn mat_point_err<T>(m: Seq<Seq<T>>, p: Seq<T>) -> Option<LinAlgError> {
    if matrix_arg_err(m) is Some {
        matrix_arg_err(m)
    } else if m[0].len() != p.len() {
        Some(LinAlgError::InnerDimensionMismatch)
    } else {
        None
    }
}

/// The element-wise sum of two matrices.
pub open spec fn mat_add_s<T: Scalar>(a: Seq<Seq<T>>, b: Seq<Seq<T>>) -> Seq<Seq<T>> {
    Seq::new(a.len(), |i: int| vec_add_s(a[i], b[i]))
}

/// Every element multiplied by `k`, row by row.
pub open spec fn mat_scale_s<T: Scalar>(m: Seq<Seq<T>>, k: T) -> Seq<Seq<T>> {
    Seq::new(m.len(), |i: int| vec_scale_s(m[i], k))
}

/// Column `j` of a matrix, read downwards.
pub open spec fn col_s<T>(m: Seq<Seq<T>>, j: int) -> Seq<T> {
    Seq::new(m.len(), |k: int| m[k][j])
}

/// The matrix product: entry `(i, j)` is the dot product of row `i` of `a`
/// with column `j` of `b`, accumulated over `a`'s columns in order.
pub open spec fn mat_mul_s<T: Scalar>(a: Seq<Seq<T>>, b: Seq<Seq<T>>) -> Seq<Seq<T>> {
    Seq::new(a.len(), |i: int| Seq::new(b[0].len(), |j: int| dot_s(a[i], col_s(b, j))))
}

/// The matrix-point product: entry `i` is the dot product of row `i` with
/// the point.
pub open spec fn mat_vec_mul_s<T: Scalar>(m: Seq<Seq<T>>, p: Seq<T>) -> Seq<T> {
    Seq::new(m.len(), |i: int| dot_s(m[i], p))
}

/// The first coordinate of a plane rotation by `theta`.
pub open spec fn rotate2_x_s<T: Scalar>(x: T, y: T, theta: T) -> T {
    x.times_s(theta.cos_s()).minus_s(y.times_s(theta.sin_s()))
}

/// The second coordinate of a plane rotation by `theta`.
pub open spec fn rotate2_y_s<T: Scalar>(x: T, y: T, theta: T) -> T {
    x.times_s(theta.sin_s()).plus_s(y.times_s(theta.cos_s()))
}

/// A plane rotation by `theta` radians: the first two coordinates turn, and
/// any further coordinate (the homogeneous one) passes through unchanged.
pub open spec fn rotate2_s<T: Scalar>(v: Seq<T>, theta: T) -> Seq<T> {
    Seq::new(
        v.len(),
        |i: int|
            if i == 0 {
                rotate2_x_s(v[0], v[1], theta)
            } else if i == 1 {
                rotate2_y_s(v[0], v[1], theta)
            } else {
                v[i]
            },
    )
}

} // verus!
