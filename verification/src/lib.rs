//! Linear-algebra primitives over dynamically sized containers: vector and
//! matrix arithmetic, point arithmetic and plane rotation, with every shape
//! check and every arithmetic result stated in a contract and proved.
//!
//! The element type is any [`Scalar`]: a field-like capability trait whose
//! operations are named by spec functions, so that the same verified
//! operations serve exact integer arithmetic and a caller's own numeric
//! types alike.  Shape violations never panic; each operation reports them
//! as a [`LinAlgError`] before any arithmetic proceeds.

use vstd::prelude::*;

mod laws;
mod model;
mod scalar;
mod vec_matrix_ops;
mod vec_point;
mod vec_scaling_projection;
mod vec_two_dim_matrix_ops;
mod vector_ops;

verus! {

pub use crate::scalar::Scalar;
pub use crate::scalar::isqrt_s;
pub use crate::scalar::lemma_isqrt_bounds;
pub use crate::scalar::lemma_isqrt_unique;
pub use crate::model::all_zero;
pub use crate::model::col_s;
pub use crate::model::dot_prefix_s;
pub use crate::model::dot_s;
pub use crate::model::magnitude_s;
pub use crate::model::mat_add_s;
pub use crate::model::mat_mul_s;
pub use crate::model::mat_pair_err_add;
pub use crate::model::mat_pair_err_mul;
pub use crate::model::mat_point_err;
pub use crate::model::mat_scale_s;
pub use crate::model::mat_vec_mul_s;
pub use crate::model::matrix_arg_err;
pub use crate::model::matrix_wf;
pub use crate::model::pair_err;
pub use crate::model::rect_s;
pub use crate::model::rotate2_s;
pub use crate::model::rotate2_x_s;
pub use crate::model::rotate2_y_s;
pub use crate::model::rows_s;
pub use crate::model::sum_fn;
pub use crate::model::vec_add_s;
pub use crate::model::vec_scale_s;
pub use crate::model::vec_sub_s;
pub use crate::laws::lemma_dot_commutative;
pub use crate::laws::lemma_dot_is_sum_fn;
pub use crate::laws::lemma_magnitude_positive_definite;
pub use crate::laws::lemma_matrix_multiply_associative;
pub use crate::laws::lemma_sum_fn_times_left;
pub use crate::laws::lemma_sum_fn_times_right;
pub use crate::laws::lemma_translate_subtract_roundtrip;
pub use crate::laws::lemma_u64_scalar_laws;
pub use crate::laws::lemma_vec_add_associative;
pub use crate::laws::minus_cancels;
pub use crate::laws::plus_associates;
pub use crate::laws::plus_commutes;
pub use crate::laws::plus_definite;
pub use crate::laws::ring_laws;
pub use crate::laws::sqrt_definite;
pub use crate::laws::squares_definite;
pub use crate::laws::times_associates;
pub use crate::laws::times_commutes;
pub use crate::laws::times_distributes;
pub use crate::laws::zero_adds;
pub use crate::laws::zero_nonneg;
pub use crate::laws::zero_times;

/// Why an operation refused its operands.  Every error is a precondition
/// violation detected before any arithmetic proceeds; no partial result is
/// ever returned.
#[derive(Clone, Copy, Debug, PartialEq, Eq, Structural)]
pub enum LinAlgError {
    /// An operation required a non-zero-length operand and received a
    /// zero-length one.
    EmptyOperand,
    /// Two vector or point operands differ in length.
    DimensionMismatch,
    /// Two matrix operands differ in row count.
    RowCountMismatch,
    /// Two matrix rows that should agree in length do not.
    ColumnCountMismatch,
    /// The left matrix's column count does not match the right operand's
    /// row count (or a point's length).
    InnerDimensionMismatch,
    /// A rotation operand's length does not match the requested
    /// homogeneous or non-homogeneous mode.
    InvalidDimensionForMode,
    /// The reference vector of a projection has zero magnitude.
    DivisionByZero,
}

/// Element-wise vector arithmetic.
pub trait VectorOps<T: Scalar>: Sized {
    /// The scalars the vector holds.
    spec fn entries(&self) -> Seq<T>;

    /// Multiplies every element by `scal`.  No error conditions: an empty
    /// vector scales to an empty vector.
    fn vec_scal(&self, scal: T) -> (r: Vec<T>)
        ensures
            r@ == vec_scale_s(self.entries(), scal),
    ;

    /// The element-wise sum.  A zero-length operand is reported before a
    /// length mismatch.
    fn vec_add(&self, rhs: &Self) -> (r: Result<Vec<T>, LinAlgError>)
        ensures
            match pair_err(self.entries(), rhs.entries()) {
                Some(e) => r == Err::<Vec<T>, LinAlgError>(e),
                None => r is Ok && r->Ok_0@ == vec_add_s(self.entries(), rhs.entries()),
            },
    ;

    /// The dot product: the sum of element-wise products, accumulated from
    /// the additive identity.  A zero-length operand is reported before a
    /// length mismatch.
    fn dot(&self, rhs: &Self) -> (r: Result<T, LinAlgError>)
        ensures
            match pair_err(self.entries(), rhs.entries()) {
                Some(e) => r == Err::<T, LinAlgError>(e),
                None => r == Ok::<T, LinAlgError>(dot_s(self.entries(), rhs.entries())),
            },
    ;
}

/// Vector length and projection.
pub trait VecScalingProjection<T: Scalar>: Sized {
    /// The scalars the vector holds.
    spec fn entries(&self) -> Seq<T>;

    /// The Euclidean length: the square root of the dot product of the
    /// vector with itself.  A zero-length vector has no length.
    fn magnitude(&self) -> (r: Result<T, LinAlgError>)
        ensures
            self.entries().len() == 0 ==> r == Err::<T, LinAlgError>(LinAlgError::EmptyOperand),
            self.entries().len() > 0 ==> r == Ok::<T, LinAlgError>(magnitude_s(self.entries())),
    ;

    /// The scalar component of `self` along `rhs`: the dot product divided
    /// by the magnitude of `rhs`.  A reference vector of zero magnitude is
    /// a division by zero.
    fn vec_scalar_components(&self, rhs: &Self) -> (r: Result<T, LinAlgError>)
        ensures
            match pair_err(self.entries(), rhs.entries()) {
                Some(e) => r == Err::<T, LinAlgError>(e),
                None => if magnitude_s(rhs.entries()) == T::zero_s() {
                    r == Err::<T, LinAlgError>(LinAlgError::DivisionByZero)
                } else {
                    r == Ok::<T, LinAlgError>(
                        dot_s(self.entries(), rhs.entries()).over_s(magnitude_s(rhs.entries())),
                    )
                },
            },
    ;

    /// The vector projection of `self` onto `rhs`: `rhs` scaled by the dot
    /// product of the pair over the dot product of `rhs` with itself.  A
    /// reference vector whose dot product with itself is zero is a
    /// division by zero.
    fn vec_projection(&self, rhs: &Self) -> (r: Result<Vec<T>, LinAlgError>)
        ensures
            match pair_err(self.entries(), rhs.entries()) {
                Some(e) => r == Err::<Vec<T>, LinAlgError>(e),
                None => if dot_s(rhs.entries(), rhs.entries()) == T::zero_s() {
                    r == Err::<Vec<T>, LinAlgError>(LinAlgError::DivisionByZero)
                } else {
                    r is Ok && r->Ok_0@ == vec_scale_s(
                        rhs.entries(),
                        dot_s(self.entries(), rhs.entries()).over_s(
                            dot_s(rhs.entries(), rhs.entries()),
                        ),
                    )
                },
            },
    ;
}

/// Element-wise and product arithmetic on matrices held as vectors of rows.
pub trait MatrixOperations<T: Scalar>: Sized {
    /// The rows the matrix holds.
    spec fn rows(&self) -> Seq<Seq<T>>;

    /// The element-wise sum of two matrices of equal shape.
    fn matrix_add_matrix(&self, rhs: &Self) -> (r: Result<Vec<Vec<T>>, LinAlgError>)
        ensures
            match mat_pair_err_add(self.rows(), rhs.rows()) {
                Some(e) => r == Err::<Vec<Vec<T>>, LinAlgError>(e),
                None => r is Ok && rows_s(r->Ok_0@) == mat_add_s(self.rows(), rhs.rows()),
            },
    ;

    /// The matrix product: entry `(i, j)` is the dot product of row `i` of
    /// `self` with column `j` of `rhs`, accumulated from the additive
    /// identity over `self`'s columns in order.
    fn matrix_mult_matrix(&self, rhs: &Self) -> (r: Result<Vec<Vec<T>>, LinAlgError>)
        ensures
            match mat_pair_err_mul(self.rows(), rhs.rows()) {
                Some(e) => r == Err::<Vec<Vec<T>>, LinAlgError>(e),
                None => r is Ok && rows_s(r->Ok_0@) == mat_mul_s(self.rows(), rhs.rows()),
            },
    ;

    /// The matrix-point product: entry `i` is the dot product of row `i`
    /// with the point.
    fn matrix_mult_point(&self, rhs: &Vec<T>) -> (r: Result<Vec<T>, LinAlgError>)
        ensures
            match mat_point_err(self.rows(), rhs@) {
                Some(e) => r == Err::<Vec<T>, LinAlgError>(e),
                None => r is Ok && r->Ok_0@ == mat_vec_mul_s(self.rows(), rhs@),
            },
    ;

    /// Multiplies every element by `rhs`, row by row.  No error conditions:
    /// each row keeps its own length, whatever the shape.
    fn scaler_mult_matrix(&self, rhs: T) -> (r: Vec<Vec<T>>)
        ensures
            rows_s(r@) == mat_scale_s(self.rows(), rhs),
    ;
}

/// Plane rotation of two-dimensional vectors.
pub trait TwoDimMatrixOps<T: Scalar>: Sized {
    /// The scalars the vector holds.
    spec fn entries(&self) -> Seq<T>;

    /// Rotates by `theta_rad` radians with the standard rotation matrix.
    /// The non-homogeneous mode takes exactly two elements; the homogeneous
    /// mode takes exactly three and passes the third through unchanged,
    /// whatever its value.
    fn matrix_two_dim_rotate(&self, theta_rad: T, homogeneous_flag: bool) -> (r: Result<
        Vec<T>,
        LinAlgError,
    >)
        ensures
            self.entries().len() != (if homogeneous_flag {
                3int
            } else {
                2int
            }) ==> r == Err::<Vec<T>, LinAlgError>(LinAlgError::InvalidDimensionForMode),
            self.entries().len() == (if homogeneous_flag {
                3int
            } else {
                2int
            }) ==> r is Ok && r->Ok_0@ == rotate2_s(self.entries(), theta_rad),
    ;
}

/// Point arithmetic: a point is a location, a vector a displacement.
pub trait PointOperations<T: Scalar>: Sized {
    /// The scalars the point holds.
    spec fn entries(&self) -> Seq<T>;

    /// Multiplies every coordinate by `rhs`.  A zero-dimension point
    /// cannot be scaled, unlike an empty vector.
    fn point_mult_scaler(&self, rhs: T) -> (r: Result<Vec<T>, LinAlgError>)
        ensures
            self.entries().len() == 0 ==> r == Err::<Vec<T>, LinAlgError>(
                LinAlgError::EmptyOperand,
            ),
            self.entries().len() > 0 ==> r is Ok && r->Ok_0@ == vec_scale_s(
                self.entries(),
                rhs,
            ),
    ;

    /// The displacement from `rhs` to `self`: the element-wise difference.
    /// A length mismatch is reported before a zero-length operand.
    fn point_minus_point(&self, rhs: &Self) -> (r: Result<Vec<T>, LinAlgError>)
        ensures
            self.entries().len() != rhs.entries().len() ==> r == Err::<Vec<T>, LinAlgError>(
                LinAlgError::DimensionMismatch,
            ),
            self.entries().len() == rhs.entries().len() && self.entries().len() == 0 ==> r
                == Err::<Vec<T>, LinAlgError>(LinAlgError::EmptyOperand),
            self.entries().len() == rhs.entries().len() && self.entries().len() > 0 ==> r is Ok
                && r->Ok_0@ == vec_sub_s(self.entries(), rhs.entries()),
    ;

    /// The point translated by a displacement vector: the element-wise
    /// sum.  Empty plus empty succeeds and returns the empty point.
    fn point_plus_vector(&self, rhs: &Self) -> (r: Result<Vec<T>, LinAlgError>)
        ensures
            self.entries().len() != rhs.entries().len() ==> r == Err::<Vec<T>, LinAlgError>(
                LinAlgError::DimensionMismatch,
            ),
            self.entries().len() == rhs.entries().len() ==> r is Ok && r->Ok_0@ == vec_add_s(
                self.entries(),
                rhs.entries(),
            ),
    ;
}

/// Builds a vector of `length` elements, the element at `i` produced by
/// `operation_function(i)`: the shared single-loop scaffolding of the
/// element-wise operations.
pub fn single_for_loop_operation<T, F: Fn(usize) -> T>(length: usize, operation_function: F) -> (r:
    Vec<T>)
    requires
        forall|i: usize| i < length ==> call_requires(operation_function, (i,)),
    ensures
        r.len() == length,
        forall|i: usize|
            i < length ==> call_ensures(operation_function, (i,), #[trigger] r[i as int]),
{
    let mut result: Vec<T> = Vec::new();
    let mut i: usize = 0;
    while i < length
        invariant
            i <= length,
            result.len() == i,
            forall|k: usize| k < length ==> call_requires(operation_function, (k,)),
            forall|k: usize|
                k < i ==> call_ensures(operation_function, (k,), #[trigger] result[k as int]),
        decreases length - i,
    {
        result.push(operation_function(i));
        i += 1;
    }
    result
}

/// Builds a `row_length` by `column_length` table, the element at
/// `(row, column)` produced by `operation_function(row, column)`: the shared
/// double-loop scaffolding of the matrix operations.
pub fn double_for_loop_operation<T, F: Fn(usize, usize) -> T>(
    row_length: usize,
    column_length: usize,
    operation_function: F,
) -> (r: Vec<Vec<T>>)
    requires
        forall|i: usize, j: usize|
            i < row_length && j < column_length ==> call_requires(operation_function, (i, j)),
    ensures
        r.len() == row_length,
        forall|i: int| 0 <= i < row_length ==> (#[trigger] r[i]).len() == column_length,
        forall|i: usize, j: usize|
            i < row_length && j < column_length ==> call_ensures(
                operation_function,
                (i, j),
                #[trigger] r[i as int][j as int],
            ),
{
    let mut matrix: Vec<Vec<T>> = Vec::new();
    let mut row: usize = 0;
    while row < row_length
        invariant
            row <= row_length,
            matrix.len() == row,
            forall|i: usize, j: usize|
                i < row_length && j < column_length ==> call_requires(operation_function, (i, j)),
            forall|i: int| 0 <= i < row ==> (#[trigger] matrix[i]).len() == column_length,
            forall|i: usize, j: usize|
                i < row && j < column_length ==> call_ensures(
                    operation_function,
                    (i, j),
                    #[trigger] matrix[i as int][j as int],
                ),
        decreases row_length - row,
    {
        let mut vec_row: Vec<T> = Vec::new();
        let mut column: usize = 0;
        while column < column_length
            invariant
                row < row_length,
                column <= column_length,
                vec_row.len() == column,
                forall|i: usize, j: usize|
                    i < row_length && j < column_length ==> call_requires(
                        operation_function,
                        (i, j),
                    ),
                forall|j: usize|
                    j < column ==> call_ensures(
                        operation_function,
                        (row, j),
                        #[trigger] vec_row[j as int],
                    ),
            decreases column_length - column,
        {
            vec_row.push(operation_function(row, column));
            column += 1;
        }
        matrix.push(vec_row);
        row += 1;
    }
    matrix
}

/// Steps an index through `0 .. length`, one count at a time: the bare
/// counting loop underneath the single-loop scaffolding, kept as its own
/// entry point.
pub fn iter(length: usize) {
    let mut i: usize = 0;
    while i < length
        invariant
            i <= length,
        decreases length - i,
    {
        i += 1;
    }
}

} // verus!
