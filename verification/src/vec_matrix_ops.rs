//! Matrix arithmetic on `Vec<Vec<T>>`, built on the loop scaffolding.

use vstd::prelude::*;

use crate::LinAlgError;
use crate::MatrixOperations;
use crate::VectorOps;
use crate::double_for_loop_operation;
use crate::model::col_s;
use crate::model::dot_prefix_s;
use crate::model::dot_s;
use crate::model::mat_add_s;
use crate::model::mat_mul_s;
use crate::model::mat_scale_s;
use crate::model::mat_vec_mul_s;
use crate::model::matrix_arg_err;
use crate::model::matrix_wf;
use crate::model::rect_s;
use crate::model::rows_s;
use crate::model::vec_scale_s;
use crate::scalar::Scalar;
use crate::single_for_loop_operation;

verus! {

/// The shape error of a single matrix operand, the executable mirror of
/// `matrix_arg_err`.
fn check_matrix_shape<T: Scalar>(m: &Vec<Vec<T>>) -> (r: Option<LinAlgError>)
    ensures
        r == matrix_arg_err(rows_s(m@)),
{
    if m.len() == 0 {
        return Some(LinAlgError::EmptyOperand);
    }
    if m[0].len() == 0 {
        return Some(LinAlgError::EmptyOperand);
    }
    let cols = m[0].len();
    let mut i: usize = 1;
    while i < m.len()
        invariant
            1 <= i <= m@.len(),
            m@.len() > 0,
            cols == m@[0]@.len(),
            cols > 0,
            forall|k: int| 0 <= k < i ==> (#[trigger] m@[k])@.len() == cols,
        decreases m@.len() - i,
    {
        if m[i].len() != cols {
            proof {
                assert(rows_s(m@)[i as int].len() != rows_s(m@)[0].len());
                assert(!rect_s(rows_s(m@)));
            }
            return Some(LinAlgError::ColumnCountMismatch);
        }
        i += 1;
    }
    proof {
        assert forall|k: int| 0 <= k < rows_s(m@).len() implies (#[trigger] rows_s(m@)[k]).len()
            == rows_s(m@)[0].len() by {
            assert(rows_s(m@)[k] == m@[k]@);
        }
        assert(rect_s(rows_s(m@)));
    }
    None
}

impl<T: Scalar> MatrixOperations<T> for Vec<Vec<T>> {
    open spec fn rows(&self) -> Seq<Seq<T>> {
        rows_s(self@)
    }

    fn matrix_add_matrix(&self, rhs: &Self) -> (r: Result<Vec<Vec<T>>, LinAlgError>) {
        match check_matrix_shape(self) {
            Some(e) => {
                return Err(e);
            },
            None => {},
        }
        match check_matrix_shape(rhs) {
            Some(e) => {
                return Err(e);
            },
            None => {},
        }
        if self.len() != rhs.len() {
            return Err(LinAlgError::RowCountMismatch);
        }
        if self[0].len() != rhs[0].len() {
            return Err(LinAlgError::ColumnCountMismatch);
        }
        let row_length: usize = rhs.len();
        let column_length: usize = rhs[0].len();
        let matrix = double_for_loop_operation(
            row_length,
            column_length,
            |row: usize, column: usize| -> (out: T)
                requires
                    matrix_wf(rows_s(self@)),
                    matrix_wf(rows_s(rhs@)),
                    self@.len() == rhs@.len(),
                    self@.index(0)@.len() == rhs@.index(0)@.len(),
                    row < self@.len(),
                    column < self@.index(0)@.len(),
                ensures
                    out == self@.index(row as int)@.index(column as int).plus_s(
                        rhs@.index(row as int)@.index(column as int),
                    )
                {
                    proof {
                        assert(rows_s(self@)[row as int].len() == rows_s(self@)[0].len());
                        assert(rows_s(rhs@)[row as int].len() == rows_s(rhs@)[0].len());
                    }
                    self[row][column].plus(rhs[row][column])
                },
        );
        proof {
            assert(rows_s(matrix@) =~~= mat_add_s(rows_s(self@), rows_s(rhs@)));
        }
        Ok(matrix)
    }

    fn matrix_mult_matrix(&self, rhs: &Self) -> (r: Result<Vec<Vec<T>>, LinAlgError>) {
        match check_matrix_shape(self) {
            Some(e) => {
                return Err(e);
            },
            None => {},
        }
        match check_matrix_shape(rhs) {
            Some(e) => {
                return Err(e);
            },
            None => {},
        }
        if self[0].len() != rhs.len() {
            return Err(LinAlgError::InnerDimensionMismatch);
        }
        let row_length: usize = self.len();
        let column_length: usize = rhs[0].len();
        let matrix = double_for_loop_operation(
            row_length,
            column_length,
            |row: usize, column: usize| -> (out: T)
                requires
                    matrix_wf(rows_s(self@)),
                    matrix_wf(rows_s(rhs@)),
                    self@.index(0)@.len() == rhs@.len(),
                    row < self@.len(),
                    column < rhs@.index(0)@.len(),
                ensures
                    out == dot_s(self@.index(row as int)@, col_s(rows_s(rhs@), column as int))
                {
                    proof {
                        assert(rows_s(self@)[row as int].len() == rows_s(self@)[0].len());
                    }
                    let mut temp: T = T::zero();
                    let mut index: usize = 0;
                    while index < self[row].len()
                        invariant
                            matrix_wf(rows_s(rhs@)),
                            row < self@.len(),
                            column < rhs@[0]@.len(),
                            self@[row as int]@.len() == rhs@.len(),
                            index <= rhs@.len(),
                            temp == dot_prefix_s(
                                self@[row as int]@,
                                col_s(rows_s(rhs@), column as int),
                                index as int,
                            ),
                        decreases rhs@.len() - index,
                    {
                        proof {
                            assert(rows_s(rhs@)[index as int].len() == rows_s(rhs@)[0].len());
                            assert(col_s(rows_s(rhs@), column as int)[index as int] == rhs@[index as int]@[column as int]);
                        }
                        temp = temp.plus(self[row][index].times(rhs[index][column]));
                        index += 1;
                    }
                    temp
                },
        );
        proof {
            assert(rows_s(matrix@) =~~= mat_mul_s(rows_s(self@), rows_s(rhs@)));
        }
        Ok(matrix)
    }

    fn matrix_mult_point(&self, rhs: &Vec<T>) -> (r: Result<Vec<T>, LinAlgError>) {
        match check_matrix_shape(self) {
            Some(e) => {
                return Err(e);
            },
            None => {},
        }
        if self[0].len() != rhs.len() {
            return Err(LinAlgError::InnerDimensionMismatch);
        }
        let point = single_for_loop_operation(
            self.len(),
            |row: usize| -> (out: T)
                requires
                    matrix_wf(rows_s(self@)),
                    self@.index(0)@.len() == rhs@.len(),
                    row < self@.len(),
                ensures
                    out == dot_s(self@.index(row as int)@, rhs@)
                {
                    proof {
                        assert(rows_s(self@)[row as int].len() == rows_s(self@)[0].len());
                    }
                    let mut temp: T = T::zero();
                    let mut column: usize = 0;
                    while column < self[row].len()
                        invariant
                            row < self@.len(),
                            self@[row as int]@.len() == rhs@.len(),
                            column <= rhs@.len(),
                            temp == dot_prefix_s(self@[row as int]@, rhs@, column as int),
                        decreases rhs@.len() - column,
                    {
                        temp = temp.plus(self[row][column].times(rhs[column]));
                        column += 1;
                    }
                    temp
                },
        );
        proof {
            assert(point@ =~= mat_vec_mul_s(rows_s(self@), rhs@));
        }
        Ok(point)
    }

    fn scaler_mult_matrix(&self, rhs: T) -> (r: Vec<Vec<T>>) {
        let mut matrix: Vec<Vec<T>> = Vec::new();
        let mut row: usize = 0;
        while row < self.len()
            invariant
                row <= self@.len(),
                matrix@.len() == row,
                forall|i: int| 0 <= i < row ==> (#[trigger] matrix@[i])@ == vec_scale_s(self@[i]@, rhs),
            decreases self@.len() - row,
        {
            matrix.push(self[row].vec_scal(rhs));
            row += 1;
        }
        proof {
            assert(rows_s(matrix@) =~~= mat_scale_s(rows_s(self@), rhs));
        }
        matrix
    }
}

} // verus!
