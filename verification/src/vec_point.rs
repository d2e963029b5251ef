//! Point arithmetic on `Vec<T>`, built on the single-loop scaffolding.

use vstd::prelude::*;

use crate::LinAlgError;
use crate::PointOperations;
use crate::model::vec_add_s;
use crate::model::vec_scale_s;
use crate::model::vec_sub_s;
use crate::scalar::Scalar;
use crate::single_for_loop_operation;

verus! {

impl<T: Scalar> PointOperations<T> for Vec<T> {
    open spec fn entries(&self) -> Seq<T> {
        self@
    }

    fn point_mult_scaler(&self, rhs: T) -> (r: Result<Vec<T>, LinAlgError>) {
        if self.len() == 0 {
            return Err(LinAlgError::EmptyOperand);
        }
        let point = single_for_loop_operation(
            self.len(),
            |index: usize| -> (out: T)
                requires
                    index < self@.len(),
                ensures
                    out == self@.index(index as int).times_s(rhs)
                { self[index].times(rhs) },
        );
        proof {
            assert(point@ =~= vec_scale_s(self@, rhs));
        }
        Ok(point)
    }

    fn point_minus_point(&self, rhs: &Self) -> (r: Result<Vec<T>, LinAlgError>) {
        if self.len() != rhs.len() {
            return Err(LinAlgError::DimensionMismatch);
        }
        if self.len() == 0 || rhs.len() == 0 {
            return Err(LinAlgError::EmptyOperand);
        }
        let point = single_for_loop_operation(
            self.len(),
            |index: usize| -> (out: T)
                requires
                    index < self@.len(),
                    self@.len() == rhs@.len(),
                ensures
                    out == self@.index(index as int).minus_s(rhs@.index(index as int))
                { self[index].minus(rhs[index]) },
        );
        proof {
            assert(point@ =~= vec_sub_s(self@, rhs@));
        }
        Ok(point)
    }

    fn point_plus_vector(&self, rhs: &Self) -> (r: Result<Vec<T>, LinAlgError>) {
        if self.len() != rhs.len() {
            return Err(LinAlgError::DimensionMismatch);
        }
        let point = single_for_loop_operation(
            self.len(),
            |index: usize| -> (out: T)
                requires
                    index < self@.len(),
                    self@.len() == rhs@.len(),
                ensures
                    out == self@.index(index as int).plus_s(rhs@.index(index as int))
                { self[index].plus(rhs[index]) },
        );
        proof {
            assert(point@ =~= vec_add_s(self@, rhs@));
        }
        Ok(point)
    }
}

} // verus!
