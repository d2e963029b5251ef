//! Element-wise vector arithmetic on `Vec<T>`.

use vstd::prelude::*;

use crate::LinAlgError;
use crate::VectorOps;
use crate::model::dot_prefix_s;
use crate::model::vec_add_s;
use crate::model::vec_scale_s;
use crate::scalar::Scalar;

verus! {

impl<T: Scalar> VectorOps<T> for Vec<T> {
    open spec fn entries(&self) -> Seq<T> {
        self@
    }

    fn vec_scal(&self, scal: T) -> (r: Vec<T>) {
        let mut result: Vec<T> = Vec::new();
        let mut i: usize = 0;
        while i < self.len()
            invariant
                i <= self@.len(),
                result@.len() == i,
                forall|k: int| 0 <= k < i ==> result@[k] == self@[k].times_s(scal),
            decreases self@.len() - i,
        {
            result.push(self[i].times(scal));
            i += 1;
        }
        proof {
            assert(result@ =~= vec_scale_s(self@, scal));
        }
        result
    }

    fn vec_add(&self, rhs: &Self) -> (r: Result<Vec<T>, LinAlgError>) {
        if self.len() == 0 || rhs.len() == 0 {
            return Err(LinAlgError::EmptyOperand);
        }
        if self.len() != rhs.len() {
            return Err(LinAlgError::DimensionMismatch);
        }
        let mut result: Vec<T> = Vec::new();
        let mut i: usize = 0;
        while i < rhs.len()
            invariant
                self@.len() == rhs@.len(),
                i <= rhs@.len(),
                result@.len() == i,
                forall|k: int| 0 <= k < i ==> result@[k] == self@[k].plus_s(rhs@[k]),
            decreases rhs@.len() - i,
        {
            result.push(self[i].plus(rhs[i]));
            i += 1;
        }
        proof {
            assert(result@ =~= vec_add_s(self@, rhs@));
        }
        Ok(result)
    }

    fn dot(&self, rhs: &Self) -> (r: Result<T, LinAlgError>) {
        if self.len() == 0 || rhs.len() == 0 {
            return Err(LinAlgError::EmptyOperand);
        }
        if self.len() != rhs.len() {
            return Err(LinAlgError::DimensionMismatch);
        }
        let mut acc: T = T::zero();
        let mut i: usize = 0;
        while i < rhs.len()
            invariant
                self@.len() == rhs@.len(),
                i <= rhs@.len(),
                acc == dot_prefix_s(self@, rhs@, i as int),
            decreases rhs@.len() - i,
        {
            acc = acc.plus(self[i].times(rhs[i]));
            i += 1;
        }
        Ok(acc)
    }
}

} // verus!
