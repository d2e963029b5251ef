//! Vector length, scalar component and projection on `Vec<T>`.

use vstd::prelude::*;

use crate::LinAlgError;
use crate::VecScalingProjection;
use crate::VectorOps;
use crate::model::dot_prefix_s;
use crate::scalar::Scalar;

verus! {

impl<T: Scalar> VecScalingProjection<T> for Vec<T> {
    open spec fn entries(&self) -> Seq<T> {
        self@
    }

    fn magnitude(&self) -> (r: Result<T, LinAlgError>) {
        if self.len() == 0 {
            return Err(LinAlgError::EmptyOperand);
        }
        let mut acc: T = T::zero();
        let mut i: usize = 0;
        while i < self.len()
            invariant
                i <= self@.len(),
                acc == dot_prefix_s(self@, self@, i as int),
            decreases self@.len() - i,
        {
            acc = acc.plus(self[i].times(self[i]));
            i += 1;
        }
        Ok(acc.root())
    }

    fn vec_scalar_components(&self, rhs: &Self) -> (r: Result<T, LinAlgError>) {
        if self.len() == 0 || rhs.len() == 0 {
            return Err(LinAlgError::EmptyOperand);
        }
        if self.len() != rhs.len() {
            return Err(LinAlgError::DimensionMismatch);
        }
        let mag = match rhs.magnitude() {
            Ok(m) => m,
            Err(e) => {
                return Err(e);
            },
        };
        if mag.is_zero() {
            return Err(LinAlgError::DivisionByZero);
        }
        let d = match self.dot(rhs) {
            Ok(d) => d,
            Err(e) => {
                return Err(e);
            },
        };
        Ok(d.over(mag))
    }

    fn vec_projection(&self, rhs: &Self) -> (r: Result<Vec<T>, LinAlgError>) {
        if self.len() == 0 || rhs.len() == 0 {
            return Err(LinAlgError::EmptyOperand);
        }
        if self.len() != rhs.len() {
            return Err(LinAlgError::DimensionMismatch);
        }
        let den = match rhs.dot(rhs) {
            Ok(d) => d,
            Err(e) => {
                return Err(e);
            },
        };
        if den.is_zero() {
            return Err(LinAlgError::DivisionByZero);
        }
        let d = match self.dot(rhs) {
            Ok(d) => d,
            Err(e) => {
                return Err(e);
            },
        };
        let scaler = d.over(den);
        Ok(rhs.vec_scal(scaler))
    }
}

} // verus!
