//! Plane rotation on `Vec<T>`.

use vstd::prelude::*;

use crate::LinAlgError;
use crate::TwoDimMatrixOps;
use crate::model::rotate2_s;
use crate::scalar::Scalar;

verus! {

impl<T: Scalar> TwoDimMatrixOps<T> for Vec<T> {
    open spec fn entries(&self) -> Seq<T> {
        self@
    }

    fn matrix_two_dim_rotate(&self, theta_rad: T, homogeneous_flag: bool) -> (r: Result<
        Vec<T>,
        LinAlgError,
    >) {
        if homogeneous_flag && self.len() != 3 {
            return Err(LinAlgError::InvalidDimensionForMode);
        }
        if !homogeneous_flag && self.len() != 2 {
            return Err(LinAlgError::InvalidDimensionForMode);
        }
        let mut out: Vec<T> = Vec::new();
        out.push(self[0].times(theta_rad.cosine()).minus(self[1].times(theta_rad.sine())));
        out.push(self[0].times(theta_rad.sine()).plus(self[1].times(theta_rad.cosine())));
        if homogeneous_flag {
            out.push(self[2]);
        }
        proof {
            assert(out@ =~= rotate2_s(self@, theta_rad));
        }
        Ok(out)
    }
}

} // verus!
