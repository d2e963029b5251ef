//! The operations exercised over the exact machine-word scalar, and the
//! error taxonomy pinned down variant by variant.

use lin_alg::LinAlgError;
use lin_alg::MatrixOperations;
use lin_alg::PointOperations;
use lin_alg::Scalar;
use lin_alg::TwoDimMatrixOps;
use lin_alg::VecScalingProjection;
use lin_alg::VectorOps;
use lin_alg::double_for_loop_operation;
use lin_alg::iter;
use lin_alg::single_for_loop_operation;

#[test]
fn u64_scalar_arithmetic_wraps() {
    assert_eq!(5u64.plus(3), 8);
    assert_eq!(u64::MAX.plus(1), 0);
    assert_eq!(3u64.minus(5), u64::MAX - 1);
    assert_eq!(6u64.times(7), 42);
    assert_eq!(u64::MAX.times(2), u64::MAX - 1);
    assert_eq!(17u64.over(5), 3);
    assert_eq!(17u64.over(0), 0);
    assert_eq!(u64::zero(), 0);
    assert!(0u64.is_zero());
    assert!(!3u64.is_zero());
}

#[test]
fn u64_scalar_square_root_is_floor() {
    assert_eq!(0u64.root(), 0);
    assert_eq!(1u64.root(), 1);
    assert_eq!(15u64.root(), 3);
    assert_eq!(16u64.root(), 4);
    assert_eq!(24u64.root(), 4);
    assert_eq!(25u64.root(), 5);
    assert_eq!(u64::MAX.root(), 4294967295);
}

#[test]
fn u64_scalar_trig_is_exact_at_zero_only() {
    assert_eq!(0u64.cosine(), 1);
    assert_eq!(0u64.sine(), 0);
    assert_eq!(7u64.cosine(), 0);
    assert_eq!(7u64.sine(), 0);
}

#[test]
fn u64_vector_arithmetic() {
    let a: Vec<u64> = vec![1, 2, 3];
    let b: Vec<u64> = vec![4, 5, 6];
    assert_eq!(a.vec_add(&b).unwrap(), vec![5, 7, 9]);
    assert_eq!(a.vec_scal(10), vec![10, 20, 30]);
    assert_eq!(a.dot(&b).unwrap(), 32);
    let empty: Vec<u64> = Vec::new();
    assert_eq!(empty.vec_scal(3), Vec::<u64>::new());
}

#[test]
fn u64_magnitude_is_integer_square_root() {
    let v: Vec<u64> = vec![3, 4];
    assert_eq!(v.magnitude().unwrap(), 5);
    let w: Vec<u64> = vec![1, 1, 1];
    assert_eq!(w.magnitude().unwrap(), 1);
}

#[test]
fn u64_point_arithmetic_wraps_below_zero() {
    let p: Vec<u64> = vec![10, 10];
    let q: Vec<u64> = vec![1, 2];
    assert_eq!(p.point_minus_point(&q).unwrap(), vec![9, 8]);
    assert_eq!(q.point_minus_point(&p).unwrap(), vec![u64::MAX - 8, u64::MAX - 7]);
    assert_eq!(p.point_plus_vector(&q).unwrap(), vec![11, 12]);
    assert_eq!(p.point_mult_scaler(3).unwrap(), vec![30, 30]);
}

#[test]
fn u64_rotation_by_angle_zero_is_identity() {
    let v: Vec<u64> = vec![5, 7];
    assert_eq!(v.matrix_two_dim_rotate(0, false).unwrap(), vec![5, 7]);
    let h: Vec<u64> = vec![5, 7, 9];
    assert_eq!(h.matrix_two_dim_rotate(0, true).unwrap(), vec![5, 7, 9]);
}

#[test]
fn u64_matrix_arithmetic() {
    let a: Vec<Vec<u64>> = vec![vec![1, 2], vec![3, 4]];
    let b: Vec<Vec<u64>> = vec![vec![5, 6], vec![7, 8]];
    let identity: Vec<Vec<u64>> = vec![vec![1, 0], vec![0, 1]];
    assert_eq!(
        a.matrix_add_matrix(&b).unwrap(),
        vec![vec![6, 8], vec![10, 12]]
    );
    assert_eq!(
        a.matrix_mult_matrix(&b).unwrap(),
        vec![vec![19, 22], vec![43, 50]]
    );
    assert_eq!(a.matrix_mult_matrix(&identity).unwrap(), a);
    assert_eq!(
        a.scaler_mult_matrix(2),
        vec![vec![2, 4], vec![6, 8]]
    );
    let p: Vec<u64> = vec![10, 100];
    assert_eq!(a.matrix_mult_point(&p).unwrap(), vec![210, 430]);
}

#[test]
fn u64_matrix_multiply_associates_on_values() {
    let a: Vec<Vec<u64>> = vec![vec![1, 2, 3], vec![4, 5, 6]];
    let b: Vec<Vec<u64>> = vec![vec![7, 8], vec![9, 10], vec![11, 12]];
    let c: Vec<Vec<u64>> = vec![vec![2, 0], vec![1, 3]];
    let ab_c = a
        .matrix_mult_matrix(&b)
        .unwrap()
        .matrix_mult_matrix(&c)
        .unwrap();
    let a_bc = a
        .matrix_mult_matrix(&b.matrix_mult_matrix(&c).unwrap())
        .unwrap();
    assert_eq!(ab_c, a_bc);
}

#[test]
fn empty_operand_errors() {
    let empty: Vec<u64> = Vec::new();
    let v: Vec<u64> = vec![1, 2];
    assert_eq!(empty.vec_add(&v), Err(LinAlgError::EmptyOperand));
    assert_eq!(v.vec_add(&empty), Err(LinAlgError::EmptyOperand));
    assert_eq!(empty.dot(&v), Err(LinAlgError::EmptyOperand));
    assert_eq!(empty.magnitude(), Err(LinAlgError::EmptyOperand));
    assert_eq!(empty.point_mult_scaler(4), Err(LinAlgError::EmptyOperand));
    assert_eq!(
        empty.point_minus_point(&Vec::new()),
        Err(LinAlgError::EmptyOperand)
    );
    let no_rows: Vec<Vec<u64>> = Vec::new();
    let zero_row: Vec<Vec<u64>> = vec![Vec::new()];
    let square: Vec<Vec<u64>> = vec![vec![1, 2], vec![3, 4]];
    assert_eq!(
        no_rows.matrix_add_matrix(&square),
        Err(LinAlgError::EmptyOperand)
    );
    assert_eq!(
        zero_row.matrix_mult_matrix(&square),
        Err(LinAlgError::EmptyOperand)
    );
    assert_eq!(
        square.matrix_add_matrix(&no_rows),
        Err(LinAlgError::EmptyOperand)
    );
    assert_eq!(
        no_rows.matrix_mult_point(&vec![1]),
        Err(LinAlgError::EmptyOperand)
    );
}

#[test]
fn dimension_mismatch_errors() {
    let a: Vec<u64> = vec![1, 2, 3];
    let b: Vec<u64> = vec![1, 2];
    assert_eq!(a.vec_add(&b), Err(LinAlgError::DimensionMismatch));
    assert_eq!(a.dot(&b), Err(LinAlgError::DimensionMismatch));
    assert_eq!(a.point_minus_point(&b), Err(LinAlgError::DimensionMismatch));
    assert_eq!(a.point_plus_vector(&b), Err(LinAlgError::DimensionMismatch));
    let empty: Vec<u64> = Vec::new();
    assert_eq!(
        empty.point_minus_point(&b),
        Err(LinAlgError::DimensionMismatch)
    );
    let both_empty: Vec<u64> = Vec::new();
    assert_eq!(empty.point_plus_vector(&both_empty).unwrap(), Vec::<u64>::new());
}

#[test]
fn matrix_shape_errors() {
    let two_rows: Vec<Vec<u64>> = vec![vec![1, 2], vec![3, 4]];
    let one_row: Vec<Vec<u64>> = vec![vec![1, 2]];
    let narrow: Vec<Vec<u64>> = vec![vec![1], vec![2]];
    let ragged: Vec<Vec<u64>> = vec![vec![1, 2], vec![3]];
    assert_eq!(
        two_rows.matrix_add_matrix(&one_row),
        Err(LinAlgError::RowCountMismatch)
    );
    assert_eq!(
        two_rows.matrix_add_matrix(&narrow),
        Err(LinAlgError::ColumnCountMismatch)
    );
    assert_eq!(
        ragged.matrix_add_matrix(&two_rows),
        Err(LinAlgError::ColumnCountMismatch)
    );
    assert_eq!(
        two_rows.matrix_add_matrix(&ragged),
        Err(LinAlgError::ColumnCountMismatch)
    );
    assert_eq!(
        one_row.matrix_mult_matrix(&one_row),
        Err(LinAlgError::InnerDimensionMismatch)
    );
    assert_eq!(
        one_row.matrix_mult_point(&vec![1]),
        Err(LinAlgError::InnerDimensionMismatch)
    );
    let ragged_scaled = ragged.scaler_mult_matrix(2);
    assert_eq!(ragged_scaled, vec![vec![2, 4], vec![6]]);
}

#[test]
fn rotation_mode_errors() {
    let two: Vec<u64> = vec![1, 2];
    let three: Vec<u64> = vec![1, 2, 3];
    assert_eq!(
        three.matrix_two_dim_rotate(0, false),
        Err(LinAlgError::InvalidDimensionForMode)
    );
    assert_eq!(
        two.matrix_two_dim_rotate(0, true),
        Err(LinAlgError::InvalidDimensionForMode)
    );
}

#[test]
fn division_by_zero_errors() {
    let a: Vec<u64> = vec![1, 2];
    let zeros: Vec<u64> = vec![0, 0];
    assert_eq!(
        a.vec_scalar_components(&zeros),
        Err(LinAlgError::DivisionByZero)
    );
    assert_eq!(a.vec_projection(&zeros), Err(LinAlgError::DivisionByZero));
}

#[test]
fn u64_scalar_component_and_projection() {
    let a: Vec<u64> = vec![4, 6, 7, 8];
    let b: Vec<u64> = vec![2, 1, 1, 2];
    // dot = 37, magnitude = isqrt(10) = 3, component = 37 / 3 = 12
    assert_eq!(a.vec_scalar_components(&b).unwrap(), 12);
    // denominator dot(b, b) = 10, scale factor 37 / 10 = 3
    assert_eq!(a.vec_projection(&b).unwrap(), vec![6, 3, 3, 6]);
}

#[test]
fn loop_scaffolding_builds_tables() {
    let doubled = single_for_loop_operation(4, |i| (i as u64) * 2);
    assert_eq!(doubled, vec![0, 2, 4, 6]);
    let table = double_for_loop_operation(2, 3, |i, j| (i + j) as u64);
    assert_eq!(table, vec![vec![0, 1, 2], vec![1, 2, 3]]);
    let none = single_for_loop_operation(0, |i| i);
    assert_eq!(none, Vec::<usize>::new());
    iter(5);
}
