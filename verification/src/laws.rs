//! The algebraic laws of the operations.
//!
//! Over an abstract [`Scalar`] nothing forces the arithmetic to be
//! commutative or associative, so each law below names exactly the
//! hypotheses on the scalar it needs, as spec predicates, and proves the
//! vector- or matrix-level statement from them alone.  Exact arithmetic
//! (the `u64` instance, rationals, reals) satisfies them outright;
//! floating-point arithmetic satisfies some (commutativity of
//! multiplication) and only approximates others (associativity of
//! addition), and a caller sees from the hypotheses which is which.

use vstd::prelude::*;

use crate::model::all_zero;
use crate::model::col_s;
use crate::model::dot_prefix_s;
use crate::model::dot_s;
use crate::model::magnitude_s;
use crate::model::mat_mul_s;
use crate::model::matrix_wf;
use crate::model::sum_fn;
use crate::model::vec_add_s;
use crate::model::vec_sub_s;
use crate::scalar::Scalar;

verus! {

/// Addition of scalars is commutative.
pub open spec fn plus_commutes<T: Scalar>() -> bool {
    forall|x: T, y: T| #[trigger] x.plus_s(y) == y.plus_s(x)
}

/// Addition of scalars is associative.
pub open spec fn plus_associates<T: Scalar>() -> bool {
    forall|x: T, y: T, z: T| #[trigger] (x.plus_s(y)).plus_s(z) == x.plus_s(y.plus_s(z))
}

/// The additive identity is neutral on both sides.
pub open spec fn zero_adds<T: Scalar>() -> bool {
    (forall|x: T| #[trigger] T::zero_s().plus_s(x) == x) && (forall|x: T|
        #[trigger] x.plus_s(T::zero_s()) == x)
}

/// Multiplication of scalars is commutative.
pub open spec fn times_commutes<T: Scalar>() -> bool {
    forall|x: T, y: T| #[trigger] x.times_s(y) == y.times_s(x)
}

/// Multiplication of scalars is associative.
pub open spec fn times_associates<T: Scalar>() -> bool {
    forall|x: T, y: T, z: T| #[trigger] (x.times_s(y)).times_s(z) == x.times_s(y.times_s(z))
}

/// Multiplication distributes over addition, on both sides.
pub open spec fn times_distributes<T: Scalar>() -> bool {
    (forall|x: T, y: T, z: T|
        #[trigger] x.times_s(y.plus_s(z)) == (x.times_s(y)).plus_s(x.times_s(z))) && (forall|
        x: T,
        y: T,
        z: T,
    |
        #[trigger] (x.plus_s(y)).times_s(z) == (x.times_s(z)).plus_s(y.times_s(z)))
}

/// The additive identity annihilates under multiplication.
pub open spec fn zero_times<T: Scalar>() -> bool {
    (forall|x: T| #[trigger] T::zero_s().times_s(x) == T::zero_s()) && (forall|x: T|
        #[trigger] x.times_s(T::zero_s()) == T::zero_s())
}

/// The ring laws together: what the associativity of the matrix product
/// rests on.
pub open spec fn ring_laws<T: Scalar>() -> bool {
    plus_commutes::<T>() && plus_associates::<T>() && zero_adds::<T>() && times_associates::<T>()
        && times_distributes::<T>() && zero_times::<T>()
}

/// Adding a difference back cancels: `y + (x - y) == x`.
pub open spec fn minus_cancels<T: Scalar>() -> bool {
    forall|x: T, y: T| #[trigger] y.plus_s(x.minus_s(y)) == x
}

/// A square is at or above zero, and is zero exactly when its root value
/// is zero.
pub open spec fn squares_definite<T: Scalar>() -> bool {
    forall|x: T|
        (#[trigger] x.times_s(x)).is_nonneg_s() && (x.times_s(x) == T::zero_s() <==> x
            == T::zero_s())
}

/// A sum of two values at or above zero stays at or above zero, and is
/// zero exactly when both are.
pub open spec fn plus_definite<T: Scalar>() -> bool {
    forall|x: T, y: T|
        x.is_nonneg_s() && y.is_nonneg_s() ==> (#[trigger] x.plus_s(y)).is_nonneg_s() && (x.plus_s(
            y,
        ) == T::zero_s() <==> x == T::zero_s() && y == T::zero_s())
}

/// The additive identity is at or above zero.
pub open spec fn zero_nonneg<T: Scalar>() -> bool {
    T::zero_s().is_nonneg_s()
}

/// On values at or above zero, the square root stays at or above zero and
/// is zero exactly at zero.
pub open spec fn sqrt_definite<T: Scalar>() -> bool {
    forall|x: T|
        x.is_nonneg_s() ==> (#[trigger] x.sqrt_s()).is_nonneg_s() && (x.sqrt_s() == T::zero_s()
            <==> x == T::zero_s())
}

/// A dot-product prefix is the accumulating sum of its terms.
pub proof fn lemma_dot_is_sum_fn<T: Scalar>(a: Seq<T>, b: Seq<T>, n: int, f: spec_fn(int) -> T)
    requires
        forall|i: int| 0 <= i < n ==> #[trigger] f(i) == a[i].times_s(b[i]),
    ensures
        dot_prefix_s(a, b, n) == sum_fn(n, f),
    decreases n,
{
    if n > 0 {
        lemma_dot_is_sum_fn(a, b, n - 1, f);
    }
}

/// A constant multiplied onto an accumulating sum from the left
/// distributes over every term.
pub proof fn lemma_sum_fn_times_left<T: Scalar>(
    n: int,
    c: T,
    f: spec_fn(int) -> T,
    g: spec_fn(int) -> T,
)
    requires
        times_distributes::<T>(),
        zero_times::<T>(),
        forall|i: int| 0 <= i < n ==> #[trigger] g(i) == c.times_s(f(i)),
    ensures
        c.times_s(sum_fn(n, f)) == sum_fn(n, g),
    decreases n,
{
    if n > 0 {
        lemma_sum_fn_times_left(n - 1, c, f, g);
    }
}

/// A constant multiplied onto an accumulating sum from the right
/// distributes over every term.
pub proof fn lemma_sum_fn_times_right<T: Scalar>(
    n: int,
    c: T,
    f: spec_fn(int) -> T,
    g: spec_fn(int) -> T,
)
    requires
        times_distributes::<T>(),
        zero_times::<T>(),
        forall|i: int| 0 <= i < n ==> #[trigger] g(i) == f(i).times_s(c),
    ensures
        (sum_fn(n, f)).times_s(c) == sum_fn(n, g),
    decreases n,
{
    if n > 0 {
        lemma_sum_fn_times_right(n - 1, c, f, g);
    }
}

/// Law: the dot product is commutative.  For all vectors of equal nonzero
/// length, `dot(a, b) == dot(b, a)`, whenever the scalar's multiplication
/// commutes.
pub proof fn lemma_dot_commutative<T: Scalar>(a: Seq<T>, b: Seq<T>)
    requires
        times_commutes::<T>(),
        a.len() == b.len(),
        a.len() > 0,
    ensures
        dot_s(a, b) == dot_s(b, a),
{
    lemma_dot_prefix_commutative(a, b, a.len() as int);
}

proof fn lemma_dot_prefix_commutative<T: Scalar>(a: Seq<T>, b: Seq<T>, n: int)
    requires
        times_commutes::<T>(),
    ensures
        dot_prefix_s(a, b, n) == dot_prefix_s(b, a, n),
    decreases n,
{
    if n > 0 {
        lemma_dot_prefix_commutative(a, b, n - 1);
    }
}

proof fn lemma_sum_squares_definite<T: Scalar>(v: Seq<T>, n: int)
    requires
        squares_definite::<T>(),
        plus_definite::<T>(),
        zero_nonneg::<T>(),
        0 <= n <= v.len(),
    ensures
        dot_prefix_s(v, v, n).is_nonneg_s(),
        dot_prefix_s(v, v, n) == T::zero_s() <==> (forall|i: int|
            0 <= i < n ==> v[i] == T::zero_s()),
    decreases n,
{
    if n > 0 {
        lemma_sum_squares_definite(v, n - 1);
    }
}

/// Law: the magnitude is positive definite.  For every vector,
/// `magnitude(v)` is at or above zero, and is zero exactly when every
/// element of `v` is zero, whenever squares, sums of non-negatives and the
/// square root are definite in the scalar.
pub proof fn lemma_magnitude_positive_definite<T: Scalar>(v: Seq<T>)
    requires
        squares_definite::<T>(),
        plus_definite::<T>(),
        zero_nonneg::<T>(),
        sqrt_definite::<T>(),
    ensures
        magnitude_s(v).is_nonneg_s(),
        magnitude_s(v) == T::zero_s() <==> all_zero(v),
{
    lemma_sum_squares_definite(v, v.len() as int);
}

/// Law: vector addition is associative.  For all vectors of equal length,
/// `add(add(a, b), c) == add(a, add(b, c))`, whenever the scalar's
/// addition associates.
pub proof fn lemma_vec_add_associative<T: Scalar>(a: Seq<T>, b: Seq<T>, c: Seq<T>)
    requires
        plus_associates::<T>(),
        a.len() == b.len(),
        b.len() == c.len(),
    ensures
        vec_add_s(vec_add_s(a, b), c) == vec_add_s(a, vec_add_s(b, c)),
{
    assert(vec_add_s(vec_add_s(a, b), c) =~= vec_add_s(a, vec_add_s(b, c)));
}

/// The accumulating sum of `h(k, 0) + ... + h(k, m - 1)`: row `k` of a
/// doubly indexed family summed along the second index.
spec fn row_sum_fn<T: Scalar>(m: int, h: spec_fn(int, int) -> T, k: int) -> T
    decreases m,
{
    if m <= 0 {
        T::zero_s()
    } else {
        row_sum_fn(m - 1, h, k).plus_s(h(k, m - 1))
    }
}

/// The accumulating double sum: rows `0 .. n` of `h`, each summed along
/// `0 .. m`, added up in order.
spec fn sum2_fn<T: Scalar>(n: int, m: int, h: spec_fn(int, int) -> T) -> T
    decreases n,
{
    if n <= 0 {
        T::zero_s()
    } else {
        sum2_fn(n - 1, m, h).plus_s(row_sum_fn(m, h, n - 1))
    }
}

/// The same family indexed the other way round.
spec fn flip_fn<T>(h: spec_fn(int, int) -> T) -> spec_fn(int, int) -> T {
    |l: int, k: int| h(k, l)
}

proof fn lemma_row_sum_congruent<T: Scalar>(
    m: int,
    g1: spec_fn(int, int) -> T,
    g2: spec_fn(int, int) -> T,
    k: int,
)
    requires
        forall|l: int| 0 <= l < m ==> #[trigger] g1(k, l) == g2(k, l),
    ensures
        row_sum_fn(m, g1, k) == row_sum_fn(m, g2, k),
    decreases m,
{
    if m > 0 {
        lemma_row_sum_congruent(m - 1, g1, g2, k);
    }
}

proof fn lemma_sum2_congruent<T: Scalar>(
    n: int,
    m: int,
    g1: spec_fn(int, int) -> T,
    g2: spec_fn(int, int) -> T,
)
    requires
        forall|k: int, l: int| 0 <= k < n && 0 <= l < m ==> #[trigger] g1(k, l) == g2(k, l),
    ensures
        sum2_fn(n, m, g1) == sum2_fn(n, m, g2),
    decreases n,
{
    if n > 0 {
        lemma_sum2_congruent(n - 1, m, g1, g2);
        lemma_row_sum_congruent(m, g1, g2, n - 1);
    }
}

proof fn lemma_row_sum_is_sum<T: Scalar>(
    m: int,
    h: spec_fn(int, int) -> T,
    k: int,
    f: spec_fn(int) -> T,
)
    requires
        forall|l: int| 0 <= l < m ==> #[trigger] f(l) == h(k, l),
    ensures
        row_sum_fn(m, h, k) == sum_fn(m, f),
    decreases m,
{
    if m > 0 {
        lemma_row_sum_is_sum(m - 1, h, k, f);
    }
}

proof fn lemma_sum2_is_sum<T: Scalar>(
    n: int,
    m: int,
    h: spec_fn(int, int) -> T,
    f: spec_fn(int) -> T,
)
    requires
        forall|k: int| 0 <= k < n ==> #[trigger] f(k) == row_sum_fn(m, h, k),
    ensures
        sum2_fn(n, m, h) == sum_fn(n, f),
    decreases n,
{
    if n > 0 {
        lemma_sum2_is_sum(n - 1, m, h, f);
    }
}

proof fn lemma_sum2_no_columns<T: Scalar>(n: int, m: int, h: spec_fn(int, int) -> T)
    requires
        zero_adds::<T>(),
        m <= 0,
    ensures
        sum2_fn(n, m, h) == T::zero_s(),
    decreases n,
{
    if n > 0 {
        lemma_sum2_no_columns(n - 1, m, h);
    }
}

/// Peeling the last column off a double sum: summing `n` columns is
/// summing `n - 1` columns, then adding the column `n - 1` summed on its
/// own.
proof fn lemma_sum2_peel_column<T: Scalar>(m: int, n: int, g: spec_fn(int, int) -> T)
    requires
        plus_commutes::<T>(),
        plus_associates::<T>(),
        zero_adds::<T>(),
        n >= 1,
    ensures
        sum2_fn(m, n, g) == sum2_fn(m, n - 1, g).plus_s(row_sum_fn(m, flip_fn(g), n - 1)),
    decreases m,
{
    if m <= 0 {
        assert(T::zero_s().plus_s(T::zero_s()) == T::zero_s());
    } else {
        lemma_sum2_peel_column(m - 1, n, g);
        let sp = sum2_fn(m - 1, n - 1, g);
        let cp = row_sum_fn(m - 1, flip_fn(g), n - 1);
        let rl = row_sum_fn(n - 1, g, m - 1);
        let gl = g(m - 1, n - 1);
        // sum2_fn(m, n, g) == (sp + cp) + (rl + gl); goal: (sp + rl) + (cp + gl)
        assert(row_sum_fn(n, g, m - 1) == rl.plus_s(gl));
        assert(flip_fn(g)(n - 1, m - 1) == gl);
        assert((sp.plus_s(cp)).plus_s(rl.plus_s(gl)) == sp.plus_s(cp.plus_s(rl.plus_s(gl))));
        assert(cp.plus_s(rl.plus_s(gl)) == (cp.plus_s(rl)).plus_s(gl));
        assert(cp.plus_s(rl) == rl.plus_s(cp));
        assert((rl.plus_s(cp)).plus_s(gl) == rl.plus_s(cp.plus_s(gl)));
        assert(sp.plus_s(rl.plus_s(cp.plus_s(gl))) == (sp.plus_s(rl)).plus_s(cp.plus_s(gl)));
    }
}

/// The double sum is the same whichever index runs first.
proof fn lemma_sum2_swap<T: Scalar>(n: int, m: int, h: spec_fn(int, int) -> T)
    requires
        plus_commutes::<T>(),
        plus_associates::<T>(),
        zero_adds::<T>(),
    ensures
        sum2_fn(n, m, h) == sum2_fn(m, n, flip_fn(h)),
    decreases n,
{
    if n <= 0 {
        lemma_sum2_no_columns(m, n, flip_fn(h));
    } else {
        lemma_sum2_swap(n - 1, m, h);
        lemma_sum2_peel_column(m, n, flip_fn(h));
        // row n - 1 of h is column n - 1 of flip(h)
        lemma_row_sum_congruent(m, flip_fn(flip_fn(h)), h, n - 1);
    }
}

proof fn lemma_mat_mul_assoc_entry<T: Scalar>(
    a: Seq<Seq<T>>,
    b: Seq<Seq<T>>,
    c: Seq<Seq<T>>,
    i: int,
    j: int,
)
    requires
        ring_laws::<T>(),
        matrix_wf(a),
        matrix_wf(b),
        matrix_wf(c),
        a[0].len() == b.len(),
        b[0].len() == c.len(),
        0 <= i < a.len(),
        0 <= j < c[0].len(),
    ensures
        dot_s(mat_mul_s(a, b)[i], col_s(c, j)) == dot_s(a[i], col_s(mat_mul_s(b, c), j)),
{
    let n = b.len() as int;
    let p = c.len() as int;
    let ab = mat_mul_s(a, b);
    let bc = mat_mul_s(b, c);
    let ai = a[i];
    let h = |k: int, l: int| (a[i][l].times_s(b[l][k])).times_s(c[k][j]);
    let h2 = |l: int, k: int| a[i][l].times_s(b[l][k].times_s(c[k][j]));

    assert(ai.len() == n);
    assert(ab[i].len() == p);
    assert(col_s(c, j).len() == p);

    // The left side is the double sum of h, columns inside rows.
    let f_left = |k: int| ab[i][k].times_s(col_s(c, j)[k]);
    lemma_dot_is_sum_fn(ab[i], col_s(c, j), p, f_left);
    assert forall|k: int| 0 <= k < p implies f_left(k) == row_sum_fn(n, h, k) by {
        assert(ab[i][k] == dot_s(ai, col_s(b, k)));
        let gk = |l: int| ai[l].times_s(col_s(b, k)[l]);
        lemma_dot_is_sum_fn(ai, col_s(b, k), n, gk);
        let gk2 = |l: int| (ai[l].times_s(b[l][k])).times_s(c[k][j]);
        lemma_sum_fn_times_right(n, c[k][j], gk, gk2);
        lemma_row_sum_is_sum(n, h, k, gk2);
    }
    lemma_sum2_is_sum(p, n, h, f_left);
    assert(dot_s(ab[i], col_s(c, j)) == sum2_fn(p, n, h));

    // Swap the two indices, then reassociate each term.
    lemma_sum2_swap(p, n, h);
    lemma_sum2_congruent(n, p, flip_fn(h), h2);
    assert(dot_s(ab[i], col_s(c, j)) == sum2_fn(n, p, h2));

    // The right side is the same double sum, rows inside columns.
    let f_right = |l: int| ai[l].times_s(col_s(bc, j)[l]);
    assert(col_s(bc, j).len() == n);
    lemma_dot_is_sum_fn(ai, col_s(bc, j), n, f_right);
    assert forall|l: int| 0 <= l < n implies f_right(l) == row_sum_fn(p, h2, l) by {
        assert(col_s(bc, j)[l] == bc[l][j]);
        assert(bc[l][j] == dot_s(b[l], col_s(c, j)));
        assert(b[l].len() == p);
        let gl = |k: int| b[l][k].times_s(col_s(c, j)[k]);
        lemma_dot_is_sum_fn(b[l], col_s(c, j), p, gl);
        let gl2 = |k: int| ai[l].times_s(b[l][k].times_s(c[k][j]));
        lemma_sum_fn_times_left(p, ai[l], gl, gl2);
        lemma_row_sum_is_sum(p, h2, l, gl2);
    }
    lemma_sum2_is_sum(n, p, h2, f_right);
}

/// Law: the matrix product is associative.  For all well-formed matrices
/// of chained shapes `m by n`, `n by p` and `p by q`,
/// `(A B) C == A (B C)`, whenever the scalar satisfies the ring laws.
pub proof fn lemma_matrix_multiply_associative<T: Scalar>(
    a: Seq<Seq<T>>,
    b: Seq<Seq<T>>,
    c: Seq<Seq<T>>,
)
    requires
        ring_laws::<T>(),
        matrix_wf(a),
        matrix_wf(b),
        matrix_wf(c),
        a[0].len() == b.len(),
        b[0].len() == c.len(),
    ensures
        mat_mul_s(mat_mul_s(a, b), c) == mat_mul_s(a, mat_mul_s(b, c)),
{
    let ab = mat_mul_s(a, b);
    let bc = mat_mul_s(b, c);
    let lhs = mat_mul_s(ab, c);
    let rhs = mat_mul_s(a, bc);
    assert(bc[0].len() == c[0].len());
    assert forall|i: int| 0 <= i < a.len() implies lhs[i] =~= rhs[i] by {
        assert forall|j: int| 0 <= j < c[0].len() implies lhs[i][j] == rhs[i][j] by {
            lemma_mat_mul_assoc_entry(a, b, c, i, j);
        }
    }
    assert(lhs =~= rhs);
}

/// Law: translating by a subtraction is a round trip.  For all points of
/// equal nonzero length, translating `q` by the displacement `p - q`
/// returns `p`, whenever adding a difference back cancels in the scalar.
pub proof fn lemma_translate_subtract_roundtrip<T: Scalar>(p: Seq<T>, q: Seq<T>)
    requires
        minus_cancels::<T>(),
        p.len() == q.len(),
        p.len() > 0,
    ensures
        vec_add_s(q, vec_sub_s(p, q)) == p,
{
    assert(vec_add_s(q, vec_sub_s(p, q)) =~= p);
}

/// The machine-word scalar satisfies the ring laws exactly: its wrapping
/// addition and multiplication are the ring of integers modulo `2^64`, so
/// the commutativity of the dot product, the associativity of vector
/// addition and of the matrix product, and the translation round trip all
/// hold of it without approximation.
pub proof fn lemma_u64_scalar_laws()
    ensures
        ring_laws::<u64>(),
        times_commutes::<u64>(),
        minus_cancels::<u64>(),
{
    let m: int = 0x1_0000_0000_0000_0000;
    assert forall|x: u64, y: u64| #[trigger] x.times_s(y) == y.times_s(x) by {
        assert(x as int * y as int == y as int * x as int) by (nonlinear_arith);
    }
    assert forall|x: u64, y: u64, z: u64|
        #[trigger] (x.times_s(y)).times_s(z) == x.times_s(y.times_s(z)) by {
        let a = x as int;
        let b = y as int;
        let c = z as int;
        assert((x.times_s(y)) as int == (a * b) % m);
        assert((y.times_s(z)) as int == (b * c) % m);
        vstd::arithmetic::div_mod::lemma_mul_mod_noop_left(a * b, c, m);
        vstd::arithmetic::div_mod::lemma_mul_mod_noop_right(a, b * c, m);
        assert((a * b) * c == a * (b * c)) by (nonlinear_arith);
    }
    assert forall|x: u64, y: u64, z: u64|
        #[trigger] x.times_s(y.plus_s(z)) == (x.times_s(y)).plus_s(x.times_s(z)) by {
        let a = x as int;
        let b = y as int;
        let c = z as int;
        assert((y.plus_s(z)) as int == (b + c) % m);
        vstd::arithmetic::div_mod::lemma_mul_mod_noop_right(a, b + c, m);
        assert(a * (b + c) == a * b + a * c) by (nonlinear_arith);
        vstd::arithmetic::div_mod::lemma_add_mod_noop(a * b, a * c, m);
        assert(((x.times_s(y)) as int + (x.times_s(z)) as int) % m == (a * b + a * c) % m);
    }
    assert forall|x: u64, y: u64, z: u64|
        #[trigger] (x.plus_s(y)).times_s(z) == (x.times_s(z)).plus_s(y.times_s(z)) by {
        let a = x as int;
        let b = y as int;
        let c = z as int;
        assert((x.plus_s(y)) as int == (a + b) % m);
        vstd::arithmetic::div_mod::lemma_mul_mod_noop_left(a + b, c, m);
        assert((a + b) * c == a * c + b * c) by (nonlinear_arith);
        vstd::arithmetic::div_mod::lemma_add_mod_noop(a * c, b * c, m);
        assert(((x.times_s(z)) as int + (y.times_s(z)) as int) % m == (a * c + b * c) % m);
    }
    assert forall|x: u64| #[trigger] u64::zero_s().times_s(x) == u64::zero_s() by {
        assert(0 as int * x as int == 0) by (nonlinear_arith);
    }
    assert forall|x: u64| #[trigger] x.times_s(u64::zero_s()) == u64::zero_s() by {
        assert(x as int * 0 as int == 0) by (nonlinear_arith);
    }
}

} // verus!
