use vstd::prelude::*;

verus! {

/// A field-like scalar: the element type of vectors, points and matrices.
///
/// Every arithmetic operation is paired with a spec function that names its
/// result, so each executable method is a deterministic function of its
/// arguments and nothing more is assumed of it.  Algebraic laws (commutativity,
/// associativity, and so on) are never demanded of an implementation; the
/// lemmas in `laws` state them as explicit hypotheses instead, so that a
/// caller may instantiate a scalar whose arithmetic only approximates them.
pub trait Scalar: Sized + Copy {
    /// The value of `plus`.
    spec fn plus_s(self, rhs: Self) -> Self;

    /// The value of `minus`.
    spec fn minus_s(self, rhs: Self) -> Self;

    /// The value of `times`.
    spec fn times_s(self, rhs: Self) -> Self;

    /// The value of `over`.
    spec fn over_s(self, rhs: Self) -> Self;

    /// The value of `root`.
    spec fn sqrt_s(self) -> Self;

    /// The value of `cosine`.
    spec fn cos_s(self) -> Self;

    /// The value of `sine`.
    spec fn sin_s(self) -> Self;

    /// The additive identity, the seed of every accumulating sum.
    spec fn zero_s() -> Self;

    /// Whether the value is at or above the additive identity in the
    /// scalar's own order.  Only the order-related lemmas in `laws` speak
    /// of it; no executable method does.
    spec fn is_nonneg_s(self) -> bool;

    /// Addition.
    fn plus(self, rhs: Self) -> (r: Self)
        ensures
            r == self.plus_s(rhs),
    ;

    /// Subtraction.
    fn minus(self, rhs: Self) -> (r: Self)
        ensures
            r == self.minus_s(rhs),
    ;

    /// Multiplication.
    fn times(self, rhs: Self) -> (r: Self)
        ensures
            r == self.times_s(rhs),
    ;

    /// Division.  Total: an implementation chooses what a zero divisor
    /// yields, and the vector operations reject a zero divisor before
    /// ever calling it.
    fn over(self, rhs: Self) -> (r: Self)
        ensures
            r == self.over_s(rhs),
    ;

    /// Square root.
    fn root(self) -> (r: Self)
        ensures
            r == self.sqrt_s(),
    ;

    /// Cosine of an angle in radians.
    fn cosine(self) -> (r: Self)
        ensures
            r == self.cos_s(),
    ;

    /// Sine of an angle in radians.
    fn sine(self) -> (r: Self)
        ensures
            r == self.sin_s(),
    ;

    /// The additive identity.
    fn zero() -> (r: Self)
        ensures
            r == Self::zero_s(),
    ;

    /// Whether the value equals the additive identity.
    fn is_zero(self) -> (r: bool)
        ensures
            r <==> self == Self::zero_s(),
    ;
}

/// The integer square root: the largest `r` with `r * r <= n`.
pub open spec fn isqrt_s(n: nat) -> nat
    decreases n,
{
    if n == 0 {
        0
    } else {
        let r = isqrt_s((n - 1) as nat);
        if (r + 1) * (r + 1) <= n {
            r + 1
        } else {
            r
        }
    }
}

/// `isqrt_s(n)` is the unique value whose square is at most `n` while the
/// next square is above `n`.
pub proof fn lemma_isqrt_bounds(n: nat)
    ensures
        isqrt_s(n) * isqrt_s(n) <= n,
        n < (isqrt_s(n) + 1) * (isqrt_s(n) + 1),
    decreases n,
{
    if n == 0 {
        assert(isqrt_s(0) == 0);
        assert(n < (isqrt_s(n) + 1) * (isqrt_s(n) + 1)) by (nonlinear_arith)
            requires
                n == 0,
                isqrt_s(n) == 0,
        ;
    } else {
        lemma_isqrt_bounds((n - 1) as nat);
        let r = isqrt_s((n - 1) as nat);
        if (r + 1) * (r + 1) <= n {
            assert(isqrt_s(n) == r + 1);
            assert(isqrt_s(n) * isqrt_s(n) <= n);
            assert(n <= (r + 1) * (r + 1));
            assert((r + 1) * (r + 1) < (r + 2) * (r + 2)) by (nonlinear_arith);
            assert(n < (isqrt_s(n) + 1) * (isqrt_s(n) + 1));
        } else {
            assert(isqrt_s(n) == r);
            assert(isqrt_s(n) * isqrt_s(n) <= n);
            assert(n < (isqrt_s(n) + 1) * (isqrt_s(n) + 1));
        }
    }
}

pub proof fn lemma_isqrt_unique(n: nat, r: nat)
    requires
        r * r <= n,
        n < (r + 1) * (r + 1),
    ensures
        r == isqrt_s(n),
{
    lemma_isqrt_bounds(n);
    let s = isqrt_s(n);
    if r < s {
        assert((r + 1) * (r + 1) <= s * s) by (nonlinear_arith)
            requires
                r + 1 <= s,
        ;
    }
    if s < r {
        assert((s + 1) * (s + 1) <= r * r) by (nonlinear_arith)
            requires
                s + 1 <= r,
        ;
    }
}

/// Floor of the square root of a machine word, by bisection.
fn u64_sqrt_floor(x: u64) -> (r: u64)
    ensures
        r as nat == isqrt_s(x as nat),
{
    let mut lo: u64 = 0;
    let mut hi: u64 = 0x1_0000_0000;
    while lo + 1 < hi
        invariant
            lo < hi,
            hi <= 0x1_0000_0000,
            (lo as nat) * (lo as nat) <= x as nat,
            (x as nat) < (hi as nat) * (hi as nat),
        decreases hi - lo,
    {
        let mid: u64 = lo + (hi - lo) / 2;
        proof {
            assert((mid as int) * (mid as int) <= 0x1_0000_0000 * 0x1_0000_0000)
                by (nonlinear_arith)
                requires
                    0 <= mid <= 0x1_0000_0000,
            ;
        }
        let sq: u128 = (mid as u128) * (mid as u128);
        if sq <= x as u128 {
            lo = mid;
        } else {
            hi = mid;
        }
    }
    proof {
        lemma_isqrt_unique(x as nat, lo as nat);
    }
    lo
}

/// Machine words are scalars: addition, subtraction and multiplication wrap
/// around on overflow, so every operation is total, and the square root is
/// the integer square root.  Cosine and sine are exact only at angle zero,
/// where they are one and zero; every other angle is flattened to zero.
impl Scalar for u64 {
    open spec fn plus_s(self, rhs: u64) -> u64 {
        vstd::wrapping::u64_specs::wrapping_add(self, rhs)
    }

    open spec fn minus_s(self, rhs: u64) -> u64 {
        vstd::wrapping::u64_specs::wrapping_sub(self, rhs)
    }

    open spec fn times_s(self, rhs: u64) -> u64 {
        vstd::wrapping::u64_specs::wrapping_mul(self, rhs)
    }

    open spec fn over_s(self, rhs: u64) -> u64 {
        if rhs == 0 {
            0
        } else {
            (self as int / rhs as int) as u64
        }
    }

    open spec fn sqrt_s(self) -> u64 {
        isqrt_s(self as nat) as u64
    }

    open spec fn cos_s(self) -> u64 {
        if self == 0 {
            1
        } else {
            0
        }
    }

    open spec fn sin_s(self) -> u64 {
        0
    }

    open spec fn zero_s() -> u64 {
        0
    }

    open spec fn is_nonneg_s(self) -> bool {
        true
    }

    fn plus(self, rhs: u64) -> u64 {
        self.wrapping_add(rhs)
    }

    fn minus(self, rhs: u64) -> u64 {
        self.wrapping_sub(rhs)
    }

    fn times(self, rhs: u64) -> u64 {
        self.wrapping_mul(rhs)
    }

    fn over(self, rhs: u64) -> u64 {
        if rhs == 0 {
            0
        } else {
            self / rhs
        }
    }

    fn root(self) -> (r: u64) {
        proof {
            lemma_isqrt_bounds(self as nat);
            assert(isqrt_s(self as nat) * isqrt_s(self as nat) <= u64::MAX as nat);
        }
        u64_sqrt_floor(self)
    }

    fn cosine(self) -> u64 {
        if self == 0 {
            1
        } else {
            0
        }
    }

    fn sine(self) -> u64 {
        0
    }

    fn zero() -> u64 {
        0
    }

    fn is_zero(self) -> bool {
        self == 0
    }
}

} // verus!
