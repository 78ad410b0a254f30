//! Small integer helpers shared by the simulation: clamping, saturating
//! addition, and truncating division as the physics uses it.

use vstd::prelude::*;

verus! {

/// The smaller of two integers.
pub open spec fn imin(a: int, b: int) -> int {
    if a <= b {
        a
    } else {
        b
    }
}

/// The larger of two integers.
pub open spec fn imax(a: int, b: int) -> int {
    if a >= b {
        a
    } else {
        b
    }
}

/// `v` forced into `[lo, hi]`.
pub open spec fn iclamp(v: int, lo: int, hi: int) -> int {
    imin(imax(v, lo), hi)
}

/// Magnitude of an integer.
pub open spec fn iabs(a: int) -> int {
    if a >= 0 {
        a
    } else {
        -a
    }
}

/// Division that truncates toward zero, for a positive divisor. On
/// non-negative dividends it agrees with the mathematical `/` of
/// specifications; on negative dividends it rounds toward zero instead of
/// down.
pub open spec fn sdiv(a: int, d: int) -> int {
    if a >= 0 {
        a / d
    } else {
        -((-a) / d)
    }
}

/// Executable form of `imin`.
pub fn min_i64(a: i64, b: i64) -> (r: i64)
    ensures
        r == imin(a as int, b as int),
{
    if a <= b {
        a
    } else {
        b
    }
}

/// Executable form of `imax`.
pub fn max_i64(a: i64, b: i64) -> (r: i64)
    ensures
        r == imax(a as int, b as int),
{
    if a >= b {
        a
    } else {
        b
    }
}

/// Executable form of `iclamp`.
pub fn clamp_i64(v: i64, lo: i64, hi: i64) -> (r: i64)
    requires
        lo <= hi,
    ensures
        r == iclamp(v as int, lo as int, hi as int),
        lo <= r <= hi,
{
    if v < lo {
        lo
    } else if v > hi {
        hi
    } else {
        v
    }
}

/// Quotient of two non-negative integers.
pub fn div_pos(a: i64, d: i64) -> (q: i64)
    requires
        0 <= a,
        1 <= d,
    ensures
        q == a as int / d as int,
        0 <= q <= a,
{
    proof {
        vstd::arithmetic::div_mod::lemma_div_nonincreasing(a as int, d as int);
        vstd::arithmetic::div_mod::lemma_div_pos_is_pos(a as int, d as int);
    }
    ((a as u64) / (d as u64)) as i64
}

/// `(v * m) / d` with truncation toward zero, for a signed `v`.
pub fn mul_div_trunc(v: i64, m: i64, d: i64) -> (r: i64)
    requires
        i64::MIN < v,
        0 <= m,
        1 <= d,
        iabs(v as int) * m <= i64::MAX,
    ensures
        r == sdiv(v as int * m as int, d as int),
        iabs(r as int) <= iabs(v as int) * m,
{
    proof {
        vstd::arithmetic::mul::lemma_mul_nonnegative(iabs(v as int), m as int);
    }
    if v >= 0 {
        div_pos(v * m, d)
    } else {
        proof {
            assert((-(v as int)) * (m as int) == -(v as int * m as int))
                by (nonlinear_arith);
        }
        let neg: i64 = -v;
        let q: i64 = div_pos(neg * m, d);
        -q
    }
}

/// `a + b` capped at `cap`.
pub fn sat_add_i64(a: i64, b: i64, cap: i64) -> (r: i64)
    requires
        0 <= a <= cap,
        0 <= b,
        cap <= i64::MAX - b,
    ensures
        r == imin(a + b, cap as int),
        0 <= r <= cap,
{
    if a + b >= cap {
        cap
    } else {
        a + b
    }
}

} // verus!
