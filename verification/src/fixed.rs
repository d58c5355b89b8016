//! Fixed-point arithmetic for display-space quantities.
//!
//! Coordinates and distances in display space are unsigned numbers with
//! sixteen fractional bits: the stored integer `v` stands for `v / 65536`
//! display units. All rounding is towards zero.

use vstd::prelude::*;

verus! {

/// Number of fractional bits of a display-space quantity.
pub const FRAC_BITS: u32 = 16;

/// The stored value of one display unit.
pub const ONE: u64 = 65536;

/// `r` is the square root of `n`, rounded down.
pub open spec fn is_isqrt(n: int, r: int) -> bool {
    0 <= r && r * r <= n && n < (r + 1) * (r + 1)
}

/// The square root of `n`, rounded down. Meaningful for `n >= 0`.
pub closed spec fn isqrt(n: int) -> int {
    choose|r: int| is_isqrt(n, r)
}

/// The sum of the squares of the coordinate differences of two points.
pub open spec fn dist_sq(x0: int, y0: int, x1: int, y1: int) -> int {
    (x1 - x0) * (x1 - x0) + (y1 - y0) * (y1 - y0)
}

/// The Euclidean distance between two points, rounded down to a stored value.
pub open spec fn distance_spec(x0: int, y0: int, x1: int, y1: int) -> int {
    isqrt(dist_sq(x0, y0, x1, y1))
}

/// The magnitude of the difference of two numbers.
pub open spec fn abs_diff_spec(a: int, b: int) -> int {
    if a >= b {
        a - b
    } else {
        b - a
    }
}

proof fn lemma_square_monotonic(a: int, b: int)
    by (nonlinear_arith)
    requires
        0 <= a <= b,
    ensures
        a * a <= b * b,
{
}

proof fn lemma_square_nonnegative(a: int)
    by (nonlinear_arith)
    ensures
        0 <= a * a,
        (0 - a) * (0 - a) == a * a,
{
}

proof fn lemma_isqrt_exists(n: nat)
    ensures
        exists|r: int| is_isqrt(n as int, r),
    decreases n,
{
    if n == 0 {
        assert(is_isqrt(0, 0));
    } else {
        let m: int = n - 1;
        lemma_isqrt_exists(m as nat);
        let r = choose|r: int| is_isqrt(m, r);
        if (r + 1) * (r + 1) <= n {
            assert((r + 2) * (r + 2) == (r + 1) * (r + 1) + 2 * r + 3) by (nonlinear_arith);
            assert(is_isqrt(n as int, r + 1));
        } else {
            assert(is_isqrt(n as int, r));
        }
    }
}

/// Every natural number has a rounded-down square root, and `isqrt` is it.
pub proof fn lemma_isqrt_is_root(n: int)
    requires
        0 <= n,
    ensures
        is_isqrt(n, isqrt(n)),
{
    lemma_isqrt_exists(n as nat);
}

/// The rounded-down square root is unique.
pub proof fn lemma_isqrt_unique(n: int, r: int)
    requires
        is_isqrt(n, r),
    ensures
        isqrt(n) == r,
{
    let s = isqrt(n);
    assert(is_isqrt(n, s));
    if s < r {
        lemma_square_monotonic(s + 1, r);
    } else if r < s {
        lemma_square_monotonic(r + 1, s);
    }
}

/// Two points whose coordinates stay below `2^63` have squared differences
/// that fit the 128-bit accumulator.
pub proof fn lemma_dist_sq_fits(x0: int, y0: int, x1: int, y1: int)
    requires
        0 <= x0 < 0x8000_0000_0000_0000,
        0 <= y0 < 0x8000_0000_0000_0000,
        0 <= x1 < 0x8000_0000_0000_0000,
        0 <= y1 < 0x8000_0000_0000_0000,
    ensures
        0 <= dist_sq(x0, y0, x1, y1) <= u128::MAX,
{
    let dx = abs_diff_spec(x0, x1);
    let dy = abs_diff_spec(y0, y1);
    lemma_square_nonnegative(x1 - x0);
    lemma_square_nonnegative(y1 - y0);
    assert(dx * dx == (x1 - x0) * (x1 - x0));
    assert(dy * dy == (y1 - y0) * (y1 - y0));
    lemma_square_monotonic(dx, 0x8000_0000_0000_0000);
    lemma_square_monotonic(dy, 0x8000_0000_0000_0000);
    assert(0x8000_0000_0000_0000int * 0x8000_0000_0000_0000int
        == 0x4000_0000_0000_0000_0000_0000_0000_0000int);
}

/// Computes the square root of `n`, rounded down, by bisection.
pub fn isqrt_u128(n: u128) -> (r: u64)
    ensures
        r == isqrt(n as int),
        is_isqrt(n as int, r as int),
{
    let mut lo: u64 = 0;
    let mut width: u128 = 0x1_0000_0000_0000_0000;
    assert(n < 0x1_0000_0000_0000_0000int * 0x1_0000_0000_0000_0000int);
    while width > 1
        invariant
            1 <= width <= 0x1_0000_0000_0000_0000,
            lo + width <= 0x1_0000_0000_0000_0000,
            lo * lo <= n,
            n < (lo + width) * (lo + width),
        decreases width,
    {
        let half: u128 = width / 2;
        let mid: u64 = lo + (half as u64);
        assert(mid * mid <= u128::MAX) by (nonlinear_arith)
            requires
                0 <= mid <= 0xffff_ffff_ffff_ffff,
        ;
        if (mid as u128) * (mid as u128) <= n {
            lo = mid;
            width = width - half;
        } else {
            width = half;
        }
    }
    proof {
        lemma_isqrt_unique(n as int, lo as int);
    }
    lo
}

/// Computes the magnitude of the difference of two stored values.
pub fn abs_diff(a: u64, b: u64) -> (d: u64)
    ensures
        d == abs_diff_spec(a as int, b as int),
{
    if a >= b {
        a - b
    } else {
        b - a
    }
}

/// Computes the Euclidean distance between `(x0, y0)` and `(x1, y1)`, rounded
/// down. The sum of the squared differences has to fit the 128-bit
/// accumulator.
pub fn distance(x0: u64, y0: u64, x1: u64, y1: u64) -> (d: u64)
    requires
        dist_sq(x0 as int, y0 as int, x1 as int, y1 as int) <= u128::MAX,
    ensures
        d == distance_spec(x0 as int, y0 as int, x1 as int, y1 as int),
{
    let dx: u64 = abs_diff(x0, x1);
    let dy: u64 = abs_diff(y0, y1);
    proof {
        lemma_square_nonnegative(x1 - x0);
        lemma_square_nonnegative(y1 - y0);
        lemma_square_nonnegative(dx as int);
        lemma_square_nonnegative(dy as int);
        assert(dx * dx == (x1 - x0) * (x1 - x0));
        assert(dy * dy == (y1 - y0) * (y1 - y0));
    }
    let sum: u128 = (dx as u128) * (dx as u128) + (dy as u128) * (dy as u128);
    isqrt_u128(sum)
}

} // verus!
