//! Fixed-point arithmetic shared by the tracking pipeline.
//!
//! Every real-valued quantity (a normalised coordinate, a smoothing factor, a
//! confidence, a sensitivity) is carried as an `i32` counting millionths, so
//! `ONE` stands for 1.0 and `200_000` for 0.2.

use vstd::prelude::*;

verus! {

/// The fixed-point representation of 1.0.
pub const ONE: i32 = 1_000_000;

/// Integer quotient rounded toward zero, for a positive divisor.
pub open spec fn div_toward_zero(n: int, d: int) -> int {
    if n >= 0 {
        n / d
    } else {
        -((-n) / d)
    }
}

/// Integer quotient rounded to the nearest integer, ties rounded up, for a
/// positive divisor: `floor(n / d + 1/2)`.
pub open spec fn div_nearest(n: int, d: int) -> int {
    (2 * n + d) / (2 * d)
}

/// `v` limited to the closed interval `[lo, hi]`.
pub open spec fn clamp(v: int, lo: int, hi: int) -> int {
    if v < lo {
        lo
    } else if v > hi {
        hi
    } else {
        v
    }
}

/// `v` limited to the range of `i32`.
pub open spec fn saturate(v: int) -> int {
    clamp(v, i32::MIN as int, i32::MAX as int)
}

/// Computes `div_nearest(n, d)` with machine integers.
pub fn div_round(n: i64, d: i64) -> (q: i64)
    requires
        0 < d <= 0x4000_0000,
        -0x1000_0000_0000_0000 <= n <= 0x1000_0000_0000_0000,
    ensures
        q == div_nearest(n as int, d as int),
{
    let m: i64 = 2 * n + d;
    let dd: i64 = 2 * d;
    let t: i64 = m / dd;
    if m >= 0 {
        t
    } else {
        let r: i64 = m % dd;
        proof {
            lemma_floor_of_negative(m as int, dd as int);
        }
        if r != 0 {
            t - 1
        } else {
            t
        }
    }
}

/// For a negative dividend the floor quotient lies one below the quotient
/// rounded toward zero exactly when the division leaves a remainder.
proof fn lemma_floor_of_negative(m: int, d: int)
    requires
        m < 0,
        d > 0,
    ensures
        (-m) % d == 0 ==> m / d == -((-m) / d),
        (-m) % d != 0 ==> m / d == -((-m) / d) - 1,
{
    let q = (-m) / d;
    let r = (-m) % d;
    vstd::arithmetic::div_mod::lemma_fundamental_div_mod(-m, d);
    vstd::arithmetic::div_mod::lemma_mod_bound(-m, d);
    if r == 0 {
        assert(m == (-q) * d + 0) by (nonlinear_arith)
            requires
                -m == d * q + r,
                r == 0,
        ;
        vstd::arithmetic::div_mod::lemma_fundamental_div_mod_converse(m, d, -q, 0);
    } else {
        assert(m == (-q - 1) * d + (d - r)) by (nonlinear_arith)
            requires
                -m == d * q + r,
        ;
        vstd::arithmetic::div_mod::lemma_fundamental_div_mod_converse(m, d, -q - 1, d - r);
    }
}

/// Narrows a wide integer to `i32`, saturating at the bounds.
pub fn saturate_i128(v: i128) -> (r: i32)
    ensures
        r == saturate(v as int),
{
    if v < -2147483648 {
        i32::MIN
    } else if v > 2147483647 {
        i32::MAX
    } else {
        v as i32
    }
}

} // verus!
