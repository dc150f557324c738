//! Fixed-point helpers. A real number `x` is carried as the integer
//! `x * FX_ONE`, rounded toward negative infinity.

use vstd::prelude::*;
use vstd::arithmetic::div_mod::{
    lemma_div_is_ordered, lemma_div_multiples_vanish, lemma_fundamental_div_mod,
    lemma_fundamental_div_mod_converse,
};

verus! {

/// The integer that stands for 1.0.
pub const FX_ONE: i64 = 65536;

/// `v` divided by `d`, rounded toward negative infinity (the meaning of `/`
/// in specifications when `d > 0`).
pub fn floor_div(v: i128, d: i128) -> (q: i128)
    requires
        d > 0,
        v > i128::MIN,
    ensures
        q == v / d,
{
    if v >= 0 {
        v / d
    } else {
        let u: i128 = -v - 1;
        let k: i128 = u / d;
        proof {
            lemma_fundamental_div_mod(u as int, d as int);
            let r = u % d;
            // v == d * (-k - 1) + (d - 1 - r), with 0 <= d - 1 - r < d
            assert(v == d * (-k - 1) + (d - 1 - r)) by (nonlinear_arith)
                requires
                    u == d * k + r,
                    v == -u - 1,
            ;
            lemma_fundamental_div_mod_converse(v as int, d as int, -k - 1, d - 1 - r);
        }
        -k - 1
    }
}

/// The integer `x` clamped into `0 ..= 255`.
pub open spec fn clamp_channel(x: int) -> int {
    if x < 0 {
        0
    } else if x > 255 {
        255
    } else {
        x
    }
}

/// Clamps `x` into the range of one colour channel.
pub fn to_channel(x: i128) -> (r: u8)
    ensures
        r as int == clamp_channel(x as int),
{
    if x < 0 {
        0
    } else if x > 255 {
        255
    } else {
        x as u8
    }
}

/// `r` is the integer square root of `y`: the largest `r` with `r * r <= y`.
pub open spec fn is_sqrt_floor(y: int, r: int) -> bool {
    0 <= r && r * r <= y && y < (r + 1) * (r + 1)
}

/// The integer square root of `y`, for `y >= 0`.
pub open spec fn sqrt_floor(y: int) -> int {
    choose|r: int| #[trigger] is_sqrt_floor(y, r)
}

proof fn lemma_sqrt_unique(y: int, r: int)
    requires
        0 <= r,
        r * r <= y,
        y < (r + 1) * (r + 1),
    ensures
        sqrt_floor(y) == r,
{
    assert(is_sqrt_floor(y, r));
    let s = sqrt_floor(y);
    assert(is_sqrt_floor(y, s));
    assert(0 <= s && s * s <= y && y < (s + 1) * (s + 1));
    if s < r {
        assert((s + 1) * (s + 1) <= r * r) by (nonlinear_arith)
            requires
                0 <= s < r,
        ;
    } else if s > r {
        assert((r + 1) * (r + 1) <= s * s) by (nonlinear_arith)
            requires
                0 <= r < s,
        ;
    }
}

/// Integer square root by bisection.
pub fn isqrt(y: u64) -> (r: u64)
    ensures
        r as int == sqrt_floor(y as int),
        r * r <= y,
{
    let mut lo: u128 = 0;
    let mut hi: u128 = 0x1_0000_0000;
    assert(y < hi * hi);
    while hi - lo > 1
        invariant
            lo < hi <= 0x1_0000_0000,
            lo * lo <= y,
            y < hi * hi,
        decreases hi - lo,
    {
        let mid: u128 = lo + (hi - lo) / 2;
        assert(mid * mid <= 0x1_0000_0000 * 0x1_0000_0000) by (nonlinear_arith)
            requires
                mid <= 0x1_0000_0000,
        ;
        if mid * mid <= y as u128 {
            lo = mid;
        } else {
            hi = mid;
        }
    }
    proof {
        lemma_sqrt_unique(y as int, lo as int);
    }
    lo as u64
}

/// `(x + 1) / 2` in fixed point: maps `[-1, 1]` onto `[0, 1]`.
pub open spec fn remap(x: int) -> int {
    (x + FX_ONE) / 2
}

/// `x * x` in fixed point.
pub open spec fn fx_square(x: int) -> int {
    (x * x) / (FX_ONE as int)
}

/// `x * x * x` in fixed point.
pub open spec fn fx_cube(x: int) -> int {
    (x * x * x) / (FX_ONE * FX_ONE)
}

/// `x * y` in fixed point.
pub open spec fn fx_mul(x: int, y: int) -> int {
    (x * y) / (FX_ONE as int)
}

/// `x` to the power 1.5 in fixed point, `x * sqrt(x)`; 0 where `x <= 0`.
pub open spec fn fx_pow_three_halves(x: int) -> int {
    if x <= 0 {
        0
    } else {
        (x * sqrt_floor(x * FX_ONE)) / (FX_ONE as int)
    }
}

/// Bounds on a quotient from bounds on the dividend.
pub proof fn lemma_div_range(v: int, d: int, lo: int, hi: int)
    requires
        d > 0,
        lo * d <= v <= hi * d,
    ensures
        lo <= v / d <= hi,
{
    lemma_div_is_ordered(lo * d, v, d);
    lemma_div_is_ordered(v, hi * d, d);
    lemma_div_multiples_vanish(lo, d);
    lemma_div_multiples_vanish(hi, d);
    assert(d * lo == lo * d && d * hi == hi * d) by (nonlinear_arith);
}

pub proof fn lemma_mul_range(x: int, y: int, bx: int, by: int)
    requires
        -bx <= x <= bx,
        -by <= y <= by,
    ensures
        -(bx * by) <= x * y <= bx * by,
{
    assert(-(bx * by) <= x * y <= bx * by) by (nonlinear_arith)
        requires
            -bx <= x <= bx,
            -by <= y <= by,
    ;
}

proof fn lemma_square_monotone(r: int, b: int)
    requires
        0 <= b < r,
    ensures
        b * b < r * r,
{
    assert(b * b < r * r) by (nonlinear_arith)
        requires
            0 <= b < r,
    ;
}

/// Computes `remap`.
pub fn remap_exec(x: i64) -> (r: i64)
    requires
        -0x4000_0000_0000_0000 <= x <= 0x4000_0000_0000_0000,
    ensures
        r == remap(x as int),
        -0x4000_0000_0000_0000 <= r <= 0x4000_0000_0000_0000,
        -0x8000_0000 <= x <= 0x8000_0000 ==> -0x8000_0000 <= r <= 0x8000_0000,
{
    let v: i128 = x as i128 + FX_ONE as i128;
    let q = floor_div(v, 2);
    proof {
        lemma_div_range(v as int, 2, -0x4000_0000_0000_0000, 0x4000_0000_0000_0000);
        if -0x8000_0000 <= x <= 0x8000_0000 {
            lemma_div_range(v as int, 2, -0x8000_0000, 0x8000_0000);
        }
    }
    q as i64
}

/// Computes `fx_square` on a value of at most 32768.0 in magnitude.
pub fn square_exec(x: i64) -> (r: i64)
    requires
        -0x8000_0000 <= x <= 0x8000_0000,
    ensures
        r == fx_square(x as int),
        0 <= r <= 0x4000_0000_0000,
{
    proof {
        lemma_mul_range(x as int, x as int, 0x8000_0000, 0x8000_0000);
        assert(0 <= x * x) by (nonlinear_arith);
    }
    let v: i128 = x as i128 * x as i128;
    proof {
        lemma_div_range(v as int, 65536, 0, 0x4000_0000_0000);
    }
    let q = floor_div(v, FX_ONE as i128);
    q as i64
}

/// Computes `fx_cube` on a value of at most 32768.0 in magnitude.
pub fn cube_exec(x: i64) -> (r: i64)
    requires
        -0x8000_0000 <= x <= 0x8000_0000,
    ensures
        r == fx_cube(x as int),
{
    proof {
        lemma_mul_range(x as int, x as int, 0x8000_0000, 0x8000_0000);
    }
    let x2: i128 = x as i128 * x as i128;
    proof {
        lemma_mul_range(x2 as int, x as int, 0x4000_0000_0000_0000, 0x8000_0000);
    }
    let v: i128 = x2 * x as i128;
    let d: i128 = 0x1_0000_0000;
    proof {
        lemma_div_range(v as int, d as int, -0x2000_0000_0000_0000, 0x2000_0000_0000_0000);
    }
    let q = floor_div(v, d);
    q as i64
}

/// Computes `fx_mul` on values of at most 32768.0 in magnitude.
pub fn mul_exec(x: i64, y: i64) -> (r: i64)
    requires
        -0x8000_0000 <= x <= 0x8000_0000,
        -0x8000_0000 <= y <= 0x8000_0000,
    ensures
        r == fx_mul(x as int, y as int),
{
    proof {
        lemma_mul_range(x as int, y as int, 0x8000_0000, 0x8000_0000);
    }
    let v: i128 = x as i128 * y as i128;
    proof {
        lemma_div_range(v as int, 65536, -0x4000_0000_0000, 0x4000_0000_0000);
    }
    let q = floor_div(v, FX_ONE as i128);
    q as i64
}

/// Computes `fx_pow_three_halves`.
pub fn pow_three_halves_exec(x: i64) -> (r: i64)
    requires
        x <= 0x4000_0000_0000,
    ensures
        r == fx_pow_three_halves(x as int),
{
    if x <= 0 {
        0
    } else {
        proof {
            lemma_mul_range(x as int, 65536, 0x4000_0000_0000, 65536);
        }
        let y: u64 = x as u64 * FX_ONE as u64;
        let root = isqrt(y);
        proof {
            if root > 0x8000_0000 {
                lemma_square_monotone(root as int, 0x8000_0000);
            }
        }
        proof {
            lemma_mul_range(x as int, root as int, 0x4000_0000_0000, 0x8000_0000);
            assert(0 <= x * root) by (nonlinear_arith)
                requires
                    0 < x,
                    0 <= root,
            ;
        }
        let v: i128 = x as i128 * root as i128;
        proof {
            lemma_div_range(v as int, 65536, 0, 0x2000_0000_0000_0000);
        }
        let q = floor_div(v, FX_ONE as i128);
        q as i64
    }
}

} // verus!
