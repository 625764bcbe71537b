//! Fixed-point scalars.
//!
//! A scalar is an `i64` that stands for `v / ONE` world units. Every
//! operation saturates at `±BIG`, the way floating point runs off to
//! infinity, so no operation can overflow.
use vstd::prelude::*;

verus! {

/// Raw units per world unit.
pub const ONE: i64 = 1_000_000;

/// The largest magnitude a scalar takes (2^40 raw units).
pub const BIG: i64 = 1_099_511_627_776;

pub open spec fn in_range(v: int) -> bool {
    -BIG <= v <= BIG
}

/// Clamps into `[-BIG, BIG]`.
pub open spec fn sat(v: int) -> int {
    if v > BIG {
        BIG as int
    } else if v < -BIG {
        -BIG
    } else {
        v
    }
}

/// Division of `n` by a positive `d`, rounding toward zero.
pub open spec fn div_trunc(n: int, d: int) -> int {
    if n >= 0 {
        n / d
    } else {
        -((-n) / d)
    }
}

pub open spec fn add_spec(a: int, b: int) -> int {
    sat(a + b)
}

pub open spec fn sub_spec(a: int, b: int) -> int {
    sat(a - b)
}

pub open spec fn mul_spec(a: int, b: int) -> int {
    sat(div_trunc(a * b, ONE as int))
}

/// Quotient `a / b`; a zero divisor gives `±BIG` by the sign of `a`
/// (and zero for `0 / 0`).
pub open spec fn div_spec(a: int, b: int) -> int {
    if b == 0 {
        if a > 0 {
            BIG as int
        } else if a < 0 {
            -BIG
        } else {
            0
        }
    } else if b > 0 {
        sat(div_trunc(a * ONE, b))
    } else {
        sat(div_trunc(-a * ONE, -b))
    }
}

pub open spec fn clamp_spec(v: int, lo: int, hi: int) -> int {
    if v < lo {
        lo
    } else if v > hi {
        hi
    } else {
        v
    }
}

pub open spec fn max_spec(a: int, b: int) -> int {
    if a >= b {
        a
    } else {
        b
    }
}

pub open spec fn min_spec(a: int, b: int) -> int {
    if a <= b {
        a
    } else {
        b
    }
}

/// Integer square root: the largest `r` with `r * r <= n`.
pub open spec fn is_isqrt(n: int, r: int) -> bool {
    0 <= r && r * r <= n < (r + 1) * (r + 1)
}

/// The integer square root of a nonnegative `n`.
pub open spec fn sqrt_floor(n: int) -> int {
    choose|r: int| is_isqrt(n, r)
}

proof fn lemma_isqrt_unique(n: int, r1: int, r2: int)
    requires
        is_isqrt(n, r1),
        is_isqrt(n, r2),
    ensures
        r1 == r2,
{
    if r1 < r2 {
        assert((r1 + 1) * (r1 + 1) <= r2 * r2) by (nonlinear_arith)
            requires
                0 <= r1 < r2,
        ;
    } else if r2 < r1 {
        assert((r2 + 1) * (r2 + 1) <= r1 * r1) by (nonlinear_arith)
            requires
                0 <= r2 < r1,
        ;
    }
}

proof fn lemma_i64_product_fits(a: i64, b: i64)
    ensures
        -0x4000_0000_0000_0000_0000_0000_0000_0000 <= (a as int) * (b as int)
            <= 0x4000_0000_0000_0000_0000_0000_0000_0000,
{
    assert(-0x4000_0000_0000_0000_0000_0000_0000_0000 <= (a as int) * (b as int)
        <= 0x4000_0000_0000_0000_0000_0000_0000_0000) by (nonlinear_arith)
        requires
            -0x8000_0000_0000_0000 <= a <= 0x7fff_ffff_ffff_ffff,
            -0x8000_0000_0000_0000 <= b <= 0x7fff_ffff_ffff_ffff,
    ;
}

fn saturate(v: i128) -> (r: i64)
    ensures
        r == sat(v as int),
        in_range(r as int),
{
    if v > BIG as i128 {
        BIG
    } else if v < -(BIG as i128) {
        -BIG
    } else {
        v as i64
    }
}

/// Divides by a positive divisor, rounding toward zero.
fn div_toward_zero(n: i128, d: i128) -> (r: i128)
    requires
        d > 0,
        n > i128::MIN,
    ensures
        r == div_trunc(n as int, d as int),
{
    if n >= 0 {
        n / d
    } else {
        let m: i128 = -n;
        let q: i128 = m / d;
        proof {
            assert(0 <= m / d <= m) by (nonlinear_arith)
                requires
                    m >= 0,
                    d > 0,
            ;
        }
        -q
    }
}

pub fn fx_add(a: i64, b: i64) -> (r: i64)
    ensures
        r == add_spec(a as int, b as int),
        in_range(r as int),
{
    saturate(a as i128 + b as i128)
}

pub fn fx_sub(a: i64, b: i64) -> (r: i64)
    ensures
        r == sub_spec(a as int, b as int),
        in_range(r as int),
{
    saturate(a as i128 - b as i128)
}

pub fn fx_mul(a: i64, b: i64) -> (r: i64)
    ensures
        r == mul_spec(a as int, b as int),
        in_range(r as int),
{
    proof {
        lemma_i64_product_fits(a, b);
    }
    let p: i128 = a as i128 * b as i128;
    saturate(div_toward_zero(p, ONE as i128))
}

pub fn fx_div(a: i64, b: i64) -> (r: i64)
    ensures
        r == div_spec(a as int, b as int),
        in_range(r as int),
{
    if b == 0 {
        if a > 0 {
            BIG
        } else if a < 0 {
            -BIG
        } else {
            0
        }
    } else if b > 0 {
        proof {
            lemma_i64_product_fits(a, ONE);
        }
        let n: i128 = a as i128 * ONE as i128;
        saturate(div_toward_zero(n, b as i128))
    } else {
        proof {
            lemma_i64_product_fits(a, ONE);
        }
        let n: i128 = -(a as i128) * ONE as i128;
        saturate(div_toward_zero(n, -(b as i128)))
    }
}

pub fn fx_clamp(v: i64, lo: i64, hi: i64) -> (r: i64)
    ensures
        r == clamp_spec(v as int, lo as int, hi as int),
{
    if v < lo {
        lo
    } else if v > hi {
        hi
    } else {
        v
    }
}

pub fn fx_max(a: i64, b: i64) -> (r: i64)
    ensures
        r == max_spec(a as int, b as int),
{
    if a >= b {
        a
    } else {
        b
    }
}

pub fn fx_min(a: i64, b: i64) -> (r: i64)
    ensures
        r == min_spec(a as int, b as int),
{
    if a <= b {
        a
    } else {
        b
    }
}

/// Integer square root by bisection.
pub fn isqrt(n: u128) -> (r: u64)
    requires
        n < 0x1_0000_0000_0000_0000_0000_0000,
    ensures
        is_isqrt(n as int, r as int),
        r == sqrt_floor(n as int),
{
    let mut lo: u128 = 0;
    let mut hi: u128 = 0x4_0000_0000_0000;
    assert(hi * hi == 0x10_0000_0000_0000_0000_0000_0000);
    while hi - lo > 1
        invariant
            lo < hi <= 0x4_0000_0000_0000,
            lo * lo <= n,
            n < hi * hi,
        decreases hi - lo,
    {
        let mid: u128 = lo + (hi - lo) / 2;
        assert(lo < mid < hi);
        assert(mid * mid <= 0x10_0000_0000_0000_0000_0000_0000) by (nonlinear_arith)
            requires
                0 <= mid < hi <= 0x4_0000_0000_0000,
        ;
        if mid * mid <= n {
            lo = mid;
        } else {
            hi = mid;
        }
    }
    proof {
        assert(is_isqrt(n as int, lo as int));
        lemma_isqrt_unique(n as int, lo as int, sqrt_floor(n as int));
    }
    lo as u64
}

} // verus!
