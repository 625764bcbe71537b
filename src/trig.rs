//! Fixed-point trigonometry for angles in raw radians.
use vstd::prelude::*;
use crate::fixed::{
    add_spec, clamp_spec, div_spec, fx_add, fx_clamp, fx_div, fx_mul, fx_sub, in_range, mul_spec, sub_spec, ONE,
};

verus! {

/// Half a turn in raw radians.
pub const PI: i64 = 3_141_593;

/// A quarter turn in raw radians.
pub const HALF_PI: i64 = 1_570_796;

/// A full turn in raw radians; angles are kept in `[0, TWO_PI)`.
pub const TWO_PI: i64 = 6_283_185;

/// The angle `v` brought into `[0, TWO_PI)`.
pub open spec fn wrap_angle(v: int) -> int {
    v % (TWO_PI as int)
}

/// `1 - x2 * t / d`, a step of the Horner scheme.
pub open spec fn horner_step(x2: int, t: int, d: int) -> int {
    sub_spec(ONE as int, div_spec(mul_spec(x2, t), d * ONE))
}

/// Taylor polynomial of the sine up to the eleventh power, good on
/// `[-HALF_PI, HALF_PI]`.
pub open spec fn sine_poly(x: int) -> int {
    let x2 = mul_spec(x, x);
    let t5 = horner_step(x2, ONE as int, 110);
    let t4 = horner_step(x2, t5, 72);
    let t3 = horner_step(x2, t4, 42);
    let t2 = horner_step(x2, t3, 20);
    let t1 = horner_step(x2, t2, 6);
    clamp_spec(mul_spec(x, t1), -ONE, ONE as int)
}

/// An angle of `[0, TWO_PI)` folded into `[-HALF_PI, HALF_PI]` with the
/// same sine.
pub open spec fn fold_angle(a: int) -> int {
    let b = if a > PI { a - TWO_PI } else { a };
    if b > HALF_PI {
        PI - b
    } else if b < -HALF_PI {
        -PI - b
    } else {
        b
    }
}

pub open spec fn sin_spec(a: int) -> int {
    sine_poly(fold_angle(a))
}

pub open spec fn cos_spec(a: int) -> int {
    sin_spec(wrap_angle(a + HALF_PI))
}

/// Brings `angle + delta` into `[0, TWO_PI)`.
pub fn turn(angle: i64, delta: i64) -> (r: i64)
    ensures
        r == wrap_angle(angle + delta),
        0 <= r < TWO_PI,
{
    let v: i128 = angle as i128 + delta as i128;
    if v >= 0 {
        (v % (TWO_PI as i128)) as i64
    } else {
        let m: i128 = (-v) % (TWO_PI as i128);
        let r: i128 = if m == 0 { 0 } else { TWO_PI as i128 - m };
        proof {
            let t = TWO_PI as int;
            let q = (-v) / t;
            assert(-v == q * t + m);
            if m == 0 {
                assert(v == (-q) * t);
                vstd::arithmetic::div_mod::lemma_mod_multiples_basic(-q, t);
            } else {
                assert(v == (-q - 1) * t + (t - m));
                vstd::arithmetic::div_mod::lemma_mod_multiples_vanish(-q - 1, t - m, t);
                vstd::arithmetic::div_mod::lemma_small_mod((t - m) as nat, t as nat);
            }
        }
        r as i64
    }
}

fn horner(x2: i64, t: i64, d: i64) -> (r: i64)
    requires
        1 <= d <= 1000,
    ensures
        r == horner_step(x2 as int, t as int, d as int),
{
    fx_sub(ONE, fx_div(fx_mul(x2, t), d * ONE))
}

/// Sine of an angle in `[0, TWO_PI)`; the result lies in `[-ONE, ONE]`.
pub fn sin_fx(a: i64) -> (r: i64)
    requires
        0 <= a < TWO_PI,
    ensures
        r == sin_spec(a as int),
        -ONE <= r <= ONE,
{
    let b = if a > PI { a - TWO_PI } else { a };
    let x = if b > HALF_PI {
        PI - b
    } else if b < -HALF_PI {
        -PI - b
    } else {
        b
    };
    let x2 = fx_mul(x, x);
    let t5 = horner(x2, ONE, 110);
    let t4 = horner(x2, t5, 72);
    let t3 = horner(x2, t4, 42);
    let t2 = horner(x2, t3, 20);
    let t1 = horner(x2, t2, 6);
    fx_clamp(fx_mul(x, t1), -ONE, ONE)
}

/// Cosine of an angle in `[0, TWO_PI)`, as the sine a quarter turn on.
pub fn cos_fx(a: i64) -> (r: i64)
    requires
        0 <= a < TWO_PI,
    ensures
        r == cos_spec(a as int),
        -ONE <= r <= ONE,
{
    let s = a + HALF_PI;
    let w = if s >= TWO_PI { s - TWO_PI } else { s };
    assert(w == wrap_angle(a + HALF_PI));
    sin_fx(w)
}

/// Arctangent of a ratio `r` in `[0, ONE]`: `(pi/4) r + r (1 - r) (0.2447 + 0.0663 r)`.
pub open spec fn atan_unit(r: int) -> int {
    add_spec(
        mul_spec(785_398, r),
        mul_spec(mul_spec(r, sub_spec(ONE as int, r)), add_spec(244_700, mul_spec(66_300, r))),
    )
}

pub open spec fn abs_spec(v: int) -> int {
    if v < 0 { -v } else { v }
}

/// The angle of the point `(y, x)` in `[0, TWO_PI)`, measured from the
/// `x` axis toward the `y` axis, with `0` at the origin. This approximates
/// `atan2(y, x)` by the polynomial `atan_unit` on each octant, within about
/// `1.5e-3` radians.
pub open spec fn atan2_spec(y: int, x: int) -> int {
    let ay = abs_spec(y);
    let ax = abs_spec(x);
    let base = if ay <= ax {
        if ax == 0 { 0 } else { atan_unit(div_spec(ay, ax)) }
    } else {
        sub_spec(HALF_PI as int, atan_unit(div_spec(ax, ay)))
    };
    let b = clamp_spec(base, 0, HALF_PI as int);
    let q = if x >= 0 {
        if y >= 0 { b } else { TWO_PI - b }
    } else {
        if y >= 0 { PI - b } else { PI + b }
    };
    wrap_angle(q)
}

fn atan_unit_fx(r: i64) -> (t: i64)
    ensures
        t == atan_unit(r as int),
{
    fx_add(fx_mul(785_398, r), fx_mul(fx_mul(r, fx_sub(ONE, r)), fx_add(244_700, fx_mul(66_300, r))))
}

/// The polynomial approximation of `atan2(y, x)` (within about `1.5e-3`
/// radians) of two saturated scalars, as an angle in `[0, TWO_PI)`.
pub fn atan2_fx(y: i64, x: i64) -> (a: i64)
    requires
        in_range(y as int),
        in_range(x as int),
    ensures
        a == atan2_spec(y as int, x as int),
        0 <= a < TWO_PI,
{
    let ay = if y < 0 { -y } else { y };
    let ax = if x < 0 { -x } else { x };
    let base = if ay <= ax {
        if ax == 0 { 0 } else { atan_unit_fx(fx_div(ay, ax)) }
    } else {
        fx_sub(HALF_PI, atan_unit_fx(fx_div(ax, ay)))
    };
    let b = fx_clamp(base, 0, HALF_PI);
    let q = if x >= 0 {
        if y >= 0 { b } else { TWO_PI - b }
    } else {
        if y >= 0 { PI - b } else { PI + b }
    };
    if q >= TWO_PI { q - TWO_PI } else { q }
}

} // verus!
