//! Three-component fixed-point vectors.
use vstd::prelude::*;
use crate::fixed::{
    add_spec, div_spec, fx_add, fx_div, fx_mul, fx_sub, in_range, isqrt, mul_spec, sqrt_floor, sub_spec,
};

verus! {

/// A point or direction; each component is a fixed-point scalar.
#[derive(Clone, Copy, Debug, PartialEq, Eq, Structural)]
pub struct Vec3 {
    pub x: i64,
    pub y: i64,
    pub z: i64,
}

/// A vector is well formed when every component is a saturated scalar.
pub open spec fn vec_wf(v: Vec3) -> bool {
    in_range(v.x as int) && in_range(v.y as int) && in_range(v.z as int)
}

pub open spec fn mk(x: int, y: int, z: int) -> Vec3 {
    Vec3 { x: x as i64, y: y as i64, z: z as i64 }
}

pub open spec fn vadd(a: Vec3, b: Vec3) -> Vec3 {
    mk(add_spec(a.x as int, b.x as int), add_spec(a.y as int, b.y as int), add_spec(a.z as int, b.z as int))
}

pub open spec fn vsub(a: Vec3, b: Vec3) -> Vec3 {
    mk(sub_spec(a.x as int, b.x as int), sub_spec(a.y as int, b.y as int), sub_spec(a.z as int, b.z as int))
}

pub open spec fn vscale(a: Vec3, k: int) -> Vec3 {
    mk(mul_spec(a.x as int, k), mul_spec(a.y as int, k), mul_spec(a.z as int, k))
}

pub open spec fn vneg(a: Vec3) -> Vec3 {
    mk(sub_spec(0, a.x as int), sub_spec(0, a.y as int), sub_spec(0, a.z as int))
}

pub open spec fn vdot(a: Vec3, b: Vec3) -> int {
    add_spec(
        add_spec(mul_spec(a.x as int, b.x as int), mul_spec(a.y as int, b.y as int)),
        mul_spec(a.z as int, b.z as int),
    )
}

pub open spec fn vcross(a: Vec3, b: Vec3) -> Vec3 {
    mk(
        sub_spec(mul_spec(a.y as int, b.z as int), mul_spec(a.z as int, b.y as int)),
        sub_spec(mul_spec(a.z as int, b.x as int), mul_spec(a.x as int, b.z as int)),
        sub_spec(mul_spec(a.x as int, b.y as int), mul_spec(a.y as int, b.x as int)),
    )
}

/// Squared length in raw units squared (exact, no rounding).
pub open spec fn norm_sq(a: Vec3) -> int {
    (a.x as int) * (a.x as int) + (a.y as int) * (a.y as int) + (a.z as int) * (a.z as int)
}

/// Length, in raw units, rounded down.
pub open spec fn vlength(a: Vec3) -> int {
    sqrt_floor(norm_sq(a))
}

/// The direction of `a` at unit length; the zero vector stays zero.
pub open spec fn vnormalize(a: Vec3) -> Vec3 {
    let l = vlength(a);
    if l == 0 {
        a
    } else {
        mk(div_spec(a.x as int, l), div_spec(a.y as int, l), div_spec(a.z as int, l))
    }
}

proof fn lemma_square_bound(v: int)
    requires
        in_range(v),
    ensures
        0 <= v * v <= 0x100_0000_0000_0000_0000_0000,
{
    assert(0 <= v * v <= 0x100_0000_0000_0000_0000_0000) by (nonlinear_arith)
        requires
            -0x100_0000_0000 <= v <= 0x100_0000_0000,
    ;
}

impl Vec3 {
    pub fn new(x: i64, y: i64, z: i64) -> (r: Vec3)
        ensures
            r == (Vec3 { x, y, z }),
    {
        Vec3 { x, y, z }
    }

    pub fn zeros() -> (r: Vec3)
        ensures
            r == (Vec3 { x: 0, y: 0, z: 0 }),
    {
        Vec3 { x: 0, y: 0, z: 0 }
    }

    pub fn add(&self, o: &Vec3) -> (r: Vec3)
        ensures
            r == vadd(*self, *o),
            vec_wf(r),
    {
        Vec3 { x: fx_add(self.x, o.x), y: fx_add(self.y, o.y), z: fx_add(self.z, o.z) }
    }

    pub fn sub(&self, o: &Vec3) -> (r: Vec3)
        ensures
            r == vsub(*self, *o),
            vec_wf(r),
    {
        Vec3 { x: fx_sub(self.x, o.x), y: fx_sub(self.y, o.y), z: fx_sub(self.z, o.z) }
    }

    pub fn scale(&self, k: i64) -> (r: Vec3)
        ensures
            r == vscale(*self, k as int),
            vec_wf(r),
    {
        Vec3 { x: fx_mul(self.x, k), y: fx_mul(self.y, k), z: fx_mul(self.z, k) }
    }

    pub fn neg(&self) -> (r: Vec3)
        ensures
            r == vneg(*self),
            vec_wf(r),
    {
        Vec3 { x: fx_sub(0, self.x), y: fx_sub(0, self.y), z: fx_sub(0, self.z) }
    }

    pub fn dot(&self, o: &Vec3) -> (r: i64)
        ensures
            r == vdot(*self, *o),
            in_range(r as int),
    {
        fx_add(fx_add(fx_mul(self.x, o.x), fx_mul(self.y, o.y)), fx_mul(self.z, o.z))
    }

    pub fn cross(&self, o: &Vec3) -> (r: Vec3)
        ensures
            r == vcross(*self, *o),
            vec_wf(r),
    {
        Vec3 {
            x: fx_sub(fx_mul(self.y, o.z), fx_mul(self.z, o.y)),
            y: fx_sub(fx_mul(self.z, o.x), fx_mul(self.x, o.z)),
            z: fx_sub(fx_mul(self.x, o.y), fx_mul(self.y, o.x)),
        }
    }

    pub fn length(&self) -> (r: i64)
        requires
            vec_wf(*self),
        ensures
            r == vlength(*self),
            r >= 0,
    {
        proof {
            lemma_square_bound(self.x as int);
            lemma_square_bound(self.y as int);
            lemma_square_bound(self.z as int);
        }
        let sx: u128 = (self.x as i128 * self.x as i128) as u128;
        let sy: u128 = (self.y as i128 * self.y as i128) as u128;
        let sz: u128 = (self.z as i128 * self.z as i128) as u128;
        let r = isqrt(sx + sy + sz);
        proof {
            let n = norm_sq(*self);
            assert(r * r <= n);
            assert(r <= 0x1_0000_0000_0000) by (nonlinear_arith)
                requires
                    0 <= r,
                    r * r <= n,
                    n <= 0x300_0000_0000_0000_0000_0000,
            ;
        }
        r as i64
    }

    pub fn normalize(&self) -> (r: Vec3)
        requires
            vec_wf(*self),
        ensures
            r == vnormalize(*self),
            vec_wf(r),
    {
        let l = self.length();
        if l == 0 {
            *self
        } else {
            Vec3 { x: fx_div(self.x, l), y: fx_div(self.y, l), z: fx_div(self.z, l) }
        }
    }
}

} // verus!
