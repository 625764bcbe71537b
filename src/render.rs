//! One frame: a primary ray per pixel, traced and written to the buffer.
use vstd::prelude::*;
use crate::camera::{basis_spec, Camera};
use crate::color::{hex_of, Color};
use crate::cube::Cube;
use crate::fixed::{div_spec, fx_div, fx_sub, sub_spec, ONE};
use crate::framebuffer::{fb_wf, Framebuffer};
use crate::ray::Ray;
use crate::tracer::{cast_ray, trace, Light};
use crate::vec3::{mk, vnormalize, Vec3};

verus! {

/// The widest (and tallest) frame whose coordinates fixed point can hold.
pub const MAX_SIDE: usize = 1_048_576;

/// The world-space direction of the primary ray through pixel `(x, y)`:
/// the point `(2x/w - 1, 1 - 2y/h, -1)` of camera space, turned into the
/// world and normalised.
pub open spec fn pixel_direction_spec(c: Camera, x: int, y: int, w: int, h: int) -> Vec3 {
    let sx = sub_spec(div_spec(2 * x * ONE, w * ONE), ONE as int);
    let sy = sub_spec(ONE as int, div_spec(2 * y * ONE, h * ONE));
    vnormalize(basis_spec(c, mk(sx, sy, -ONE)))
}

/// The colour of pixel `(x, y)`.
#[verifier::opaque]
pub open spec fn pixel_color(c: Camera, scene: Seq<Cube>, light: Light, x: int, y: int, w: int, h: int) -> Color {
    trace(Ray { origin: c.eye, direction: pixel_direction_spec(c, x, y, w, h) }, scene, light, 0)
}

/// The pixel `(x, y)` of a buffer of rows of width `w`.
pub open spec fn pixel_at(buf: Seq<u32>, w: int, x: int, y: int) -> u32 {
    buf[y * w + x]
}

pub fn pixel_direction(camera: &Camera, x: usize, y: usize, width: usize, height: usize) -> (d: Vec3)
    requires
        x < width <= MAX_SIDE,
        y < height <= MAX_SIDE,
    ensures
        d == pixel_direction_spec(*camera, x as int, y as int, width as int, height as int),
{
    let sx = fx_sub(fx_div(2 * (x as i64) * ONE, width as i64 * ONE), ONE);
    let sy = fx_sub(ONE, fx_div(2 * (y as i64) * ONE, height as i64 * ONE));
    camera.basis_change(&Vec3::new(sx, sy, -ONE)).normalize()
}

proof fn lemma_index_distinct(w: int, x1: int, y1: int, x2: int, y2: int)
    requires
        0 <= x1 < w,
        0 <= x2 < w,
        0 <= y1,
        0 <= y2,
        x1 != x2 || y1 != y2,
    ensures
        y1 * w + x1 != y2 * w + x2,
{
    if y1 == y2 {
    } else if y1 < y2 {
        assert(y1 * w + x1 < y2 * w + x2) by (nonlinear_arith)
            requires
                0 <= x1 < w,
                0 <= x2,
                y1 < y2,
        ;
    } else {
        assert(y2 * w + x2 < y1 * w + x1) by (nonlinear_arith)
            requires
                0 <= x2 < w,
                0 <= x1,
                y2 < y1,
        ;
    }
}

proof fn lemma_update_pixel(before: Seq<u32>, after: Seq<u32>, w: int, h: int, x: int, y: int, v: u32)
    requires
        before.len() == w * h,
        0 <= x < w,
        0 <= y < h,
        after == before.update(y * w + x, v),
    ensures
        pixel_at(after, w, x, y) == v,
        forall|xx: int, yy: int|
            0 <= xx < w && 0 <= yy < h && (xx != x || yy != y) ==> #[trigger] pixel_at(after, w, xx, yy)
                == pixel_at(before, w, xx, yy),
{
    assert(y * w + x < w * h) by (nonlinear_arith)
        requires
            0 <= x < w,
            0 <= y < h,
    ;
    assert forall|xx: int, yy: int|
        0 <= xx < w && 0 <= yy < h && (xx != x || yy != y) implies #[trigger] pixel_at(after, w, xx, yy)
            == pixel_at(before, w, xx, yy) by {
        lemma_index_distinct(w, xx, yy, x, y);
        assert(yy * w + xx < w * h) by (nonlinear_arith)
            requires
                0 <= xx < w,
                0 <= yy < h,
        ;
    }
}

/// Traces every pixel of the frame from the camera's eye and stores the
/// packed colours.
pub fn render(fb: &mut Framebuffer, camera: &Camera, scene: &Vec<Cube>, light: &Light)
    requires
        fb_wf(old(fb)),
        old(fb).width <= MAX_SIDE,
        old(fb).height <= MAX_SIDE,
    ensures
        fb_wf(final(fb)),
        final(fb).width == old(fb).width,
        final(fb).height == old(fb).height,
        final(fb).background_color == old(fb).background_color,
        forall|x: int, y: int|
            0 <= x < final(fb).width && 0 <= y < final(fb).height ==> #[trigger] pixel_at(
                final(fb).buffer@,
                final(fb).width as int,
                x,
                y,
            ) == hex_of(pixel_color(*camera, scene@, *light, x, y, final(fb).width as int, final(fb).height as int)),
{
    let w = fb.width;
    let h = fb.height;
    let mut y: usize = 0;
    while y < h
        invariant
            y <= h,
            fb_wf(fb),
            fb.width == w,
            fb.height == h,
            w <= MAX_SIDE,
            h <= MAX_SIDE,
            fb.background_color == old(fb).background_color,
            forall|xx: int, yy: int|
                0 <= xx < w && 0 <= yy < y ==> #[trigger] pixel_at(fb.buffer@, w as int, xx, yy) == hex_of(
                    pixel_color(*camera, scene@, *light, xx, yy, w as int, h as int),
                ),
        decreases h - y,
    {
        let mut x: usize = 0;
        while x < w
            invariant
                x <= w,
                y < h,
                fb_wf(fb),
                fb.width == w,
                fb.height == h,
                w <= MAX_SIDE,
                h <= MAX_SIDE,
                fb.background_color == old(fb).background_color,
                forall|xx: int, yy: int|
                    0 <= xx < w && 0 <= yy < y ==> #[trigger] pixel_at(fb.buffer@, w as int, xx, yy) == hex_of(
                        pixel_color(*camera, scene@, *light, xx, yy, w as int, h as int),
                    ),
                forall|xx: int|
                    0 <= xx < x ==> #[trigger] pixel_at(fb.buffer@, w as int, xx, y as int) == hex_of(
                        pixel_color(*camera, scene@, *light, xx, y as int, w as int, h as int),
                    ),
            decreases w - x,
        {
            let dir = pixel_direction(camera, x, y, w, h);
            let color = cast_ray(&Ray::new(camera.eye, dir), scene, light, 0);
            assert(color == pixel_color(*camera, scene@, *light, x as int, y as int, w as int, h as int)) by {
                reveal(pixel_color);
            }
            let ghost before = fb.buffer@;
            fb.point(x, y, color);
            proof {
                lemma_update_pixel(before, fb.buffer@, w as int, h as int, x as int, y as int, hex_of(color) as u32);
            }
            x = x + 1;
        }
        y = y + 1;
    }
}

} // verus!
