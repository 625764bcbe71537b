//! The recursive tracer: closest hit, local shading, reflection and
//! refraction, bounded in depth.
use vstd::prelude::*;
use crate::color::{color_add, color_mul, color_scale, Color};
use crate::cube::{entry_of, face_normal, hits, intersect_spec, Cube};
use crate::fixed::{
    add_spec, clamp_spec, div_spec, fx_add, fx_clamp, fx_div, fx_max, fx_mul, fx_sub, in_range, isqrt,
    max_spec, mul_spec, sqrt_floor, sub_spec, ONE,
};
use crate::intersect::{is_miss, Intersect};
use crate::material::Material;
use crate::ray::{ray_at, Ray};
use crate::vec3::{vadd, vdot, vec_wf, vneg, vnormalize, vscale, vsub, Vec3};

verus! {

/// Bounces beyond this depth see only the sky.
pub const MAX_DEPTH: u32 = 3;

/// Offset along the normal that keeps a secondary ray off its own surface.
pub const BIAS: i64 = 1_000;

/// The colour returned when a ray meets nothing.
pub open spec fn sky() -> Color {
    Color { r: 680_000, g: 850_000, b: 900_000 }
}

/// A point light.
#[derive(Clone, Copy, Debug, PartialEq, Eq, Structural)]
pub struct Light {
    pub position: Vec3,
    pub color: Color,
    pub intensity: i64,
}

impl Light {
    pub fn new(position: Vec3, color: Color, intensity: i64) -> (l: Light)
        ensures
            l == (Light { position, color, intensity }),
    {
        Light { position, color, intensity }
    }
}

pub fn sky_color() -> (c: Color)
    ensures
        c == sky(),
{
    Color { r: 680_000, g: 850_000, b: 900_000 }
}

/// Mirror image of `i` about the normal `n`: `i - 2 (i.n) n`.
pub open spec fn reflect_spec(i: Vec3, n: Vec3) -> Vec3 {
    let d = vdot(i, n);
    vsub(i, vscale(n, add_spec(d, d)))
}

pub fn reflect(i: &Vec3, n: &Vec3) -> (r: Vec3)
    ensures
        r == reflect_spec(*i, *n),
        vec_wf(r),
{
    let d = i.dot(n);
    i.sub(&n.scale(fx_add(d, d)))
}

/// Cosine of incidence, clamped into `[-ONE, ONE]`.
pub open spec fn cos_incidence(i: Vec3, n: Vec3) -> int {
    clamp_spec(sub_spec(0, vdot(i, n)), -ONE, ONE as int)
}

/// The normal facing the incoming ray: flipped when the ray leaves the medium.
pub open spec fn facing_normal(i: Vec3, n: Vec3) -> Vec3 {
    if cos_incidence(i, n) < 0 { vneg(n) } else { n }
}

/// Ratio of the refractive indices on either side of the surface.
pub open spec fn eta_of(i: Vec3, n: Vec3, index: int) -> int {
    if cos_incidence(i, n) < 0 { div_spec(index, ONE as int) } else { div_spec(ONE as int, index) }
}

/// Cosine of incidence against the facing normal.
pub open spec fn facing_cos(i: Vec3, n: Vec3) -> int {
    let c = cos_incidence(i, n);
    if c < 0 { -c } else { c }
}

/// Snell's discriminant: negative under total internal reflection.
pub open spec fn snell_k(i: Vec3, n: Vec3, index: int) -> int {
    let eta = eta_of(i, n, index);
    let c = facing_cos(i, n);
    sub_spec(ONE as int, mul_spec(mul_spec(eta, eta), sub_spec(ONE as int, mul_spec(c, c))))
}

/// Square root of a nonnegative scalar, rounded down.
pub open spec fn sqrt_spec(k: int) -> int {
    sqrt_floor(k * ONE)
}

/// The direction of `i` after it crosses a surface of the given index;
/// the mirror direction under total internal reflection.
pub open spec fn refract_spec(i: Vec3, n: Vec3, index: int) -> Vec3 {
    let nf = facing_normal(i, n);
    let eta = eta_of(i, n, index);
    let k = snell_k(i, n, index);
    if k < 0 {
        reflect_spec(i, nf)
    } else {
        vadd(vscale(i, eta), vscale(nf, sub_spec(mul_spec(eta, facing_cos(i, n)), sqrt_spec(k))))
    }
}

fn fx_sqrt(k: i64) -> (r: i64)
    requires
        0 <= k,
        in_range(k as int),
    ensures
        r == sqrt_spec(k as int),
        r >= 0,
{
    assert((k as int) * ONE <= 0x100_0000_0000_0000_0000) by (nonlinear_arith)
        requires
            0 <= k <= 0x100_0000_0000,
    ;
    let s = isqrt(k as u128 * ONE as u128);
    proof {
        let n = (k as int) * ONE;
        assert(s <= 0x1_0000_0000_0000) by (nonlinear_arith)
            requires
                0 <= s,
                s * s <= n,
                n <= 0x100_0000_0000_0000_0000,
        ;
    }
    s as i64
}

/// Refraction by Snell's law, falling back to reflection when no ray is
/// transmitted.
pub fn refract(i: &Vec3, n: &Vec3, index: i64) -> (r: Vec3)
    ensures
        r == refract_spec(*i, *n, index as int),
        snell_k(*i, *n, index as int) < 0 ==> r == reflect_spec(*i, facing_normal(*i, *n)),
        vec_wf(r),
{
    let cosi0 = fx_clamp(fx_sub(0, i.dot(n)), -ONE, ONE);
    let (cosi, nf, eta) = if cosi0 < 0 {
        (-cosi0, n.neg(), fx_div(index, ONE))
    } else {
        (cosi0, *n, fx_div(ONE, index))
    };
    let k = fx_sub(ONE, fx_mul(fx_mul(eta, eta), fx_sub(ONE, fx_mul(cosi, cosi))));
    if k < 0 {
        reflect(i, &nf)
    } else {
        let s = fx_sqrt(k);
        i.scale(eta).add(&nf.scale(fx_sub(fx_mul(eta, cosi), s)))
    }
}

/// `b` raised to the whole power `e`, in fixed point.
pub open spec fn pow_spec(b: int, e: nat) -> int
    decreases e,
{
    if e == 0 {
        ONE as int
    } else {
        mul_spec(pow_spec(b, (e - 1) as nat), b)
    }
}

pub fn fx_pow(b: i64, e: u32) -> (r: i64)
    ensures
        r == pow_spec(b as int, e as nat),
{
    let mut acc: i64 = ONE;
    let mut i: u32 = 0;
    while i < e
        invariant
            i <= e,
            acc == pow_spec(b as int, i as nat),
        decreases e - i,
    {
        acc = fx_mul(acc, b);
        i = i + 1;
    }
    acc
}

/// Diffuse plus specular light at `p` with normal `n`, seen along `ray`;
/// no other surface casts a shadow. The sum is scaled by the light's
/// intensity and, channel by channel, by the light's colour, so a white
/// light leaves it as the intensity alone makes it.
pub open spec fn local_spec(ray: Ray, p: Vec3, n: Vec3, m: Material, light: Light) -> Color {
    let light_dir = vnormalize(vsub(light.position, p));
    let view_dir = vneg(ray.direction);
    let reflect_dir = reflect_spec(vneg(light_dir), n);
    let diff = max_spec(0, vdot(n, light_dir));
    let spec = pow_spec(max_spec(0, vdot(view_dir, reflect_dir)), m.specular as nat);
    let diffuse = color_scale(color_scale(m.diffuse, m.albedo[0] as int), diff);
    let specular = color_scale(Color { r: ONE, g: ONE, b: ONE }, mul_spec(m.albedo[1] as int, spec));
    color_scale(color_mul(color_add(diffuse, specular), light.color), light.intensity as int)
}

/// `a * (1 - k) + b * k`.
pub open spec fn blend_spec(a: Color, b: Color, k: int) -> Color {
    color_add(color_scale(a, sub_spec(ONE as int, k)), color_scale(b, k))
}

fn blend(a: &Color, b: &Color, k: i64) -> (c: Color)
    ensures
        c == blend_spec(*a, *b, k as int),
{
    a.scale(fx_sub(ONE, k)).add(&b.scale(k))
}

/// Index of the cube the ray meets first: the smallest entry distance,
/// the earliest cube among equals.
pub open spec fn closest_index(ray: Ray, s: Seq<Cube>) -> Option<int>
    decreases s.len(),
{
    if s.len() == 0 {
        None
    } else {
        let prev = closest_index(ray, s.drop_last());
        let j = s.len() - 1;
        if hits(s[j], ray) && (prev is None || entry_of(s[j], ray) < entry_of(s[prev->0], ray)) {
            Some(j)
        } else {
            prev
        }
    }
}

pub open spec fn reflected_ray(p: Vec3, n: Vec3, d: Vec3) -> Ray {
    Ray { origin: vadd(p, vscale(n, BIAS as int)), direction: reflect_spec(d, n) }
}

pub open spec fn refracted_ray(p: Vec3, n: Vec3, d: Vec3, index: int) -> Ray {
    Ray { origin: vsub(p, vscale(n, BIAS as int)), direction: refract_spec(d, n, index) }
}

/// The colour seen along `ray` at recursion depth `depth`.
pub open spec fn trace(ray: Ray, scene: Seq<Cube>, light: Light, depth: nat) -> Color
    decreases MAX_DEPTH + 1 - depth,
{
    if depth > MAX_DEPTH {
        sky()
    } else {
        match closest_index(ray, scene) {
            None => sky(),
            Some(j) => {
                let c = scene[j];
                let p = ray_at(ray, entry_of(c, ray));
                let n = face_normal(c, p);
                let m = c.material;
                let local = local_spec(ray, p, n, m, light);
                let mirrored = if m.reflectivity > 0 {
                    blend_spec(
                        local,
                        trace(reflected_ray(p, n, ray.direction), scene, light, depth + 1),
                        m.reflectivity as int,
                    )
                } else {
                    local
                };
                if m.transparency > 0 {
                    blend_spec(
                        mirrored,
                        trace(refracted_ray(p, n, ray.direction, m.refractive_index as int), scene, light, depth + 1),
                        m.transparency as int,
                    )
                } else {
                    mirrored
                }
            },
        }
    }
}

/// The nearest hit of `ray` among the cubes of `scene`, or a miss.
pub fn closest_hit(ray: &Ray, scene: &Vec<Cube>) -> (i: Intersect)
    ensures
        match closest_index(*ray, scene@) {
            Some(j) => 0 <= j < scene@.len() && hits(scene@[j], *ray) && intersect_spec(scene@[j], *ray, i),
            None => is_miss(i),
        },
{
    let mut best = Intersect::empty();
    let mut k: usize = 0;
    while k < scene.len()
        invariant
            k <= scene@.len(),
            match closest_index(*ray, scene@.take(k as int)) {
                Some(j) => 0 <= j < k && hits(scene@[j], *ray) && intersect_spec(scene@[j], *ray, best),
                None => is_miss(best),
            },
        decreases scene@.len() - k,
    {
        let h = scene[k].ray_intersect(ray);
        proof {
            let s = scene@.take(k as int + 1);
            assert(s.drop_last() =~= scene@.take(k as int));
            assert(s[k as int] == scene@[k as int]);
            crate::cube::lemma_entry_in_range(scene@[k as int], *ray);
        }
        if h.is_intersecting && h.distance < best.distance {
            best = h;
        }
        k = k + 1;
    }
    assert(scene@.take(scene@.len() as int) =~= scene@);
    best
}

/// Diffuse plus specular shading at a hit point, tinted by the light's
/// colour and scaled by its intensity.
pub fn shade_local(ray: &Ray, p: &Vec3, n: &Vec3, m: &Material, light: &Light) -> (c: Color)
    ensures
        c == local_spec(*ray, *p, *n, *m, *light),
{
    let light_dir = light.position.sub(p).normalize();
    let view_dir = ray.direction.neg();
    let reflect_dir = reflect(&light_dir.neg(), n);
    let diff = fx_max(0, n.dot(&light_dir));
    let spec = fx_pow(fx_max(0, view_dir.dot(&reflect_dir)), m.specular);
    let diffuse = m.diffuse.scale(m.albedo[0]).scale(diff);
    let specular = Color::white().scale(fx_mul(m.albedo[1], spec));
    diffuse.add(&specular).mul(&light.color).scale(light.intensity)
}

/// Traces `ray` through `scene`: the colour of the nearest surface, lit by
/// `light` and blended with what its reflection and refraction see, down to
/// depth `MAX_DEPTH`; the sky where nothing is met.
pub fn cast_ray(ray: &Ray, scene: &Vec<Cube>, light: &Light, depth: u32) -> (c: Color)
    ensures
        c == trace(*ray, scene@, *light, depth as nat),
        depth > MAX_DEPTH ==> c == sky(),
    decreases MAX_DEPTH + 1 - depth,
{
    if depth > MAX_DEPTH {
        return sky_color();
    }
    let hit = closest_hit(ray, scene);
    if !hit.is_intersecting {
        return sky_color();
    }
    let p = hit.point;
    let n = hit.normal;
    let m = hit.material;
    let local = shade_local(ray, &p, &n, &m, light);
    let mirrored = if m.reflectivity > 0 {
        let origin = p.add(&n.scale(BIAS));
        let dir = reflect(&ray.direction, &n);
        let seen = cast_ray(&Ray::new(origin, dir), scene, light, depth + 1);
        blend(&local, &seen, m.reflectivity)
    } else {
        local
    };
    if m.transparency > 0 {
        let origin = p.sub(&n.scale(BIAS));
        let dir = refract(&ray.direction, &n, m.refractive_index);
        let seen = cast_ray(&Ray::new(origin, dir), scene, light, depth + 1);
        blend(&mirrored, &seen, m.transparency)
    } else {
        mirrored
    }
}

/// No ray is followed past `MAX_DEPTH`: there the tracer sees only the sky,
/// whatever the scene, however its mirrors face each other.
pub proof fn lemma_depth_bound(ray: Ray, scene: Seq<Cube>, light: Light, depth: nat)
    requires
        depth > MAX_DEPTH,
    ensures
        trace(ray, scene, light, depth) == sky(),
{
}

/// Every cube of the scene is a perfect mirror that lets no light through.
pub open spec fn all_mirrors(scene: Seq<Cube>) -> bool {
    forall|k: int| 0 <= k < scene.len() ==> (#[trigger] scene[k]).material.reflectivity == ONE
        && scene[k].material.transparency == 0
}

/// Between perfect mirrors a ray bounces until the depth bound and then
/// sees the sky, so what comes back is exactly the sky colour.
pub proof fn lemma_mirrors_show_sky(ray: Ray, scene: Seq<Cube>, light: Light, depth: nat)
    requires
        all_mirrors(scene),
    ensures
        trace(ray, scene, light, depth) == sky(),
    decreases MAX_DEPTH + 1 - depth,
{
    if depth <= MAX_DEPTH {
        lemma_closest_is_nearest(ray, scene);
        match closest_index(ray, scene) {
            None => {},
            Some(j) => {
                let c = scene[j];
                let p = ray_at(ray, entry_of(c, ray));
                let n = face_normal(c, p);
                lemma_mirrors_show_sky(reflected_ray(p, n, ray.direction), scene, light, depth + 1);
                let local = local_spec(ray, p, n, c.material, light);
                assert(color_scale(local, 0) == Color { r: 0, g: 0, b: 0 });
                assert(color_scale(sky(), ONE as int) == sky());
            },
        }
    }
}

/// Whatever the scene, the weights and the depth, every traced colour has
/// its channels in `[0, ONE]`: blends of a reflection or of a refraction,
/// total internal reflection included, stay valid colours.
pub proof fn lemma_trace_is_color(ray: Ray, scene: Seq<Cube>, light: Light, depth: nat)
    ensures
        crate::color::color_wf(trace(ray, scene, light, depth)),
{
}

proof fn lemma_scaled_magnitude_grows(a: int, t1: int, t2: int)
    requires
        0 <= t1 <= t2,
    ensures
        mul_spec(a, t1) * mul_spec(a, t1) <= mul_spec(a, t2) * mul_spec(a, t2),
{
    let m1 = mul_spec(a, t1);
    let m2 = mul_spec(a, t2);
    if a >= 0 {
        assert(0 <= a * t1 <= a * t2) by (nonlinear_arith)
            requires
                0 <= a,
                0 <= t1 <= t2,
        ;
        assert((a * t1) / 1_000_000 <= (a * t2) / 1_000_000) by (nonlinear_arith)
            requires
                0 <= a * t1 <= a * t2,
        ;
        assert(0 <= m1 <= m2);
    } else {
        assert(0 <= -a * t1 <= -a * t2) by (nonlinear_arith)
            requires
                a < 0,
                0 <= t1 <= t2,
        ;
        assert((-a * t1) / 1_000_000 <= (-a * t2) / 1_000_000) by (nonlinear_arith)
            requires
                0 <= -a * t1 <= -a * t2,
        ;
        assert(-(a * t1) == -a * t1 && -(a * t2) == -a * t2) by (nonlinear_arith);
        assert(m2 <= m1 <= 0);
    }
    assert(m1 * m1 <= m2 * m2) by (nonlinear_arith)
        requires
            (0 <= m1 <= m2) || (m2 <= m1 <= 0),
    ;
}

/// Along one ray a smaller parameter is never farther: the offset
/// `direction * t` from the origin is no longer for `t1` than for `t2`,
/// each component and so the squared Euclidean length.
pub proof fn lemma_smaller_parameter_is_nearer(d: Vec3, t1: int, t2: int)
    requires
        0 <= t1 <= t2,
    ensures
        crate::vec3::norm_sq(vscale(d, t1)) <= crate::vec3::norm_sq(vscale(d, t2)),
{
    lemma_scaled_magnitude_grows(d.x as int, t1, t2);
    lemma_scaled_magnitude_grows(d.y as int, t1, t2);
    lemma_scaled_magnitude_grows(d.z as int, t1, t2);
}

/// The cube the tracer picks is also the nearest in space: the offset from
/// the origin to its entry point is no longer than to the entry point of
/// any other cube the ray meets.
pub proof fn lemma_closest_is_nearest_in_space(ray: Ray, scene: Seq<Cube>, k: int)
    requires
        0 <= k < scene.len(),
        hits(scene[k], ray),
    ensures
        closest_index(ray, scene) is Some,
        crate::vec3::norm_sq(vscale(ray.direction, entry_of(scene[closest_index(ray, scene)->0], ray)))
            <= crate::vec3::norm_sq(vscale(ray.direction, entry_of(scene[k], ray))),
{
    lemma_closest_is_nearest(ray, scene);
    let j = closest_index(ray, scene)->0;
    lemma_smaller_parameter_is_nearer(ray.direction, entry_of(scene[j], ray), entry_of(scene[k], ray));
}

/// The chosen cube is met, and no cube is met nearer; when none is chosen,
/// no cube is met at all.
pub proof fn lemma_closest_is_nearest(ray: Ray, scene: Seq<Cube>)
    ensures
        match closest_index(ray, scene) {
            Some(j) => 0 <= j < scene.len() && hits(scene[j], ray) && forall|k: int|
                0 <= k < scene.len() && hits(#[trigger] scene[k], ray) ==> entry_of(scene[j], ray) <= entry_of(scene[k], ray),
            None => forall|k: int| 0 <= k < scene.len() ==> !hits(#[trigger] scene[k], ray),
        },
    decreases scene.len(),
{
    if scene.len() > 0 {
        let prev = scene.drop_last();
        lemma_closest_is_nearest(ray, prev);
        assert forall|k: int| 0 <= k < prev.len() implies prev[k] == #[trigger] scene[k] by {}
    }
}

} // verus!
