use raytracer::color::Color;
use raytracer::cube::Cube;
use raytracer::fixed::{fx_div, fx_mul, isqrt, BIG, ONE};
use raytracer::material::Material;
use raytracer::ray::Ray;
use raytracer::tracer::{closest_hit, reflect, refract};
use raytracer::vec3::Vec3;

fn unit_cube() -> Cube {
    Cube::new(Vec3::new(0, 0, 0), ONE, Material::grass())
}

#[test]
fn slab_hit_front_face() {
    let ray = Ray::new(Vec3::new(0, 0, 5 * ONE), Vec3::new(0, 0, -ONE));
    let hit = unit_cube().ray_intersect(&ray);
    assert!(hit.is_intersecting);
    assert_eq!(hit.distance, 4_500_000);
    assert_eq!(hit.normal, Vec3::new(0, 0, ONE));
    assert_eq!(hit.point, Vec3::new(0, 0, 500_000));
}

#[test]
fn slab_miss_pointing_away() {
    let ray = Ray::new(Vec3::new(5 * ONE, 0, 0), Vec3::new(ONE, 0, 0));
    let hit = unit_cube().ray_intersect(&ray);
    assert!(!hit.is_intersecting);
    assert_eq!(hit.distance, i64::MAX);
}

#[test]
fn slab_hit_each_axis_normal() {
    let cube = unit_cube();
    let cases = [
        (Vec3::new(5 * ONE, 0, 0), Vec3::new(-ONE, 0, 0), Vec3::new(ONE, 0, 0)),
        (Vec3::new(-5 * ONE, 0, 0), Vec3::new(ONE, 0, 0), Vec3::new(-ONE, 0, 0)),
        (Vec3::new(0, 5 * ONE, 0), Vec3::new(0, -ONE, 0), Vec3::new(0, ONE, 0)),
        (Vec3::new(0, -5 * ONE, 0), Vec3::new(0, ONE, 0), Vec3::new(0, -ONE, 0)),
        (Vec3::new(0, 0, -5 * ONE), Vec3::new(0, 0, ONE), Vec3::new(0, 0, -ONE)),
    ];
    for (origin, dir, normal) in cases {
        let hit = cube.ray_intersect(&Ray::new(origin, dir));
        assert!(hit.is_intersecting);
        assert_eq!(hit.distance, 4_500_000);
        assert_eq!(hit.normal, normal);
    }
}

#[test]
fn slab_parallel_ray_outside_misses() {
    // Parallel to the x faces and above the cube.
    let ray = Ray::new(Vec3::new(0, 2 * ONE, 5 * ONE), Vec3::new(0, 0, -ONE));
    assert!(!unit_cube().ray_intersect(&ray).is_intersecting);
}

#[test]
fn slab_origin_inside_is_a_miss() {
    let ray = Ray::new(Vec3::new(0, 0, 0), Vec3::new(0, 0, -ONE));
    assert!(!unit_cube().ray_intersect(&ray).is_intersecting);
}

#[test]
fn normal_falls_back_to_up() {
    let cube = unit_cube();
    assert_eq!(cube.get_normal(&Vec3::new(0, 0, 0)), Vec3::new(0, ONE, 0));
    assert_eq!(cube.get_normal(&Vec3::new(500_000, 0, 0)), Vec3::new(ONE, 0, 0));
    assert_eq!(cube.get_normal(&Vec3::new(0, -499_500, 0)), Vec3::new(0, -ONE, 0));
}

#[test]
fn closest_hit_prefers_nearer_cube() {
    let near = Cube::new(Vec3::new(0, 0, -3 * ONE), ONE, Material::grass());
    let far = Cube::new(Vec3::new(0, 0, -6 * ONE), ONE, Material::stone());
    let ray = Ray::new(Vec3::new(0, 0, 0), Vec3::new(0, 0, -ONE));
    for scene in [vec![near, far], vec![far, near]] {
        let hit = closest_hit(&ray, &scene);
        assert!(hit.is_intersecting);
        assert_eq!(hit.distance, 2_500_000);
        assert_eq!(hit.normal, Vec3::new(0, 0, ONE));
        assert_eq!(hit.material.diffuse, Material::grass().diffuse);
    }
}

#[test]
fn closest_hit_empty_scene_misses() {
    let ray = Ray::new(Vec3::new(0, 0, 0), Vec3::new(0, 0, -ONE));
    let hit = closest_hit(&ray, &Vec::new());
    assert!(!hit.is_intersecting);
}

#[test]
fn refraction_total_internal_reflection_falls_back() {
    // Leaving water upward at sixty degrees from the normal.
    let incident = Vec3::new(866_025, 500_000, 0);
    let normal = Vec3::new(0, ONE, 0);
    let out = refract(&incident, &normal, 1_330_000);
    assert_eq!(out, reflect(&incident, &normal.neg()));
    assert_eq!(out, Vec3::new(866_025, -500_000, 0));
}

#[test]
fn refraction_head_on_passes_straight() {
    let incident = Vec3::new(0, -ONE, 0);
    let normal = Vec3::new(0, ONE, 0);
    let out = refract(&incident, &normal, 1_330_000);
    assert_eq!(out.x, 0);
    assert!((out.y + ONE).abs() <= 2);
}

#[test]
fn refraction_bends_toward_normal() {
    let incident = Vec3::new(707_107, -707_107, 0);
    let normal = Vec3::new(0, ONE, 0);
    let out = refract(&incident, &normal, 1_330_000);
    // sin of the refracted angle is 0.7071 / 1.33.
    assert!((out.x - 531_659).abs() < 10);
    assert!(out.y < -800_000);
}

#[test]
fn reflect_mirrors_about_normal() {
    let out = reflect(&Vec3::new(ONE, -ONE, 0), &Vec3::new(0, ONE, 0));
    assert_eq!(out, Vec3::new(ONE, ONE, 0));
}

#[test]
fn fixed_point_arithmetic() {
    assert_eq!(fx_mul(1_500_000, 2_000_000), 3_000_000);
    assert_eq!(fx_mul(-1_500_000, 2_000_000), -3_000_000);
    assert_eq!(fx_div(ONE, 4 * ONE), 250_000);
    assert_eq!(fx_div(ONE, 0), BIG);
    assert_eq!(fx_div(-ONE, 0), -BIG);
    assert_eq!(fx_div(0, 0), 0);
    assert_eq!(fx_mul(i64::MAX, i64::MAX), BIG);
    assert_eq!(isqrt(29), 5);
    assert_eq!(isqrt(36), 6);
}

#[test]
fn vector_normalize_and_cross() {
    let v = Vec3::new(3 * ONE, 0, 4 * ONE);
    assert_eq!(v.length(), 5 * ONE);
    assert_eq!(v.normalize(), Vec3::new(600_000, 0, 800_000));
    assert_eq!(Vec3::zeros().normalize(), Vec3::zeros());
    let x = Vec3::new(ONE, 0, 0);
    let y = Vec3::new(0, ONE, 0);
    assert_eq!(x.cross(&y), Vec3::new(0, 0, ONE));
    assert_eq!(x.dot(&y), 0);
}

#[test]
fn ray_at_parameter() {
    let ray = Ray::new(Vec3::new(ONE, 0, 0), Vec3::new(0, ONE, 0));
    assert_eq!(ray.at(2_500_000), Vec3::new(ONE, 2_500_000, 0));
}

#[test]
fn color_constants() {
    assert_eq!(Color::black(), Color { r: 0, g: 0, b: 0 });
    assert_eq!(Color::white(), Color { r: ONE, g: ONE, b: ONE });
}
