use raytracer::color::Color;
use raytracer::cube::Cube;
use raytracer::fixed::ONE;
use raytracer::intersect::Intersect;
use raytracer::material::Material;
use raytracer::ray::Ray;
use raytracer::tracer::{cast_ray, fx_pow, sky_color, Light, MAX_DEPTH};
use raytracer::vec3::Vec3;

fn mirror() -> Material {
    Material::new(Color::white(), 10, [900_000, 100_000], ONE, 0, ONE)
}

fn white_light() -> Light {
    Light::new(Vec3::new(0, 10 * ONE, 0), Color::white(), ONE)
}

#[test]
fn facing_mirrors_end_in_sky() {
    let scene = vec![
        Cube::new(Vec3::new(0, 0, -4 * ONE), 2 * ONE, mirror()),
        Cube::new(Vec3::new(0, 0, 4 * ONE), 2 * ONE, mirror()),
    ];
    let ray = Ray::new(Vec3::new(0, 0, 0), Vec3::new(0, 0, -ONE));
    assert_eq!(cast_ray(&ray, &scene, &white_light(), 0), sky_color());
}

#[test]
fn beyond_max_depth_is_sky() {
    let scene = vec![Cube::new(Vec3::new(0, 0, -4 * ONE), 2 * ONE, Material::grass())];
    let ray = Ray::new(Vec3::new(0, 0, 0), Vec3::new(0, 0, -ONE));
    assert_eq!(cast_ray(&ray, &scene, &white_light(), MAX_DEPTH + 1), sky_color());
    assert_ne!(cast_ray(&ray, &scene, &white_light(), 0), sky_color());
}

#[test]
fn empty_scene_is_sky() {
    let ray = Ray::new(Vec3::new(0, 0, 0), Vec3::new(0, 0, -ONE));
    assert_eq!(cast_ray(&ray, &Vec::new(), &white_light(), 0), sky_color());
    assert_eq!(sky_color(), Color { r: 680_000, g: 850_000, b: 900_000 });
}

#[test]
fn matte_face_lit_head_on() {
    // Light straight in front of the face: diffuse weight times colour,
    // plus a full specular highlight.
    let m = Material::new(Color::new(500_000, 500_000, 500_000), 1, [ONE, 0], ONE, 0, 0);
    let scene = vec![Cube::new(Vec3::new(0, 0, -4 * ONE), 2 * ONE, m)];
    let light = Light::new(Vec3::new(0, 0, 0), Color::white(), ONE);
    let ray = Ray::new(Vec3::new(0, 0, 0), Vec3::new(0, 0, -ONE));
    assert_eq!(cast_ray(&ray, &scene, &light, 0), Color::new(500_000, 500_000, 500_000));
}

#[test]
fn light_behind_face_leaves_it_dark() {
    let m = Material::new(Color::white(), 1, [ONE, 0], ONE, 0, 0);
    let scene = vec![Cube::new(Vec3::new(0, 0, -4 * ONE), 2 * ONE, m)];
    let light = Light::new(Vec3::new(0, 0, -10 * ONE), Color::white(), ONE);
    let ray = Ray::new(Vec3::new(0, 0, 0), Vec3::new(0, 0, -ONE));
    assert_eq!(cast_ray(&ray, &scene, &light, 0), Color::black());
}

#[test]
fn water_at_grazing_angle_gives_a_colour() {
    let scene = vec![Cube::new(Vec3::new(0, -2 * ONE, 0), 2 * ONE, Material::water())];
    let dir = Vec3::new(ONE, -100_000, 0).normalize();
    let ray = Ray::new(Vec3::new(-5 * ONE, 0, 0), dir);
    let c = cast_ray(&ray, &scene, &white_light(), 0);
    for ch in [c.r, c.g, c.b] {
        assert!((0..=ONE).contains(&ch));
    }
}

#[test]
fn specular_power() {
    assert_eq!(fx_pow(500_000, 0), ONE);
    assert_eq!(fx_pow(500_000, 3), 125_000);
    assert_eq!(fx_pow(ONE, 50), ONE);
}

#[test]
fn miss_record_is_far_and_black() {
    let miss = Intersect::empty();
    assert!(!miss.is_intersecting);
    assert_eq!(miss.distance, i64::MAX);
    assert_eq!(miss.material.diffuse, Color::black());
    let hit = Intersect::new(Vec3::new(1, 2, 3), Vec3::new(0, ONE, 0), 7, Material::stone());
    assert!(hit.is_intersecting);
    assert_eq!(hit.distance, 7);
}

#[test]
fn material_presets() {
    let w = Material::water();
    assert_eq!(w.diffuse, Color { r: 300_000, g: 500_000, b: 800_000 });
    assert_eq!(w.specular, 50);
    assert_eq!(w.albedo, [300_000, 700_000]);
    assert_eq!(w.refractive_index, 1_330_000);
    assert_eq!(w.transparency, 900_000);
    assert_eq!(w.reflectivity, 400_000);
    assert_eq!(Material::grass().albedo, [900_000, 100_000]);
    assert_eq!(Material::dirt().specular, 5);
    assert_eq!(Material::cherry_wood().diffuse, Color { r: 800_000, g: 500_000, b: 500_000 });
    assert_eq!(Material::cherry_leaves().transparency, 300_000);
    assert_eq!(Material::stone().reflectivity, 100_000);
    assert_eq!(Material::black().diffuse, Color::black());
}
