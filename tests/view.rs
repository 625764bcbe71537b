use raytracer::camera::{Camera, MAX_HEIGHT, MAX_RADIUS, MIN_HEIGHT, MIN_RADIUS};
use raytracer::color::Color;
use raytracer::cube::Cube;
use raytracer::fixed::ONE;
use raytracer::framebuffer::Framebuffer;
use raytracer::material::Material;
use raytracer::ray::Ray;
use raytracer::render::{pixel_direction, render};
use raytracer::tracer::{cast_ray, Light};
use raytracer::trig::{atan2_fx, cos_fx, sin_fx, HALF_PI, PI};
use raytracer::vec3::Vec3;

fn camera() -> Camera {
    Camera::new(
        Vec3::new(0, 2 * ONE, 5 * ONE),
        Vec3::new(0, 0, 0),
        Vec3::new(0, ONE, 0),
        785_398,
        ONE,
    )
}

#[test]
fn camera_reads_orbit_from_eye() {
    let c = camera();
    assert_eq!(c.orbit_angle, 0);
    assert_eq!(c.orbit_height, 2 * ONE);
    assert_eq!(c.orbit_radius, 5_385_164);
    assert_eq!(c.eye, Vec3::new(0, 2 * ONE, 5_385_164));
    assert_eq!(c.near, 100_000);
    assert_eq!(c.far, 1000 * ONE);
}

#[test]
fn orbit_and_back_restores_eye() {
    for theta in [50_000, -50_000, 3 * ONE, 100 * ONE, -7 * ONE] {
        let mut c = camera();
        let before = c;
        c.orbit(theta);
        assert_ne!(c.eye, before.eye);
        c.orbit(-theta);
        assert_eq!(c, before);
    }
}

#[test]
fn orbit_adds_to_angle_without_wrapping() {
    let mut c = camera();
    c.orbit(-7 * ONE);
    assert_eq!(c.orbit_angle, -7 * ONE);
    c.orbit(50_000);
    assert_eq!(c.orbit_angle, -6_950_000);
    // The eye follows the angle: a full turn lands where it started.
    let mut e = camera();
    e.orbit(raytracer::trig::TWO_PI);
    assert_eq!(e.orbit_angle, raytracer::trig::TWO_PI);
    assert_eq!(e.eye, camera().eye);
}

#[test]
fn orbit_quarter_turn_moves_eye_to_x() {
    let mut c = camera();
    c.orbit(HALF_PI);
    assert!((c.eye.x - 5_385_164).abs() < 100);
    assert!(c.eye.z.abs() < 100);
    assert_eq!(c.eye.y, 2 * ONE);
}

#[test]
fn zoom_and_height_stay_clamped() {
    let mut c = camera();
    c.zoom(-200_000);
    assert_eq!(c.orbit_radius, 5_185_164);
    c.zoom(i64::MIN);
    assert_eq!(c.orbit_radius, MIN_RADIUS);
    c.zoom(i64::MAX);
    assert_eq!(c.orbit_radius, MAX_RADIUS);
    c.change_height(200_000);
    assert_eq!(c.orbit_height, 2_200_000);
    c.change_height(-1000 * ONE);
    assert_eq!(c.orbit_height, MIN_HEIGHT);
    c.change_height(1000 * ONE);
    assert_eq!(c.orbit_height, MAX_HEIGHT);
    assert_eq!(c.eye.y, MAX_HEIGHT);
}

#[test]
fn basis_change_maps_forward() {
    let c = camera();
    let f = c.basis_change(&Vec3::new(0, 0, -ONE));
    let expected = Vec3::new(0, 0, 0).sub(&c.eye).normalize();
    assert!((f.x - expected.x).abs() < 10);
    assert!((f.y - expected.y).abs() < 10);
    assert!((f.z - expected.z).abs() < 10);
    let r = c.basis_change(&Vec3::new(ONE, 0, 0));
    assert!((r.x - ONE).abs() < 10);
    assert!(r.y.abs() < 10 && r.z.abs() < 10);
}

#[test]
fn trig_values() {
    assert_eq!(sin_fx(0), 0);
    assert!((sin_fx(HALF_PI) - ONE).abs() <= 2);
    assert!((cos_fx(0) - ONE).abs() <= 2);
    assert!(sin_fx(PI).abs() <= 2);
    assert!((sin_fx(523_599) - 500_000).abs() <= 5);
    assert_eq!(atan2_fx(0, ONE), 0);
    assert!((atan2_fx(ONE, 0) - HALF_PI).abs() <= 2);
    assert!((atan2_fx(ONE, ONE) - 785_398).abs() <= 2);
    assert!((atan2_fx(-ONE, -ONE) - 3_926_991).abs() <= 2);
}

#[test]
fn color_clamps_and_is_idempotent() {
    let c = Color::new(-5, 400_000, 3 * ONE);
    assert_eq!(c, Color { r: 0, g: 400_000, b: ONE });
    assert_eq!(Color::new(c.r, c.g, c.b), c);
    assert_eq!(Color::white().add(&Color::white()), Color::white());
}

#[test]
fn color_arithmetic() {
    let a = Color::new(500_000, 250_000, ONE);
    assert_eq!(a.scale(2 * ONE), Color::new(ONE, 500_000, ONE));
    assert_eq!(a.scale(-ONE), Color::black());
    assert_eq!(a.mul(&Color::new(500_000, ONE, 0)), Color::new(250_000, 250_000, 0));
    assert_eq!(a.add(&Color::new(100_000, 100_000, 100_000)), Color::new(600_000, 350_000, ONE));
}

#[test]
fn hex_packing() {
    assert_eq!(Color::new(ONE, 0, 500_000).to_hex(), 0xFF0080);
    assert_eq!(Color::white().to_hex(), 0xFFFFFF);
    assert_eq!(Color::black().to_hex(), 0);
    assert_eq!(Color::from_hex(0xFF0080), Color { r: ONE, g: 0, b: 501_960 });
    assert_eq!(Color::from_hex(0xAB_FF0080), Color { r: ONE, g: 0, b: 501_960 });
}

#[test]
fn hex_round_trip_within_one_step() {
    let mut v: i64 = 0;
    while v <= ONE {
        let c = Color::new(v, ONE - v, v / 3);
        let back = Color::from_hex(c.to_hex());
        for (a, b) in [(c.r, back.r), (c.g, back.g), (c.b, back.b)] {
            assert!(255 * (a - b).abs() <= ONE);
        }
        v += 7_919;
    }
}

#[test]
fn framebuffer_points_and_clear() {
    let mut fb = Framebuffer::new(4, 3);
    assert_eq!(fb.get_buffer().len(), 12);
    assert!(fb.get_buffer().iter().all(|&p| p == 0));
    fb.point(1, 2, Color::white());
    assert_eq!(fb.get_buffer()[2 * 4 + 1], 0xFFFFFF);
    fb.point(4, 0, Color::white());
    fb.point(0, 3, Color::white());
    assert_eq!(fb.get_buffer().iter().filter(|&&p| p != 0).count(), 1);
    fb.set_background_color(Color::new(ONE, 0, 0));
    fb.clear();
    assert!(fb.get_buffer().iter().all(|&p| p == 0xFF0000));
}

#[test]
fn render_matches_per_pixel_trace() {
    let c = camera();
    let scene = vec![Cube::new(Vec3::new(0, 0, 0), 2 * ONE, Material::stone())];
    let light = Light::new(Vec3::new(5 * ONE, 10 * ONE, 5 * ONE), Color::white(), ONE);
    let mut fb = Framebuffer::new(6, 4);
    render(&mut fb, &c, &scene, &light);
    for y in 0..4 {
        for x in 0..6 {
            let d = pixel_direction(&c, x, y, 6, 4);
            let expect = cast_ray(&Ray::new(c.eye, d), &scene, &light, 0).to_hex();
            assert_eq!(fb.get_buffer()[y * 6 + x], expect);
        }
    }
    // The centre of the frame looks at the cube.
    let d = pixel_direction(&c, 3, 2, 6, 4);
    assert!(raytracer::tracer::closest_hit(&Ray::new(c.eye, d), &scene).is_intersecting);
}
