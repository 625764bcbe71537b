use raytracer::fixed::ONE;
use raytracer::scenery::{
    apply_shadow, block_color, height_field, in_river, is_in_shadow, round_fx, tree_allowed, tree_palette,
    tree_type_of, Rgba, Rock, Tree, TreeType,
};
use raytracer::vec3::Vec3;

fn up_light() -> Vec3 {
    // Probes walk away from the light's direction: straight up here.
    Vec3::new(0, -ONE, 0)
}

fn tree_at(x: i64, z: i64, height: i64, leaf_layers: i32) -> Tree {
    Tree { x, z, height, leaf_layers, tree_type: TreeType::Oak }
}

#[test]
fn shadow_under_trunk() {
    let trees = vec![tree_at(0, 0, 4 * ONE, 3)];
    assert!(is_in_shadow(200_000, 0, 200_000, &trees, &Vec::new(), up_light()));
    assert!(!is_in_shadow(10 * ONE, 0, 10 * ONE, &trees, &Vec::new(), up_light()));
}

#[test]
fn shadow_under_leaves_only() {
    // Outside the trunk, inside the widest leaf layer (half width 1.55).
    let trees = vec![tree_at(0, 0, 4 * ONE, 2)];
    assert!(is_in_shadow(ONE, 2 * ONE, 0, &trees, &Vec::new(), up_light()));
    assert!(!is_in_shadow(1_600_000, 2 * ONE, 0, &trees, &Vec::new(), up_light()));
}

#[test]
fn shadow_under_rock() {
    let h = height_field(5 * ONE, 5 * ONE, 300_000);
    let rocks = vec![Rock { x: 5 * ONE, z: 5 * ONE, size: ONE }];
    assert!(is_in_shadow(5 * ONE, h - 600_000, 5 * ONE, &Vec::new(), &rocks, up_light()));
    assert!(!is_in_shadow(7 * ONE, h - 600_000, 5 * ONE, &Vec::new(), &rocks, up_light()));
}

#[test]
fn shadow_march_stops_above_ceiling() {
    // A crown at height 61 over a block 0.8 from the trunk.
    let trees = vec![tree_at(0, 0, 61 * ONE, 1)];
    assert!(is_in_shadow(800_000, 59_300_000, 0, &trees, &Vec::new(), up_light()));
    assert!(!is_in_shadow(800_000, 59_700_000, 0, &trees, &Vec::new(), up_light()));
}

#[test]
fn no_occluders_no_shadow() {
    assert!(!is_in_shadow(0, 0, 0, &Vec::new(), &Vec::new(), up_light()));
}

#[test]
fn shadow_halves_channels() {
    let c = Rgba { r: 101, g: 67, b: 33, a: 255 };
    assert_eq!(apply_shadow(c, true), Rgba { r: 50, g: 33, b: 16, a: 255 });
    assert_eq!(apply_shadow(c, false), c);
}

#[test]
fn block_colors_by_level() {
    assert_eq!(block_color(4, 5), Rgba { r: 34, g: 139, b: 34, a: 255 });
    assert_eq!(block_color(3, 5), Rgba { r: 101, g: 67, b: 33, a: 255 });
    assert_eq!(block_color(2, 5), Rgba { r: 70, g: 70, b: 70, a: 255 });
}

#[test]
fn tree_kinds_and_colors() {
    assert_eq!(tree_type_of(0), TreeType::Oak);
    assert_eq!(tree_type_of(1), TreeType::Cherry);
    assert_eq!(tree_type_of(2), TreeType::Birch);
    let (trunk, leaves) = tree_palette(TreeType::Cherry);
    assert_eq!(trunk, Rgba { r: 139, g: 90, b: 43, a: 255 });
    assert_eq!(leaves, Rgba { r: 255, g: 182, b: 193, a: 255 });
}

#[test]
fn river_banks() {
    assert!(in_river(20, 20, 4));
    assert!(in_river(23, 20, 4));
    assert!(!in_river(24, 20, 4));
    assert!(!tree_allowed(24, 20, 4));
    assert!(tree_allowed(25, 20, 4));
    assert!(tree_allowed(15, 20, 4));
    assert!(!tree_allowed(16, 20, 4));
}

#[test]
fn terrain_height_values() {
    // At the origin: (sin 0 + cos 0) 2.5 + 0 + 2 = 4.5.
    assert!((height_field(0, 0, 200_000) - 4_500_000).abs() <= 10);
    assert_eq!(round_fx(4_500_000), 5);
    assert_eq!(round_fx(4_499_999), 4);
    assert_eq!(round_fx(-1_500_000), -2);
}
