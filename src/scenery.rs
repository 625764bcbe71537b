//! The voxel diorama: terrain height, block and tree colours, and the
//! shadow test that marches from a block toward the sun.
use vstd::prelude::*;
use crate::fixed::{add_spec, fx_add, fx_mul, fx_sub, mul_spec, sub_spec, ONE};
use crate::trig::{abs_spec, cos_fx, cos_spec, sin_fx, sin_spec, turn, wrap_angle};
use crate::vec3::{mk, vlength, Vec3};

verus! {

/// Number of probes along the way to the sun, the first one included.
pub const SHADOW_STEPS: i64 = 15;
/// Distance between two probes.
pub const SHADOW_STEP: i64 = 600_000;
/// Above this height a probe has left every occluder behind.
pub const SHADOW_CEILING: i64 = 60_000_000;
/// Spacing of the leaf layers of a tree, and their growth in width.
pub const LEAF_STEP: i64 = 800_000;
/// Width of the top leaf layer of a tree.
pub const LEAF_BASE: i64 = 1_500_000;

#[derive(Clone, Copy, Debug, PartialEq, Eq, Structural)]
pub enum TreeType {
    Oak,
    Cherry,
    Birch,
}

/// A tree standing at `(x, z)`: a trunk of `height`, then `leaf_layers`
/// layers of leaves, each narrower than the one below.
#[derive(Clone, Copy, Debug, PartialEq, Eq, Structural)]
pub struct Tree {
    pub x: i64,
    pub z: i64,
    pub height: i64,
    pub leaf_layers: i32,
    pub tree_type: TreeType,
}

/// A rock of width `size` lying on the terrain at `(x, z)`.
#[derive(Clone, Copy, Debug, PartialEq, Eq, Structural)]
pub struct Rock {
    pub x: i64,
    pub z: i64,
    pub size: i64,
}

/// An 8-bit colour with alpha.
#[derive(Clone, Copy, Debug, PartialEq, Eq, Structural)]
pub struct Rgba {
    pub r: u8,
    pub g: u8,
    pub b: u8,
    pub a: u8,
}

/// `(sin(kx) + cos(kz)) 2.5 + sin(x/2) cos(z/2) 1.5 + 2`: the rolling
/// height of the ground, with `k` its frequency.
pub open spec fn height_field_spec(x: int, z: int, k: int) -> int {
    let a = add_spec(sin_spec(wrap_angle(mul_spec(x, k))), cos_spec(wrap_angle(mul_spec(z, k))));
    let b = mul_spec(sin_spec(wrap_angle(mul_spec(x, 500_000))), cos_spec(wrap_angle(mul_spec(z, 500_000))));
    add_spec(add_spec(mul_spec(a, 2_500_000), mul_spec(b, 1_500_000)), 2 * ONE)
}

pub fn height_field(x: i64, z: i64, k: i64) -> (h: i64)
    ensures
        h == height_field_spec(x as int, z as int, k as int),
{
    let a = fx_add(sin_fx(turn(fx_mul(x, k), 0)), cos_fx(turn(fx_mul(z, k), 0)));
    let b = fx_mul(sin_fx(turn(fx_mul(x, 500_000), 0)), cos_fx(turn(fx_mul(z, 500_000), 0)));
    fx_add(fx_add(fx_mul(a, 2_500_000), fx_mul(b, 1_500_000)), 2 * ONE)
}

/// Rounds a scalar to the nearest whole number, halves away from zero.
pub open spec fn round_spec(v: int) -> int {
    if v >= 0 {
        (v + ONE / 2) / (ONE as int)
    } else {
        -((-v + ONE / 2) / (ONE as int))
    }
}

pub fn round_fx(v: i64) -> (r: i64)
    ensures
        r == round_spec(v as int),
{
    let w: i128 = v as i128;
    let half: i128 = (ONE / 2) as i128;
    let q: i128 = if w >= 0 { (w + half) / (ONE as i128) } else { -((-w + half) / (ONE as i128)) };
    q as i64
}

/// Horizontal distance from `q` to the column at `(x, z)`.
pub open spec fn planar_dist(q: Vec3, x: int, z: int) -> int {
    vlength(mk(sub_spec(q.x as int, x), 0, sub_spec(q.z as int, z)))
}

/// The `i`-th probe from `p` toward the sun, which lies along `-dir`.
pub open spec fn probe(p: Vec3, dir: Vec3, i: int) -> Vec3 {
    let s = i * SHADOW_STEP;
    mk(
        sub_spec(p.x as int, mul_spec(dir.x as int, s)),
        sub_spec(p.y as int, mul_spec(dir.y as int, s)),
        sub_spec(p.z as int, mul_spec(dir.z as int, s)),
    )
}

/// Height of the leaf layer `layer` of `t`.
pub open spec fn layer_height(t: Tree, layer: int) -> int {
    add_spec(t.height as int, layer * LEAF_STEP)
}

/// Width of the leaf layer `layer` of `t`.
pub open spec fn layer_width(t: Tree, layer: int) -> int {
    (t.leaf_layers - layer) * LEAF_STEP + LEAF_BASE
}

pub open spec fn leaf_blocks(t: Tree, q: Vec3, layer: int) -> bool {
    &&& 2 * planar_dist(q, t.x as int, t.z as int) < layer_width(t, layer)
    &&& abs_spec(sub_spec(q.y as int, layer_height(t, layer))) < SHADOW_STEP
}

/// Whether `q` lies in the trunk or in a leaf layer of `t`.
pub open spec fn tree_blocks(t: Tree, q: Vec3) -> bool {
    ||| (planar_dist(q, t.x as int, t.z as int) < ONE / 2 && 0 <= q.y && q.y <= t.height)
    ||| exists|layer: int| 0 <= layer < t.leaf_layers && #[trigger] leaf_blocks(t, q, layer)
}

/// Whether `q` lies in the rock `r`, which sits on the ground as the rocks'
/// height field gives it.
pub open spec fn rock_blocks(r: Rock, q: Vec3) -> bool {
    &&& 2 * planar_dist(q, r.x as int, r.z as int) < r.size
    &&& abs_spec(sub_spec(q.y as int, height_field_spec(r.x as int, r.z as int, 300_000))) < r.size
}

pub open spec fn blocked(q: Vec3, trees: Seq<Tree>, rocks: Seq<Rock>) -> bool {
    ||| exists|k: int| 0 <= k < trees.len() && tree_blocks(#[trigger] trees[k], q)
    ||| exists|k: int| 0 <= k < rocks.len() && rock_blocks(#[trigger] rocks[k], q)
}

/// A probe on the way to the sun meets a tree or a rock before the probes
/// rise above the ceiling.
pub open spec fn in_shadow_spec(p: Vec3, trees: Seq<Tree>, rocks: Seq<Rock>, dir: Vec3) -> bool {
    exists|i: int|
        1 <= i < SHADOW_STEPS && #[trigger] blocked(probe(p, dir, i), trees, rocks) && forall|j: int|
            1 <= j < i ==> (#[trigger] probe(p, dir, j)).y <= SHADOW_CEILING
}

fn planar_distance(q: &Vec3, x: i64, z: i64) -> (d: i64)
    ensures
        d == planar_dist(*q, x as int, z as int),
        d >= 0,
{
    Vec3::new(fx_sub(q.x, x), 0, fx_sub(q.z, z)).length()
}

fn tree_blocks_fx(t: &Tree, q: &Vec3) -> (b: bool)
    ensures
        b == tree_blocks(*t, *q),
{
    let dist = planar_distance(q, t.x, t.z);
    if dist < ONE / 2 && q.y >= 0 && q.y <= t.height {
        return true;
    }
    let mut layer: i32 = 0;
    while layer < t.leaf_layers
        invariant
            0 <= layer,
            t.leaf_layers >= 0 ==> layer <= t.leaf_layers,
            dist == planar_dist(*q, t.x as int, t.z as int),
            forall|l: int| 0 <= l < layer ==> !#[trigger] leaf_blocks(*t, *q, l),
        decreases t.leaf_layers - layer,
    {
        let layer_y = fx_add(t.height, layer as i64 * LEAF_STEP);
        let width = (t.leaf_layers - layer) as i64 * LEAF_STEP + LEAF_BASE;
        let dy = fx_sub(q.y, layer_y);
        let ady = if dy < 0 { -dy } else { dy };
        if 2 * (dist as i128) < width as i128 && ady < SHADOW_STEP {
            assert(leaf_blocks(*t, *q, layer as int));
            return true;
        }
        layer = layer + 1;
    }
    false
}

fn rock_blocks_fx(r: &Rock, q: &Vec3) -> (b: bool)
    ensures
        b == rock_blocks(*r, *q),
{
    let dist = planar_distance(q, r.x, r.z);
    let h = height_field(r.x, r.z, 300_000);
    let dy = fx_sub(q.y, h);
    let ady = if dy < 0 { -dy } else { dy };
    2 * (dist as i128) < r.size as i128 && ady < r.size
}

fn blocked_fx(q: &Vec3, trees: &Vec<Tree>, rocks: &Vec<Rock>) -> (b: bool)
    ensures
        b == blocked(*q, trees@, rocks@),
{
    let mut k: usize = 0;
    while k < trees.len()
        invariant
            k <= trees@.len(),
            forall|j: int| 0 <= j < k ==> !tree_blocks(#[trigger] trees@[j], *q),
        decreases trees@.len() - k,
    {
        if tree_blocks_fx(&trees[k], q) {
            return true;
        }
        k = k + 1;
    }
    let mut k: usize = 0;
    while k < rocks.len()
        invariant
            k <= rocks@.len(),
            forall|j: int| 0 <= j < trees@.len() ==> !tree_blocks(#[trigger] trees@[j], *q),
            forall|j: int| 0 <= j < k ==> !rock_blocks(#[trigger] rocks@[j], *q),
        decreases rocks@.len() - k,
    {
        if rock_blocks_fx(&rocks[k], q) {
            return true;
        }
        k = k + 1;
    }
    false
}

/// Whether the block at `(x, y, z)` lies in the shadow of a tree or a rock,
/// for sunlight travelling along `light_dir`.
pub fn is_in_shadow(x: i64, y: i64, z: i64, trees: &Vec<Tree>, rocks: &Vec<Rock>, light_dir: Vec3) -> (b: bool)
    ensures
        b == in_shadow_spec(Vec3 { x, y, z }, trees@, rocks@, light_dir),
{
    let p = Vec3::new(x, y, z);
    let mut i: i64 = 1;
    while i < SHADOW_STEPS
        invariant
            1 <= i <= SHADOW_STEPS,
            p == (Vec3 { x, y, z }),
            forall|j: int| 1 <= j < i ==> !#[trigger] blocked(probe(p, light_dir, j), trees@, rocks@),
            forall|j: int| 1 <= j < i ==> (#[trigger] probe(p, light_dir, j)).y <= SHADOW_CEILING,
        decreases SHADOW_STEPS - i,
    {
        let s = i * SHADOW_STEP;
        let q = Vec3::new(
            fx_sub(x, fx_mul(light_dir.x, s)),
            fx_sub(y, fx_mul(light_dir.y, s)),
            fx_sub(z, fx_mul(light_dir.z, s)),
        );
        assert(q == probe(p, light_dir, i as int));
        if blocked_fx(&q, trees, rocks) {
            return true;
        }
        if q.y > SHADOW_CEILING {
            assert(!in_shadow_spec(p, trees@, rocks@, light_dir)) by {
                assert forall|k: int| 1 <= k < SHADOW_STEPS implies !(#[trigger] blocked(
                    probe(p, light_dir, k),
                    trees@,
                    rocks@,
                ) && forall|j: int| 1 <= j < k ==> (#[trigger] probe(p, light_dir, j)).y <= SHADOW_CEILING) by {
                    if k > i {
                        assert(probe(p, light_dir, i as int).y > SHADOW_CEILING);
                    }
                }
            }
            return false;
        }
        i = i + 1;
    }
    false
}

/// Halves the colour channels of a shadowed block; alpha is kept.
pub fn apply_shadow(base_color: Rgba, in_shadow: bool) -> (c: Rgba)
    ensures
        in_shadow ==> c == (Rgba { r: base_color.r / 2, g: base_color.g / 2, b: base_color.b / 2, a: base_color.a }),
        !in_shadow ==> c == base_color,
{
    if in_shadow {
        Rgba { r: base_color.r / 2, g: base_color.g / 2, b: base_color.b / 2, a: base_color.a }
    } else {
        base_color
    }
}

pub open spec fn grass_block() -> Rgba {
    Rgba { r: 34, g: 139, b: 34, a: 255 }
}

pub open spec fn dirt_block() -> Rgba {
    Rgba { r: 101, g: 67, b: 33, a: 255 }
}

pub open spec fn stone_block() -> Rgba {
    Rgba { r: 70, g: 70, b: 70, a: 255 }
}

/// Colour of the block at level `y` of a column `top` blocks high: grass on
/// top, two levels of dirt below it, stone further down.
pub fn block_color(y: i32, top: i32) -> (c: Rgba)
    ensures
        y == top - 1 ==> c == grass_block(),
        y != top - 1 && y >= top - 2 ==> c == dirt_block(),
        y < top - 2 ==> c == stone_block(),
{
    if y as i64 == top as i64 - 1 {
        Rgba { r: 34, g: 139, b: 34, a: 255 }
    } else if y as i64 >= top as i64 - 2 {
        Rgba { r: 101, g: 67, b: 33, a: 255 }
    } else {
        Rgba { r: 70, g: 70, b: 70, a: 255 }
    }
}

/// Trunk and leaf colours of each kind of tree.
pub open spec fn palette(t: TreeType) -> (Rgba, Rgba) {
    match t {
        TreeType::Oak => (Rgba { r: 101, g: 67, b: 33, a: 255 }, Rgba { r: 34, g: 139, b: 34, a: 255 }),
        TreeType::Cherry => (Rgba { r: 139, g: 90, b: 43, a: 255 }, Rgba { r: 255, g: 182, b: 193, a: 255 }),
        TreeType::Birch => (Rgba { r: 245, g: 245, b: 220, a: 255 }, Rgba { r: 50, g: 205, b: 50, a: 255 }),
    }
}

pub fn tree_palette(t: TreeType) -> (p: (Rgba, Rgba))
    ensures
        p == palette(t),
{
    match t {
        TreeType::Oak => (Rgba { r: 101, g: 67, b: 33, a: 255 }, Rgba { r: 34, g: 139, b: 34, a: 255 }),
        TreeType::Cherry => (Rgba { r: 139, g: 90, b: 43, a: 255 }, Rgba { r: 255, g: 182, b: 193, a: 255 }),
        TreeType::Birch => (Rgba { r: 245, g: 245, b: 220, a: 255 }, Rgba { r: 50, g: 205, b: 50, a: 255 }),
    }
}

/// The kind of tree that a draw of `0`, `1` or anything else picks.
pub fn tree_type_of(n: u32) -> (t: TreeType)
    ensures
        n == 0 ==> t == TreeType::Oak,
        n == 1 ==> t == TreeType::Cherry,
        n > 1 ==> t == TreeType::Birch,
{
    match n {
        0 => TreeType::Oak,
        1 => TreeType::Cherry,
        _ => TreeType::Birch,
    }
}

/// Whether column `x` lies within `width` of the river's centre line.
pub fn in_river(x: i32, center: i32, width: i32) -> (b: bool)
    ensures
        b == (abs_spec(x - center) < width),
{
    let d = x as i64 - center as i64;
    let ad = if d < 0 { -d } else { d };
    ad < width as i64
}

/// Trees stand only outside the river's banks.
pub fn tree_allowed(x: i32, center: i32, width: i32) -> (b: bool)
    ensures
        b == (x < center - width || x > center + width),
{
    (x as i64) < center as i64 - width as i64 || (x as i64) > center as i64 + width as i64
}

} // verus!
