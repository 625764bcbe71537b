//! Surface materials and the fixed catalogue of presets.
use vstd::prelude::*;
use crate::color::Color;
use crate::fixed::ONE;

verus! {

/// Shading parameters of a surface. Scalars are fixed-point; the specular
/// exponent is a whole number.
#[derive(Clone, Copy, Debug)]
pub struct Material {
    /// Base colour.
    pub diffuse: Color,
    /// Exponent of the specular highlight.
    pub specular: u32,
    /// Weights of the diffuse and the specular term.
    pub albedo: [i64; 2],
    /// Refractive index; `ONE` is vacuum.
    pub refractive_index: i64,
    /// `0` is opaque, `ONE` fully transparent.
    pub transparency: i64,
    /// `0` reflects nothing, `ONE` is a mirror.
    pub reflectivity: i64,
}

/// Whether `m` holds exactly the given parameters.
pub open spec fn material_is(
    m: Material,
    diffuse: Color,
    specular: u32,
    albedo0: i64,
    albedo1: i64,
    refractive_index: i64,
    transparency: i64,
    reflectivity: i64,
) -> bool {
    &&& m.diffuse == diffuse
    &&& m.specular == specular
    &&& m.albedo[0] == albedo0
    &&& m.albedo[1] == albedo1
    &&& m.refractive_index == refractive_index
    &&& m.transparency == transparency
    &&& m.reflectivity == reflectivity
}

impl Material {
    pub fn new(
        diffuse: Color,
        specular: u32,
        albedo: [i64; 2],
        refractive_index: i64,
        transparency: i64,
        reflectivity: i64,
    ) -> (m: Material)
        ensures
            material_is(m, diffuse, specular, albedo[0], albedo[1], refractive_index, transparency, reflectivity),
    {
        Material { diffuse, specular, albedo, refractive_index, transparency, reflectivity }
    }

    /// Ground cover: green and matte.
    pub fn grass() -> (m: Material)
        ensures
            material_is(m, Color { r: 400_000, g: 800_000, b: 200_000 }, 10, 900_000, 100_000, ONE, 0, 0),
    {
        Material::new(Color::new(400_000, 800_000, 200_000), 10, [900_000, 100_000], ONE, 0, 0)
    }

    /// Soil: brown and matte.
    pub fn dirt() -> (m: Material)
        ensures
            material_is(m, Color { r: 550_000, g: 400_000, b: 250_000 }, 5, 950_000, 50_000, ONE, 0, 0),
    {
        Material::new(Color::new(550_000, 400_000, 250_000), 5, [950_000, 50_000], ONE, 0, 0)
    }

    /// Cherry wood: a pinkish brown.
    pub fn cherry_wood() -> (m: Material)
        ensures
            material_is(m, Color { r: 800_000, g: 500_000, b: 500_000 }, 15, 850_000, 150_000, ONE, 0, 0),
    {
        Material::new(Color::new(800_000, 500_000, 500_000), 15, [850_000, 150_000], ONE, 0, 0)
    }

    /// Cherry leaves: pink and partly transparent.
    pub fn cherry_leaves() -> (m: Material)
        ensures
            material_is(m, Color { r: ONE, g: 700_000, b: 800_000 }, 8, 800_000, 200_000, ONE, 300_000, 0),
    {
        Material::new(Color::new(ONE, 700_000, 800_000), 8, [800_000, 200_000], ONE, 300_000, 0)
    }

    /// Water: blue, refracting with index 1.33 and partly reflecting.
    pub fn water() -> (m: Material)
        ensures
            material_is(m, Color { r: 300_000, g: 500_000, b: 800_000 }, 50, 300_000, 700_000, 1_330_000, 900_000, 400_000),
    {
        Material::new(Color::new(300_000, 500_000, 800_000), 50, [300_000, 700_000], 1_330_000, 900_000, 400_000)
    }

    /// Stone: grey, slightly reflective.
    pub fn stone() -> (m: Material)
        ensures
            material_is(m, Color { r: 500_000, g: 500_000, b: 500_000 }, 20, 800_000, 200_000, ONE, 0, 100_000),
    {
        Material::new(Color::new(500_000, 500_000, 500_000), 20, [800_000, 200_000], ONE, 0, 100_000)
    }

    /// A black surface that neither shines, refracts nor reflects.
    pub fn black() -> (m: Material)
        ensures
            material_is(m, Color { r: 0, g: 0, b: 0 }, 0, 0, 0, ONE, 0, 0),
    {
        Material::new(Color::black(), 0, [0, 0], ONE, 0, 0)
    }
}

} // verus!
