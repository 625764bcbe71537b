//! A recursive ray tracer over axis-aligned cubes, in fixed-point
//! arithmetic.
//!
//! - `fixed`, `vec3`, `trig`: saturating fixed-point scalars, vectors and
//!   angles.
//! - `color`, `material`, `ray`, `intersect`, `cube`: the scene's values and
//!   the slab test.
//! - `tracer`: closest hit, local shading, reflection and refraction, with a
//!   bounded depth.
//! - `camera`, `framebuffer`, `render`: the orbiting viewpoint and one frame
//!   of primary rays.
//! - `scenery`: the voxel diorama's terrain, colours and shadow marching.
pub mod fixed;
pub mod vec3;
pub mod trig;
pub mod color;
pub mod material;
pub mod ray;
pub mod intersect;
pub mod cube;
pub mod tracer;
pub mod camera;
pub mod framebuffer;
pub mod render;
pub mod scenery;
