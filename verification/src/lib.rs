//! A path-tracing renderer whose geometric core is verified.
//!
//! All geometry is carried in signed fixed-point scalars (65536 units to one),
//! so every intersection, bounding-box and shading computation has an exact
//! integer meaning that the contracts state and Verus checks.

pub mod aabb;
pub mod bvh;
pub mod camera;
pub mod color;
pub mod encoder;
pub mod extensions;
pub mod fixed;
pub mod interval;
pub mod material;
pub mod object;
pub mod perlin;
pub mod ray;
pub mod rendered_image;
pub mod ray_generator;
pub mod rng;
pub mod scene;
pub mod texture;
pub mod vector;

use vstd::prelude::*;

verus! {

} // verus!
