//! A small offline ray tracer built on fixed-point arithmetic.
//!
//! Scene geometry (transforms, spheres, quads), thin-lens camera rays,
//! Monte Carlo samplers and the ambient-occlusion integrator all work on a
//! scaled-integer scalar, so every step of the rendering pipeline carries an
//! exact contract.

use vstd::prelude::*;

pub mod angle;
pub mod basis;
pub mod camera;
pub mod config;
pub mod fixed;
pub mod image;
pub mod integrator;
pub mod light;
pub mod material;
pub mod matrix;
pub mod object;
pub mod object_group;
pub mod quad;
pub mod ray;
pub mod rng;
pub mod sampler;
pub mod scene;
pub mod shape;
pub mod sphere;
pub mod texture;
pub mod transform;
pub mod trig;
pub mod vector;

verus! {

} // verus!
