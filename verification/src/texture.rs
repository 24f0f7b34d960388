//! Textures map a surface point's coordinates to a color value.

use vstd::prelude::*;

use crate::fixed::Fx;
use crate::light::Spectrum;
use crate::ray::Ray3;
use crate::vector::{Vec3, Color3, V3};

verus! {

/// The view-level value of the all-zero surface coordinates.
pub open spec fn default_coords() -> TextureCoordinates {
    TextureCoordinates {
        u: Fx { raw: 0 },
        v: Fx { raw: 0 },
        normal: Vec3 { x: Fx { raw: 0 }, y: Fx { raw: 0 }, z: Fx { raw: 0 } },
    }
}

/// Surface coordinates a texture may consult.
#[derive(Clone, Copy, Debug, PartialEq, Eq, Structural)]
pub struct TextureCoordinates {
    pub u: Fx,
    pub v: Fx,
    pub normal: Vec3,
}

impl TextureCoordinates {
    /// The all-zero coordinates.
    pub fn default() -> (r: TextureCoordinates)
        ensures
            r == default_coords(),
    {
        TextureCoordinates { u: Fx::zero(), v: Fx::zero(), normal: Vec3::origin() }
    }
}

/// A texture that ignores its arguments and returns one color.
#[derive(Clone, Copy, Debug, PartialEq, Eq, Structural)]
pub struct ConstantTexture {
    pub color: Color3,
}

impl ConstantTexture {
    /// Wraps a color.
    pub fn new(color: Spectrum) -> (r: ConstantTexture)
        ensures
            r.color == color,
    {
        ConstantTexture { color }
    }

    /// Wraps an RGB color.
    pub fn new_from_rgb(rgb: Color3) -> (r: ConstantTexture)
        ensures
            r.color == rgb,
    {
        ConstantTexture { color: rgb }
    }
}

/// The closed set of texture kinds.
#[derive(Clone, Copy, Debug, PartialEq, Eq, Structural)]
pub enum Texture {
    Constant(ConstantTexture),
}

/// The color a texture yields, on views.
pub open spec fn texture_value(t: Texture, coordinate_u: int, coordinate_v: int) -> V3 {
    match t {
        Texture::Constant(c) => c.color@,
    }
}

impl Texture {
    /// The color at the given surface coordinates of a surface hit by the
    /// given ray.  The constant texture ignores both arguments.
    pub fn value_at(&self, _incoming_ray: &Ray3, coordinate: &TextureCoordinates) -> (r: Spectrum)
        ensures
            r@ == texture_value(*self, coordinate.u@, coordinate.v@),
    {
        match self {
            Texture::Constant(c) => c.color,
        }
    }
}

} // verus!
