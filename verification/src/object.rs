//! An object couples one shape, one texture and one material into a
//! renderable entity.

use vstd::prelude::*;

use crate::material::{Material, MaterialScatterResult, material_scatter_ok};
use crate::ray::Ray3;
use crate::rng::RandomNumberGenerator;
use crate::shape::{Shape, ShapeIntersectionInfo};
use crate::texture::Texture;

verus! {

/// A physical item in the scene: geometry, texture and material.
pub struct Object {
    pub shape: Shape,
    pub texture: Texture,
    pub material: Material,
}

/// Construction parameters for an object.
pub struct ObjectInfo {
    pub shape: Shape,
    pub texture: Texture,
    pub material: Material,
}

impl Object {
    /// Assembles an object from its parts.
    pub fn new(info: ObjectInfo) -> (r: Object)
        ensures
            r.shape == info.shape,
            r.texture == info.texture,
            r.material == info.material,
    {
        Object { shape: info.shape, texture: info.texture, material: info.material }
    }

    /// Asks the object's material for one scattered ray at a surface hit,
    /// lighting it with the object's texture.
    pub fn sample_new_ray(
        &self,
        incoming_ray: &Ray3,
        shape_intersection: &ShapeIntersectionInfo,
        rng: &mut RandomNumberGenerator,
    ) -> (result: MaterialScatterResult)
        ensures
            material_scatter_ok(self.material, self.texture, *shape_intersection, result),
    {
        self.material.scatter(&self.texture, incoming_ray, shape_intersection, rng)
    }
}

} // verus!
