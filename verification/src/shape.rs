//! The closed set of shapes, and what an intersection query returns.

use vstd::prelude::*;

use crate::fixed::{Fx, FX_MAX};
use crate::quad::{Quad, quad_model};
use crate::ray::{Ray3, RayV, ray_in_range};
use crate::sphere::{Sphere, sphere_model};
use crate::texture::TextureCoordinates;
use crate::vector::{Vec3, Point3, V3};

verus! {

/// Ghost view of an intersection result.
pub ghost struct HitV {
    pub did_hit: bool,
    pub point: V3,
    pub t: int,
    pub normal: V3,
}

/// The result that stands for "no intersection": the distance is infinite so
/// that nearest-hit comparisons need no flag check, though the flag stays
/// authoritative.
pub open spec fn no_hit_v() -> HitV {
    HitV {
        did_hit: false,
        point: V3 { x: 0, y: 0, z: 0 },
        t: FX_MAX as int,
        normal: V3 { x: 0, y: 0, z: 0 },
    }
}

/// What a shape intersection query returns.
#[derive(Clone, Copy, Debug, PartialEq, Eq, Structural)]
pub struct ShapeIntersectionInfo {
    pub did_hit: bool,
    pub point: Point3,
    pub t: Fx,
    pub surface_normal: Vec3,
    pub texture_coordinates: TextureCoordinates,
}

impl View for ShapeIntersectionInfo {
    type V = HitV;

    open spec fn view(&self) -> HitV {
        HitV {
            did_hit: self.did_hit,
            point: self.point@,
            t: self.t@,
            normal: self.surface_normal@,
        }
    }
}

impl ShapeIntersectionInfo {
    /// The "no intersection" result.
    pub fn default() -> (r: ShapeIntersectionInfo)
        ensures
            r@ == no_hit_v(),
            r.texture_coordinates == crate::texture::default_coords(),
    {
        ShapeIntersectionInfo {
            did_hit: false,
            point: Point3::origin(),
            t: Fx::infinity(),
            surface_normal: Vec3::origin(),
            texture_coordinates: TextureCoordinates::default(),
        }
    }

    /// The "no intersection" result.
    pub fn no_intersection() -> (r: ShapeIntersectionInfo)
        ensures
            r@ == no_hit_v(),
            r.texture_coordinates == crate::texture::default_coords(),
    {
        ShapeIntersectionInfo::default()
    }
}

/// The closed set of shape kinds.
#[derive(Clone, Copy, Debug)]
pub enum Shape {
    Sphere(Sphere),
    Quad(Quad),
}

/// The intersection a shape reports for a ray, on views.
pub open spec fn shape_model(s: Shape, r: RayV) -> HitV {
    match s {
        Shape::Sphere(sp) => sphere_model(sp.center@, sp.radius@, sp.transform@, r),
        Shape::Quad(q) => quad_model(q.transform@, r),
    }
}

/// Narrowing only the far end of a ray's valid range does not change which
/// hit a shape reports, beyond discarding hits at or past the new end.  This
/// is what lets the nearest-hit search tighten the working range as it goes.
pub proof fn lemma_shape_hit_narrowed(s: Shape, r1: RayV, r2: RayV)
    requires
        r1.origin == r2.origin,
        r1.direction == r2.direction,
        r1.min_t == r2.min_t,
        r1.max_t <= r2.max_t,
    ensures
        shape_model(s, r1).did_hit == (shape_model(s, r2).did_hit && shape_model(s, r2).t
            < r1.max_t),
        shape_model(s, r1).did_hit ==> shape_model(s, r1) == shape_model(s, r2),
{
    match s {
        Shape::Sphere(sp) => crate::sphere::lemma_sphere_hit_narrowed(
            sp.center@,
            sp.radius@,
            sp.transform@,
            r1,
            r2,
        ),
        Shape::Quad(q) => crate::quad::lemma_quad_hit_narrowed(q.transform@, r1, r2),
    }
}

impl Shape {
    /// Intersects a world-space ray with this shape: the ray is taken to the
    /// shape's local space, the closed-form local intersection is solved, and
    /// the hit data is taken back to world space.  Geometric edge cases are
    /// not errors: they yield the "no intersection" result.
    pub fn intersect(&self, ray: &Ray3) -> (r: ShapeIntersectionInfo)
        ensures
            r@ == shape_model(*self, ray@),
            r.texture_coordinates == crate::texture::default_coords(),
            r@.did_hit ==> ray_in_range(ray@, r@.t),
            r@.did_hit ==> -FX_MAX <= r@.t <= FX_MAX,
    {
        match self {
            Shape::Sphere(sp) => sp.intersect(ray),
            Shape::Quad(q) => q.intersect(ray),
        }
    }

    /// The transform a shape carries.
    pub fn get_transform(&self) -> (r: crate::transform::Transform)
        ensures
            r == match *self {
                Shape::Sphere(sp) => sp.transform,
                Shape::Quad(q) => q.transform,
            },
    {
        match self {
            Shape::Sphere(sp) => sp.transform,
            Shape::Quad(q) => q.transform,
        }
    }
}

} // verus!
