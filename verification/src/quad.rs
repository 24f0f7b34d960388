//! Quad intersection: a test against the local plane `z = 0`.
//!
//! In local space the quad spans the corners `(0,0,0)` and `(w,h,0)`.  Only
//! the plane is tested; the hit is not bounded to the rectangle's extent,
//! matching the renderer's current plane-test behaviour.

use vstd::prelude::*;

use crate::fixed::{Fx, sabs, sdiv, SignCheckable, FX_EPS, FX_MAX};
use crate::ray::{Ray3, RayV, ray_in_range, ray_eval};
use crate::shape::{ShapeIntersectionInfo, HitV, no_hit_v};
use crate::texture::TextureCoordinates;
use crate::transform::{Transform, TransformV, ray_through};
use crate::matrix::{m4_xform_point, m4_xform_vector};
use crate::vector::{Vec3, V3};

verus! {

/// The intersection model of a quad: a ray whose local direction has a
/// z-component within tolerance of zero is parallel to the plane and misses;
/// otherwise the plane is met at `t = |o.z| / d.z`, accepted if `t` lies in
/// the valid range, and the local hit's z-coordinate is projected to exactly
/// zero to remove rounding drift.
pub open spec fn quad_model(tf: TransformV, r: RayV) -> HitV {
    let lr = ray_through(tf.inv, r);
    if -FX_EPS <= lr.direction.z <= FX_EPS {
        no_hit_v()
    } else {
        let t = sdiv(sabs(lr.origin.z), lr.direction.z);
        if !ray_in_range(r, t) {
            no_hit_v()
        } else {
            let planar = V3 { z: 0, ..ray_eval(lr, t) };
            HitV {
                did_hit: true,
                point: m4_xform_point(tf.fwd, planar),
                t: t,
                normal: m4_xform_vector(tf.fwd, V3 { x: 0, y: 0, z: crate::fixed::SCALE as int }),
            }
        }
    }
}

/// Narrowing only the far end of a ray's valid range does not change which
/// hit a quad reports, beyond discarding hits at or past the new end.
pub proof fn lemma_quad_hit_narrowed(tf: TransformV, r1: RayV, r2: RayV)
    requires
        r1.origin == r2.origin,
        r1.direction == r2.direction,
        r1.min_t == r2.min_t,
        r1.max_t <= r2.max_t,
    ensures
        quad_model(tf, r1).did_hit == (quad_model(tf, r2).did_hit && quad_model(tf, r2).t
            < r1.max_t),
        quad_model(tf, r1).did_hit ==> quad_model(tf, r1) == quad_model(tf, r2),
{
    let lr1 = ray_through(tf.inv, r1);
    let lr2 = ray_through(tf.inv, r2);
    assert(lr1.origin == lr2.origin && lr1.direction == lr2.direction);
}

/// An axis-aligned rectangle in its local space, placed in the world by its
/// transform.
#[derive(Clone, Copy, Debug)]
pub struct Quad {
    pub width: Fx,
    pub height: Fx,
    pub transform: Transform,
}

impl Quad {
    /// Intersects a world-space ray with the quad's plane.
    pub fn intersect(&self, ray: &Ray3) -> (r: ShapeIntersectionInfo)
        ensures
            r@ == quad_model(self.transform@, ray@),
            r.texture_coordinates == crate::texture::default_coords(),
            r@.did_hit ==> ray_in_range(ray@, r@.t),
            r@.did_hit ==> -FX_MAX <= r@.t <= FX_MAX,
    {
        let transformed_ray = self.transform.ray_to_local(ray);

        if transformed_ray.direction.z.is_zero() {
            return ShapeIntersectionInfo::no_intersection();
        }

        let t = transformed_ray.origin.z.abs().div(transformed_ray.direction.z);

        if !ray.is_in_range(t) {
            return ShapeIntersectionInfo::no_intersection();
        }

        let intersection_with_plane = {
            let mut temp = transformed_ray.eval(t);
            // Project to the plane to account for rounding drift.
            temp.set_z(Fx::zero());
            temp
        };

        ShapeIntersectionInfo {
            did_hit: true,
            surface_normal: self.transform.vector_to_global(
                &Vec3::new(Fx::zero(), Fx::zero(), Fx::one()),
            ),
            t,
            point: self.transform.point_to_global(&intersection_with_plane),
            texture_coordinates: TextureCoordinates::default(),
        }
    }
}

} // verus!
