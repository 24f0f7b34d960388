//! Sphere intersection: the classic quadratic, solved in the sphere's local
//! space.

use vstd::prelude::*;

use crate::fixed::{
    Fx, smul, sadd, ssub, sneg, sdiv, ssqrt, SignCheckable, FX_EPS, FX_MAX,
};
use crate::ray::{Ray3, RayV, ray_in_range, ray_eval};
use crate::shape::{ShapeIntersectionInfo, HitV, no_hit_v};
use crate::texture::TextureCoordinates;
use crate::transform::{Transform, TransformV, ray_through};
use crate::matrix::{m4_xform_point, m4_xform_vector};
use crate::vector::{Vec3, Point3, V3, v3_sub, v3_add, v3_dot, v3_normalize_to, dot};

verus! {

/// The quadratic's leading coefficient: `a = d . d`.
pub open spec fn sphere_a(center: V3, lr: RayV) -> int {
    v3_dot(lr.direction, lr.direction)
}

/// The quadratic's linear coefficient: `b = 2 d . (o - c)`.
pub open spec fn sphere_b(center: V3, lr: RayV) -> int {
    let dd = v3_dot(lr.direction, v3_sub(lr.origin, center));
    sadd(dd, dd)
}

/// The quadratic's constant coefficient: `c = (o - c).(o - c) - r^2`.
pub open spec fn sphere_c(center: V3, radius: int, lr: RayV) -> int {
    let oc = v3_sub(lr.origin, center);
    ssub(v3_dot(oc, oc), smul(radius, radius))
}

/// The discriminant `b^2 - 4 a c`, squashed to zero inside the tolerance
/// band.
pub open spec fn sphere_disc(center: V3, radius: int, lr: RayV) -> int {
    let a = sphere_a(center, lr);
    let b = sphere_b(center, lr);
    let c = sphere_c(center, radius, lr);
    let p = smul(a, c);
    let p2 = sadd(p, p);
    let four_ac = sadd(p2, p2);
    let temp = ssub(smul(b, b), four_ac);
    if -FX_EPS <= temp <= FX_EPS {
        0
    } else {
        temp
    }
}

/// The smaller root of the quadratic.
pub open spec fn sphere_t0(center: V3, radius: int, lr: RayV) -> int {
    let a = sphere_a(center, lr);
    let b = sphere_b(center, lr);
    sdiv(ssub(sneg(b), ssqrt(sphere_disc(center, radius, lr))), sadd(a, a))
}

/// The larger root of the quadratic.
pub open spec fn sphere_t1(center: V3, radius: int, lr: RayV) -> int {
    let a = sphere_a(center, lr);
    let b = sphere_b(center, lr);
    sdiv(sadd(sneg(b), ssqrt(sphere_disc(center, radius, lr))), sadd(a, a))
}

/// The hit data the sphere reports at parameter `t`: the local hit point is
/// re-projected onto the exact sphere surface to control rounding drift, and
/// point and normal are taken back to world space.
pub open spec fn sphere_hit_at(center: V3, radius: int, tf: TransformV, lr: RayV, t: int) -> HitV {
    let pre = ray_eval(lr, t);
    let local_hit = v3_add(center, v3_normalize_to(v3_sub(pre, center), radius));
    HitV {
        did_hit: true,
        point: m4_xform_point(tf.fwd, local_hit),
        t: t,
        normal: m4_xform_vector(tf.fwd, v3_sub(local_hit, center)),
    }
}

/// The full intersection model of a sphere: transform the ray to local
/// space, solve the quadratic, prefer the smaller root within the valid
/// range, fall back to the larger one (a ray that starts inside the sphere),
/// and report no intersection otherwise.  A degenerate zero-length direction
/// (the leading coefficient is exactly zero, so the quadratic has no roots)
/// and a negative discriminant also report no intersection.
pub open spec fn sphere_model(center: V3, radius: int, tf: TransformV, r: RayV) -> HitV {
    let lr = ray_through(tf.inv, r);
    let a = sphere_a(center, lr);
    let disc = sphere_disc(center, radius, lr);
    if a == 0 {
        no_hit_v()
    } else if disc < -FX_EPS {
        no_hit_v()
    } else {
        let t0 = sphere_t0(center, radius, lr);
        let t1 = sphere_t1(center, radius, lr);
        if ray_in_range(lr, t0) {
            sphere_hit_at(center, radius, tf, lr, t0)
        } else if ray_in_range(lr, t1) {
            sphere_hit_at(center, radius, tf, lr, t1)
        } else {
            no_hit_v()
        }
    }
}

/// The two roots are ordered: the "smaller" root never exceeds the larger.
proof fn lemma_sphere_roots_ordered(center: V3, radius: int, lr: RayV)
    requires
        sphere_a(center, lr) != 0,
        sphere_disc(center, radius, lr) >= 0,
    ensures
        sphere_t0(center, radius, lr) <= sphere_t1(center, radius, lr),
{
    let a = sphere_a(center, lr);
    let b = sphere_b(center, lr);
    let disc = sphere_disc(center, radius, lr);
    crate::vector::lemma_v3_dot_self_nonneg(lr.direction);
    crate::fixed::lemma_ssqrt_nonneg(disc);
    let sq = ssqrt(disc);
    crate::fixed::lemma_sdiv_monotone(ssub(sneg(b), sq), sadd(sneg(b), sq), sadd(a, a));
}

/// Narrowing only the far end of a ray's valid range does not change which
/// hit a sphere reports, beyond discarding hits at or past the new end.
pub proof fn lemma_sphere_hit_narrowed(center: V3, radius: int, tf: TransformV, r1: RayV, r2: RayV)
    requires
        r1.origin == r2.origin,
        r1.direction == r2.direction,
        r1.min_t == r2.min_t,
        r1.max_t <= r2.max_t,
    ensures
        sphere_model(center, radius, tf, r1).did_hit == (sphere_model(center, radius, tf,
            r2).did_hit && sphere_model(center, radius, tf, r2).t < r1.max_t),
        sphere_model(center, radius, tf, r1).did_hit ==> sphere_model(center, radius, tf, r1)
            == sphere_model(center, radius, tf, r2),
{
    let lr1 = ray_through(tf.inv, r1);
    let lr2 = ray_through(tf.inv, r2);
    assert(lr1.origin == lr2.origin && lr1.direction == lr2.direction && lr1.min_t == lr2.min_t);
    let a = sphere_a(center, lr1);
    let disc = sphere_disc(center, radius, lr1);
    assert(sphere_a(center, lr2) == a);
    assert(sphere_disc(center, radius, lr2) == disc);
    if a != 0 && disc >= -FX_EPS {
        assert(disc >= 0);
        lemma_sphere_roots_ordered(center, radius, lr1);
        let t0 = sphere_t0(center, radius, lr1);
        let t1 = sphere_t1(center, radius, lr1);
        assert(sphere_t0(center, radius, lr2) == t0);
        assert(sphere_t1(center, radius, lr2) == t1);
        assert(sphere_hit_at(center, radius, tf, lr1, t0) == sphere_hit_at(
            center,
            radius,
            tf,
            lr2,
            t0,
        ));
        assert(sphere_hit_at(center, radius, tf, lr1, t1) == sphere_hit_at(
            center,
            radius,
            tf,
            lr2,
            t1,
        ));
    }
}

/// A sphere with a configurable local center and radius, placed in the world
/// by its transform.
#[derive(Clone, Copy, Debug)]
pub struct Sphere {
    pub center: Point3,
    pub radius: Fx,
    pub transform: Transform,
}

/// Construction parameters for a sphere.
pub struct SphereInfo {
    pub center: Point3,
    pub radius: Fx,
    pub transform: Transform,
}

impl Sphere {
    /// Assembles a sphere from its construction parameters.
    pub fn new(info: SphereInfo) -> (r: Sphere)
        ensures
            r.center == info.center,
            r.radius == info.radius,
            r.transform == info.transform,
    {
        Sphere { center: info.center, radius: info.radius, transform: info.transform }
    }

    /// Intersects a world-space ray with the sphere.
    pub fn intersect(&self, ray: &Ray3) -> (r: ShapeIntersectionInfo)
        ensures
            r@ == sphere_model(self.center@, self.radius@, self.transform@, ray@),
            r.texture_coordinates == crate::texture::default_coords(),
            r@.did_hit ==> ray_in_range(ray@, r@.t),
            r@.did_hit ==> -FX_MAX <= r@.t <= FX_MAX,
    {
        let local_ray = self.transform.ray_to_local(ray);
        let o = &local_ray.origin;
        let d = &local_ray.direction;

        let a = dot(d, d);
        let oc = o.sub(self.center);
        let dd = dot(d, &oc);
        let b = dd.add(dd);
        let c = dot(&oc, &oc).sub(self.radius.mul(self.radius));

        let p = a.mul(c);
        let p2 = p.add(p);
        let four_ac = p2.add(p2);
        let temp = b.mul(b).sub(four_ac);
        let discriminant = if temp.is_zero() {
            Fx::zero()
        } else {
            temp
        };

        if a.raw == 0 {
            // A zero-length direction makes no progress: the quadratic has
            // no leading coefficient to solve against.
            return ShapeIntersectionInfo::no_intersection();
        }
        if discriminant.is_negative() {
            return ShapeIntersectionInfo::no_intersection();
        }

        proof {
            crate::vector::lemma_v3_dot_self_nonneg(local_ray.direction@);
        }
        let den = a.add(a);
        let sq = discriminant.sqrt();
        let t0 = b.neg().sub(sq).div(den);

        let t: Fx = if !local_ray.is_in_range(t0) {
            // The other root matters when the ray starts inside the sphere,
            // for example a ray scattered inward by a hollow shell.
            let t1 = b.neg().add(sq).div(den);
            if !local_ray.is_in_range(t1) {
                return ShapeIntersectionInfo::no_intersection();
            }
            t1
        } else {
            t0
        };

        // Project the hit point to the sphere surface to control rounding
        // drift, then take everything back to world space.
        let pre_local_hitpoint = local_ray.eval(t);
        let local_hitpoint = self.center.add(
            pre_local_hitpoint.sub(self.center).normalize_to(self.radius),
        );
        ShapeIntersectionInfo {
            did_hit: true,
            point: self.transform.point_to_global(&local_hitpoint),
            t,
            surface_normal: self.transform.vector_to_global(&local_hitpoint.sub(self.center)),
            texture_coordinates: TextureCoordinates::default(),
        }
    }
}

} // verus!
