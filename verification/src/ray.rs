//! Rays: an origin, a direction, and the parametric range still considered
//! for intersections.

use vstd::prelude::*;

use crate::fixed::{Fx, smul, FX_EPS, FX_MAX};
use crate::vector::{Point3, Vec3, V3, v3_add, v3_scale};

verus! {

/// Ghost view of a ray.
pub ghost struct RayV {
    pub origin: V3,
    pub direction: V3,
    pub min_t: int,
    pub max_t: int,
}

/// Whether `t` lies strictly inside the ray's valid parametric range.
pub open spec fn ray_in_range(r: RayV, t: int) -> bool {
    r.min_t < t && t < r.max_t
}

/// The point reached after travelling `t` along the ray.
pub open spec fn ray_eval(r: RayV, t: int) -> V3 {
    v3_add(r.origin, v3_scale(t, r.direction))
}

/// A ray with its valid parametric range `[min_t, max_t)`.
#[derive(Clone, Copy, Debug, PartialEq, Eq, Structural)]
pub struct Ray3 {
    pub origin: Point3,
    pub direction: Vec3,
    pub min_t: Fx,
    pub max_t: Fx,
}

impl View for Ray3 {
    type V = RayV;

    open spec fn view(&self) -> RayV {
        RayV {
            origin: self.origin@,
            direction: self.direction@,
            min_t: self.min_t@,
            max_t: self.max_t@,
        }
    }
}

impl Ray3 {
    /// A fresh ray: the range starts a small epsilon above zero, to avoid
    /// self-intersection, and extends to infinity.
    pub fn new(origin: Point3, direction: Vec3) -> (r: Ray3)
        ensures
            r@.origin == origin@,
            r@.direction == direction@,
            r@.min_t == FX_EPS,
            r@.max_t == FX_MAX,
    {
        Ray3 {
            origin,
            direction,
            min_t: Fx::from_raw(FX_EPS),
            max_t: Fx::infinity(),
        }
    }

    /// Whether `t` lies strictly inside the valid range.
    pub fn is_in_range(&self, t: Fx) -> (r: bool)
        ensures
            r == ray_in_range(self@, t@),
    {
        self.min_t.lt(t) && t.lt(self.max_t)
    }

    /// The point reached after travelling `t` along the ray.
    pub fn eval(&self, t: Fx) -> (r: Point3)
        ensures
            r@ == ray_eval(self@, t@),
    {
        self.origin.add(self.direction.scale(t))
    }
}

} // verus!
