//! Radiance estimation along a ray.
//!
//! The ambient-occlusion estimator is a one-bounce binary visibility check:
//! black where the primary ray misses or the scattered ray is blocked, white
//! where the scattered ray escapes.

use vstd::prelude::*;

use crate::light::{Spectrum, ColorConstantsQueryable, black_v, white_v};
use crate::material::{MaterialScatterResult, material_scatter_ok};
use crate::object_group::{ObjectGroup, obj_hit, group_no_hit, group_nearest};
use crate::object::Object;
use crate::ray::{Ray3, RayV};
use crate::rng::RandomNumberGenerator;
use crate::shape::ShapeIntersectionInfo;
use crate::vector::V3;

verus! {

/// What the ambient-occlusion estimator may return for a ray against a group
/// of objects: black where nothing is hit; otherwise, for the nearest hit,
/// some scatter of that object's material decides — white exactly when the
/// scattered ray escapes every object.
pub open spec fn ao_spectrum_ok(g: Seq<Object>, r: RayV, result: V3) -> bool {
    &&& result == black_v() || result == white_v()
    &&& (group_no_hit(g, r) ==> result == black_v())
    &&& (!group_no_hit(g, r) ==> exists|j: int, info: ShapeIntersectionInfo, sr:
        MaterialScatterResult|
        #![trigger group_nearest(g, r, j), material_scatter_ok(g[j].material, g[j].texture, info, sr)]
        {
            &&& group_nearest(g, r, j)
            &&& info@ == obj_hit(g[j], r)
            &&& material_scatter_ok(g[j].material, g[j].texture, info, sr)
            &&& (result == white_v() <==> group_no_hit(g, sr.scattered_ray@))
        })
}

/// An opaque marker for the ambient-occlusion estimator.
pub struct AmbientOcclusionIntegrator {}

impl AmbientOcclusionIntegrator {
    /// Estimates the spectrum arriving along `ray`: intersect the primary
    /// ray; on a miss return black; on a hit scatter one ray at the hit and
    /// return white exactly when that ray escapes the whole group.
    pub fn spectrum_from_ray(
        &self,
        object_group: &ObjectGroup,
        ray: &Ray3,
        rng: &mut RandomNumberGenerator,
    ) -> (result: Spectrum)
        ensures
            ao_spectrum_ok(object_group@, ray@, result@),
    {
        let intersection_info = object_group.intersect(ray);
        let j: usize = match intersection_info.intersected_object {
            None => {
                return Spectrum::black();
            },
            Some(j) => j,
        };

        let ghost g = object_group@;
        let intersected_object = object_group.get(j);

        // Sample one more ray to see if the intersected point lies in shadow.
        let sample_result = intersected_object.sample_new_ray(
            ray,
            &intersection_info.shape_intersection_info,
            rng,
        );

        let shadow_ray = sample_result.scattered_ray;
        let shadow_intersection = object_group.intersect(&shadow_ray);

        let result = if shadow_intersection.intersected_object.is_some() {
            Spectrum::black()
        } else {
            Spectrum::white()
        };
        proof {
            assert(group_nearest(g, ray@, j as int));
            assert(material_scatter_ok(
                g[j as int].material,
                g[j as int].texture,
                intersection_info.shape_intersection_info,
                sample_result,
            ));
            if shadow_intersection.intersected_object is Some {
                let k = shadow_intersection.intersected_object->0;
                assert(group_nearest(g, shadow_ray@, k as int));
                assert(!group_no_hit(g, shadow_ray@));
            }
        }
        result
    }
}

/// The closed set of integrator kinds.
pub enum Integrator {
    AmbientOcclusion(AmbientOcclusionIntegrator),
}

/// What an integrator may return for a ray against a group of objects.
pub open spec fn integrator_spectrum_ok(
    i: Integrator,
    g: Seq<Object>,
    r: RayV,
    result: V3,
) -> bool {
    match i {
        Integrator::AmbientOcclusion(_) => ao_spectrum_ok(g, r, result),
    }
}

impl Integrator {
    /// Estimates the spectrum arriving along `ray`.
    pub fn spectrum_from_ray(
        &self,
        object_group: &ObjectGroup,
        ray: &Ray3,
        rng: &mut RandomNumberGenerator,
    ) -> (result: Spectrum)
        ensures
            integrator_spectrum_ok(*self, object_group@, ray@, result@),
    {
        match self {
            Integrator::AmbientOcclusion(ao) => ao.spectrum_from_ray(object_group, ray, rng),
        }
    }
}

} // verus!
