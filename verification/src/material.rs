//! Materials decide how a ray scatters when it meets a surface.

use vstd::prelude::*;

use crate::basis::{OrthonormalBasis, onb_x_axis, onb_y_axis, onb_z_axis, onb_vector_from_local};
use crate::fixed::{Fx, smul, FX_EPS, FX_MAX, FX_FRAC_1_PI};
use crate::light::Light;
use crate::ray::Ray3;
use crate::rng::RandomNumberGenerator;
use crate::sampler::{cosine_on_2sphere_hemisphere, is_cosine_hemisphere_sample};
use crate::shape::ShapeIntersectionInfo;
use crate::texture::{Texture, texture_value};
use crate::vector::V3;

verus! {

/// What a material reports for one scattering event: whether the ray
/// scattered at all, the scattered ray, the probability density of that
/// sample, and the outgoing light value.
pub struct MaterialScatterResult {
    pub did_scatter: bool,
    pub scattered_ray: Ray3,
    pub pdf: Fx,
    pub light: Light,
}

/// Whether `result` is a scatter a Lambertian surface can report at the hit
/// `info` under the texture `tex`: the scattered ray starts at the hit point
/// with a fresh range, its direction carries some cosine-weighted hemisphere
/// sample through the basis built from the surface normal, the density is
/// that sample's height over pi, and the light is the texture's color.
pub open spec fn lambertian_scatter_ok(
    tex: Texture,
    info: ShapeIntersectionInfo,
    result: MaterialScatterResult,
) -> bool {
    &&& result.did_scatter == true
    &&& result.scattered_ray.origin == info.point
    &&& result.scattered_ray@.min_t == FX_EPS
    &&& result.scattered_ray@.max_t == FX_MAX
    &&& result.light@ == texture_value(tex, info.texture_coordinates.u@,
        info.texture_coordinates.v@)
    &&& exists|p: V3|
        {
            &&& #[trigger] is_cosine_hemisphere_sample(p)
            &&& result.scattered_ray.direction@ == onb_vector_from_local(
                onb_x_axis(info.surface_normal@),
                onb_y_axis(info.surface_normal@),
                onb_z_axis(info.surface_normal@),
                p,
            )
            &&& result.pdf@ == smul(p.z, FX_FRAC_1_PI as int)
        }
}

/// An opaque, purely diffuse surface; it never absorbs in this model.
pub struct Lambertian {}

impl Lambertian {
    /// Scatters an incoming ray at a surface hit: one cosine-weighted
    /// hemisphere direction in the frame of the surface normal, carried to
    /// world space, originating at the hit point.
    pub fn scatter(
        &self,
        texture: &Texture,
        incoming_ray: &Ray3,
        shape_intersection_info: &ShapeIntersectionInfo,
        rng: &mut RandomNumberGenerator,
    ) -> (result: MaterialScatterResult)
        ensures
            lambertian_scatter_ok(*texture, *shape_intersection_info, result),
    {
        let sample_result = cosine_on_2sphere_hemisphere(rng);

        let scattered_direction = {
            let onb = OrthonormalBasis::new_from_vector(&shape_intersection_info.surface_normal);
            onb.vector_from_local(sample_result.point)
        };
        let scattered_ray = Ray3::new(shape_intersection_info.point, scattered_direction);

        let light = texture.value_at(incoming_ray, &shape_intersection_info.texture_coordinates);

        MaterialScatterResult { did_scatter: true, scattered_ray, pdf: sample_result.pdf, light }
    }
}

/// The closed set of material kinds.
pub enum Material {
    Lambertian(Lambertian),
}

/// Whether `result` is a scatter the given material can report.
pub open spec fn material_scatter_ok(
    m: Material,
    tex: Texture,
    info: ShapeIntersectionInfo,
    result: MaterialScatterResult,
) -> bool {
    match m {
        Material::Lambertian(_) => lambertian_scatter_ok(tex, info, result),
    }
}

impl Material {
    /// Scatters an incoming ray at a surface hit.
    pub fn scatter(
        &self,
        texture: &Texture,
        incoming_ray: &Ray3,
        shape_intersection_info: &ShapeIntersectionInfo,
        rng: &mut RandomNumberGenerator,
    ) -> (result: MaterialScatterResult)
        ensures
            material_scatter_ok(*self, *texture, *shape_intersection_info, result),
    {
        match self {
            Material::Lambertian(l) => l.scatter(
                texture,
                incoming_ray,
                shape_intersection_info,
                rng,
            ),
        }
    }
}

} // verus!
