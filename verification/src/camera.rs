//! The camera maps a pixel coordinate, plus a lens sample, to a world-space
//! ray (a thin-lens model with depth of field).
//!
//! Local to camera space, the image plane sits at `z = -1`, with the bottom
//! left corner of the viewport at `(-w/2, -h/2, -1)`.

use vstd::prelude::*;

use crate::angle::{Angle, angle_as_radians};
use crate::fixed::{
    Fx, smul, sadd, ssub, sneg, sdiv, lemma_smul_zero, SCALE, FX_EPS, FX_HALF, FX_MAX,
};
use crate::image::Resolution;
use crate::ray::{Ray3, RayV};
use crate::rng::RandomNumberGenerator;
use crate::sampler::uniform_in_1sphere;
use crate::transform::{Transform, TransformV, ray_through};
use crate::trig::fxtan;
use crate::vector::{Vec3, V3, v3_add, v3_sub, v3_scale};

verus! {

/// Ghost view of a camera.
pub ghost struct CameraV {
    pub res_w: int,
    pub res_h: int,
    pub tf: TransformV,
    pub viewport_w: int,
    pub viewport_h: int,
    pub corner: V3,
    pub focal: int,
    pub aperture: int,
}

/// The size of the viewport in camera space.
#[derive(Clone, Copy, Debug, PartialEq, Eq, Structural)]
pub struct ViewportSize {
    pub width: Fx,
    pub height: Fx,
}

/// Construction parameters for a camera.
pub struct CameraInfo {
    /// Camera space to world space.
    pub transform: Transform,
    pub resolution: Resolution,
    /// The distance from the camera to the focal plane: the plane in which
    /// everything is in focus.  The farther something is from the focal
    /// plane, the more blurred it appears.
    pub focal_distance: Fx,
    pub aperture_radius: Fx,
    /// The angle between the ray to the highest and the ray to the lowest
    /// visible point.
    pub vertical_fov: Angle,
}

/// The viewport height derived from a vertical field of view in radians:
/// `2 tan(fov/2)`.
pub open spec fn camera_viewport_h(fov_rad: int) -> int {
    let t = fxtan(smul(fov_rad, FX_HALF as int));
    sadd(t, t)
}

/// The viewport width: height times the aspect ratio.
pub open spec fn camera_viewport_w(res_w: int, res_h: int, fov_rad: int) -> int {
    let aspect = sdiv(res_w * SCALE, res_h * SCALE);
    smul(aspect, camera_viewport_h(fov_rad))
}

/// The bottom left corner of the image plane: `(-w/2, -h/2, -1)`.
pub open spec fn camera_corner(vw: int, vh: int) -> V3 {
    V3 { x: smul(FX_HALF as int, sneg(vw)), y: smul(FX_HALF as int, sneg(vh)), z: sneg(
        SCALE as int,
    ) }
}

/// The camera a set of construction parameters produces, on views.
pub open spec fn camera_from_info(
    tf: TransformV,
    res_w: int,
    res_h: int,
    fov_rad: int,
    focal: int,
    aperture: int,
) -> CameraV {
    let vh = camera_viewport_h(fov_rad);
    let vw = camera_viewport_w(res_w, res_h, fov_rad);
    CameraV {
        res_w,
        res_h,
        tf,
        viewport_w: vw,
        viewport_h: vh,
        corner: camera_corner(vw, vh),
        focal,
        aperture,
    }
}

/// A point of the lens disc: inside the unit disc, in the lens plane.
pub open spec fn in_unit_disc(p: V3) -> bool {
    &&& p.x * p.x + p.y * p.y <= SCALE * SCALE
    &&& p.z == 0
}

/// The world-space ray a camera produces for a pixel coordinate and a lens
/// sample: the ray starts at the lens offset and aims at the point where the
/// non-offset ray through that pixel crosses the focal plane, so all lens
/// offsets converge on the focal plane and diverge away from it.
pub open spec fn camera_ray(cam: CameraV, px: int, py: int, lens: V3) -> RayV {
    let tx = sdiv(px, cam.res_w * SCALE);
    let ty = sdiv(py, cam.res_h * SCALE);
    let origin = v3_scale(cam.aperture, lens);
    let pixel_in_plane = v3_add(
        cam.corner,
        V3 { x: smul(tx, cam.viewport_w), y: smul(ty, cam.viewport_h), z: 0 },
    );
    let focus_plane_intersection = v3_scale(cam.focal, pixel_in_plane);
    ray_through(
        cam.tf.fwd,
        RayV {
            origin,
            direction: v3_sub(focus_plane_intersection, origin),
            min_t: FX_EPS as int,
            max_t: FX_MAX as int,
        },
    )
}

/// With a closed aperture the lens sample does not matter: the camera ray is
/// a single deterministic ray through the pixel, whatever the generator
/// produced.
pub proof fn lemma_zero_aperture_deterministic(cam: CameraV, px: int, py: int, l1: V3, l2: V3)
    requires
        cam.aperture == 0,
    ensures
        camera_ray(cam, px, py, l1) == camera_ray(cam, px, py, l2),
{
    lemma_smul_zero(l1.x);
    lemma_smul_zero(l1.y);
    lemma_smul_zero(l1.z);
    lemma_smul_zero(l2.x);
    lemma_smul_zero(l2.y);
    lemma_smul_zero(l2.z);
}

/// A thin-lens camera.
pub struct Camera {
    resolution: Resolution,
    transform: Transform,
    viewport_size: ViewportSize,
    bottom_left_corner_of_image_plane: Vec3,
    focal_distance: Fx,
    aperture_radius: Fx,
}

impl View for Camera {
    type V = CameraV;

    closed spec fn view(&self) -> CameraV {
        CameraV {
            res_w: self.resolution.width as int,
            res_h: self.resolution.height as int,
            tf: self.transform@,
            viewport_w: self.viewport_size.width@,
            viewport_h: self.viewport_size.height@,
            corner: self.bottom_left_corner_of_image_plane@,
            focal: self.focal_distance@,
            aperture: self.aperture_radius@,
        }
    }
}

impl Camera {
    /// The camera's resolution is a usable pixel grid.
    pub open spec fn wf(&self) -> bool {
        &&& self@.res_w >= 1
        &&& self@.res_h >= 1
    }

    /// Derives the viewport from the field of view and the aspect ratio and
    /// places the image plane at local `z = -1`.
    pub fn new(info: CameraInfo) -> (r: Camera)
        requires
            info.resolution.width >= 1,
            info.resolution.height >= 1,
        ensures
            r@ == camera_from_info(
                info.transform@,
                info.resolution.width as int,
                info.resolution.height as int,
                angle_as_radians(info.vertical_fov.amount@, info.vertical_fov.units),
                info.focal_distance@,
                info.aperture_radius@,
            ),
            r.wf(),
    {
        let transform = info.transform;
        let resolution = info.resolution;
        let viewport_size = {
            let aspect_ratio = Fx::from_u32(resolution.width).div(Fx::from_u32(resolution.height));
            let height = {
                let theta = info.vertical_fov.as_radians();
                let height = crate::trig::tan(theta.mul(Fx::from_raw(FX_HALF)));
                height.add(height)
            };
            let width = aspect_ratio.mul(height);
            ViewportSize { width, height }
        };
        let bottom_left_corner_of_image_plane = Vec3::new(
            Fx::from_raw(FX_HALF).mul(viewport_size.width.neg()),
            Fx::from_raw(FX_HALF).mul(viewport_size.height.neg()),
            Fx::one().neg(),
        );
        Camera {
            transform,
            resolution,
            viewport_size,
            bottom_left_corner_of_image_plane,
            focal_distance: info.focal_distance,
            aperture_radius: info.aperture_radius,
        }
    }

    /// The pixel grid this camera renders to.
    pub fn get_resolution(&self) -> (r: Resolution)
        ensures
            r.width == self@.res_w,
            r.height == self@.res_h,
    {
        self.resolution
    }

    /// Returns a ray, in world space, from the camera that represents a
    /// contribution to the pixel (pixel_x, pixel_y); the bottom left pixel is
    /// (0, 0).  The ray's origin is offset by a fresh lens sample scaled by
    /// the aperture radius (defocus blur); with a zero aperture the result is
    /// the one deterministic ray through the pixel.
    pub fn generate_ray(&self, pixel_x: Fx, pixel_y: Fx, rng: &mut RandomNumberGenerator) -> (r:
        Ray3)
        requires
            self.wf(),
        ensures
            exists|lens: V3| #[trigger] in_unit_disc(lens) && r@ == camera_ray(
                self@,
                pixel_x@,
                pixel_y@,
                lens,
            ),
            self@.aperture == 0 ==> r@ == camera_ray(
                self@,
                pixel_x@,
                pixel_y@,
                V3 { x: 0, y: 0, z: 0 },
            ),
    {
        let tx = pixel_x.div(Fx::from_u32(self.resolution.width));
        let ty = pixel_y.div(Fx::from_u32(self.resolution.height));

        let sample = uniform_in_1sphere(rng);
        let local_ray_origin = sample.point.scale(self.aperture_radius);
        let local_ray_direction = {
            let pixel_in_image_plane = self.bottom_left_corner_of_image_plane.add(
                Vec3::new(
                    tx.mul(self.viewport_size.width),
                    ty.mul(self.viewport_size.height),
                    Fx::zero(),
                ),
            );
            // The image plane is at local z = -1, so the focal-plane crossing
            // of the non-offset ray is the plane point scaled by the focal
            // distance.
            let focus_plane_intersection = pixel_in_image_plane.scale(self.focal_distance);
            focus_plane_intersection.sub(local_ray_origin)
        };
        let local_ray = Ray3::new(local_ray_origin, local_ray_direction);
        let result = self.transform.ray_to_global(&local_ray);
        proof {
            assert(in_unit_disc(sample.point@));
            assert(result@ == camera_ray(self@, pixel_x@, pixel_y@, sample.point@));
            if self@.aperture == 0 {
                lemma_zero_aperture_deterministic(
                    self@,
                    pixel_x@,
                    pixel_y@,
                    sample.point@,
                    V3 { x: 0, y: 0, z: 0 },
                );
            }
        }
        result
    }
}

} // verus!
