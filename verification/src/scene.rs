//! The scene drives repeated sampling: for every sample, for every pixel,
//! generate a camera ray, estimate its color, accumulate, and finally
//! average.

use vstd::prelude::*;

use crate::camera::{Camera, CameraV, camera_ray, in_unit_disc};
use crate::fixed::{Fx, SCALE, FX_HALF};
use crate::image::{Image, ImageBuffer, Pixel, color_avg, v3_seq_sum,
    lemma_channel_avg_bounded, lemma_v3_seq_sum_push};
use crate::integrator::{Integrator, integrator_spectrum_ok};
use crate::light::{black_v, white_v};
use crate::object::Object;
use crate::object_group::ObjectGroup;
use crate::rng::RandomNumberGenerator;
use crate::vector::V3;

verus! {

/// A color of one rendered sample for pixel (x, y): some lens draw led the
/// camera ray through the pixel's center to that spectrum estimate.
pub open spec fn pixel_spectrum_ok(
    intg: Integrator,
    g: Seq<Object>,
    cam: CameraV,
    x: int,
    y: int,
    c: V3,
) -> bool {
    exists|lens: V3|
        #[trigger] in_unit_disc(lens) && integrator_spectrum_ok(
            intg,
            g,
            camera_ray(cam, x * SCALE + FX_HALF, y * SCALE + FX_HALF, lens),
            c,
        )
}

/// Every color of a sequence is an admissible per-sample estimate for pixel
/// (x, y).
pub open spec fn sample_seq_ok(
    intg: Integrator,
    g: Seq<Object>,
    cam: CameraV,
    x: int,
    y: int,
    cs: Seq<V3>,
) -> bool {
    forall|i: int|
        0 <= i < cs.len() ==> pixel_spectrum_ok(intg, g, cam, x, y, #[trigger] cs[i])
}

/// A partially accumulated pixel: the running sum of `k` admissible
/// per-sample estimates.
pub open spec fn pixel_accum_ok(
    intg: Integrator,
    g: Seq<Object>,
    cam: CameraV,
    k: int,
    x: int,
    y: int,
    acc: V3,
) -> bool {
    exists|cs: Seq<V3>|
        #![trigger v3_seq_sum(cs)]
        {
            &&& cs.len() == k
            &&& sample_seq_ok(intg, g, cam, x, y, cs)
            &&& acc == v3_seq_sum(cs)
        }
}

/// A fully rendered pixel: the unweighted mean of `n` admissible per-sample
/// estimates.
pub open spec fn pixel_render_ok(
    intg: Integrator,
    g: Seq<Object>,
    cam: CameraV,
    n: int,
    x: int,
    y: int,
    c: V3,
) -> bool {
    exists|cs: Seq<V3>|
        #![trigger v3_seq_sum(cs)]
        {
            &&& cs.len() == n
            &&& sample_seq_ok(intg, g, cam, x, y, cs)
            &&& c == color_avg(v3_seq_sum(cs), n)
        }
}

/// Everything the renderer needs for one run.
pub struct SceneInfo {
    pub integrator: Integrator,
    pub camera: Camera,
    pub objects: ObjectGroup,
    pub rng: RandomNumberGenerator,
    pub num_samples: u32,
    pub recursive_depth_limit: u32,
}

/// All the geometry of the scene, with the sampling loop that renders it.
pub struct Scene {
    integrator: Integrator,
    camera: Camera,
    objects: ObjectGroup,
    rng: RandomNumberGenerator,
    num_samples: u32,
    recursive_depth_limit: u32,
}

impl Scene {
    /// The integrator in use.
    pub closed spec fn integrator_s(&self) -> Integrator {
        self.integrator
    }

    /// The camera's view.
    pub closed spec fn camera_v(&self) -> CameraV {
        self.camera@
    }

    /// The objects of the scene.
    pub closed spec fn objects_v(&self) -> Seq<Object> {
        self.objects@
    }

    /// The configured sample count.
    pub closed spec fn n_samples(&self) -> int {
        self.num_samples as int
    }

    /// The configured recursion depth limit; the ambient-occlusion estimator
    /// performs exactly one bounce and may ignore it.
    pub closed spec fn depth_limit(&self) -> int {
        self.recursive_depth_limit as int
    }

    /// A renderable scene: a usable pixel grid and at least one sample.
    pub closed spec fn wf(&self) -> bool {
        &&& self.camera.wf()
        &&& self.camera@.res_w * self.camera@.res_h <= usize::MAX
        &&& self.num_samples >= 1
    }

    /// Assembles a scene.
    pub fn new(info: SceneInfo) -> (r: Scene)
        requires
            info.camera.wf(),
            info.camera@.res_w * info.camera@.res_h <= usize::MAX,
            info.num_samples >= 1,
        ensures
            r.wf(),
            r.integrator_s() == info.integrator,
            r.camera_v() == info.camera@,
            r.objects_v() == info.objects@,
            r.n_samples() == info.num_samples,
            r.depth_limit() == info.recursive_depth_limit,
    {
        Scene {
            integrator: info.integrator,
            camera: info.camera,
            objects: info.objects,
            rng: info.rng,
            num_samples: info.num_samples,
            recursive_depth_limit: info.recursive_depth_limit,
        }
    }

    /// Renders the configured number of samples and returns their unweighted
    /// mean: every pixel averages one admissible integrator estimate per
    /// sample (accumulated in order, then divided by the sample count), so
    /// each channel also stays inside the unit interval.
    pub fn ray_trace(&mut self) -> (r: Image)
        requires
            old(self).wf(),
        ensures
            final(self).wf(),
            final(self).integrator_s() == old(self).integrator_s(),
            final(self).camera_v() == old(self).camera_v(),
            final(self).objects_v() == old(self).objects_v(),
            final(self).n_samples() == old(self).n_samples(),
            r.wf(),
            r.res().width == old(self).camera_v().res_w,
            r.res().height == old(self).camera_v().res_h,
            forall|x: int, y: int|
                0 <= x < r.res().width && 0 <= y < r.res().height ==> pixel_render_ok(
                    old(self).integrator_s(),
                    old(self).objects_v(),
                    old(self).camera_v(),
                    old(self).n_samples(),
                    x,
                    y,
                    #[trigger] r.color_at(x, y),
                ),
            forall|x: int, y: int|
                0 <= x < r.res().width && 0 <= y < r.res().height ==> {
                    let c = #[trigger] r.color_at(x, y);
                    0 <= c.x <= SCALE && 0 <= c.y <= SCALE && 0 <= c.z <= SCALE
                },
    {
        let resolution = self.camera.get_resolution();
        let mut image_buffer = ImageBuffer::new(resolution);
        proof {
            assert forall|x: int, y: int|
                0 <= x < resolution.width && 0 <= y < resolution.height implies pixel_accum_ok(
                old(self).integrator_s(),
                old(self).objects_v(),
                old(self).camera_v(),
                0,
                x,
                y,
                #[trigger] image_buffer.accum_at(x, y),
            ) by {
                let cs = Seq::<V3>::empty();
                assert(v3_seq_sum(cs) == black_v());
                assert(sample_seq_ok(
                    old(self).integrator_s(),
                    old(self).objects_v(),
                    old(self).camera_v(),
                    x,
                    y,
                    cs,
                ));
            }
        }
        while image_buffer.num_samples() < self.num_samples as usize
            invariant
                self.wf(),
                *self == (Scene { rng: self.rng, ..*old(self) }),
                resolution.width == self.camera@.res_w,
                resolution.height == self.camera@.res_h,
                image_buffer.wf(),
                image_buffer.res() == resolution,
                0 <= image_buffer.samples() <= self.num_samples,
                forall|x: int, y: int|
                    0 <= x < resolution.width && 0 <= y < resolution.height ==> {
                        let c = #[trigger] image_buffer.accum_at(x, y);
                        &&& 0 <= c.x <= image_buffer.samples() * SCALE
                        &&& 0 <= c.y <= image_buffer.samples() * SCALE
                        &&& 0 <= c.z <= image_buffer.samples() * SCALE
                    },
                forall|x: int, y: int|
                    0 <= x < resolution.width && 0 <= y < resolution.height ==> pixel_accum_ok(
                        old(self).integrator_s(),
                        old(self).objects_v(),
                        old(self).camera_v(),
                        image_buffer.samples(),
                        x,
                        y,
                        #[trigger] image_buffer.accum_at(x, y),
                    ),
            decreases self.num_samples - image_buffer.samples(),
        {
            let ghost prev_buf = image_buffer;
            let sample = self.ray_trace_single_sample();
            image_buffer.add_sample(sample);
            proof {
                let intg = old(self).integrator_s();
                let g = old(self).objects_v();
                let cam = old(self).camera_v();
                let k = prev_buf.samples();
                assert forall|x: int, y: int|
                    0 <= x < resolution.width && 0 <= y < resolution.height implies {
                    let c = #[trigger] image_buffer.accum_at(x, y);
                    &&& 0 <= c.x <= image_buffer.samples() * SCALE
                    &&& 0 <= c.y <= image_buffer.samples() * SCALE
                    &&& 0 <= c.z <= image_buffer.samples() * SCALE
                    &&& pixel_accum_ok(intg, g, cam, k + 1, x, y, c)
                } by {
                    let s = sample.color_at(x, y);
                    assert(s == black_v() || s == white_v());
                    assert((k + 1) * SCALE == k * SCALE + SCALE) by (nonlinear_arith);
                    assert(k * SCALE + SCALE <= 0x100000000 * (SCALE as int)) by (nonlinear_arith)
                        requires
                            k + 1 <= 0x100000000,
                            SCALE == 1048576,
                    ;
                    let cs0 = choose|cs: Seq<V3>|
                        #![trigger v3_seq_sum(cs)]
                        {
                            &&& cs.len() == k
                            &&& sample_seq_ok(intg, g, cam, x, y, cs)
                            &&& prev_buf.accum_at(x, y) == v3_seq_sum(cs)
                        };
                    let cs1 = cs0.push(s);
                    lemma_v3_seq_sum_push(cs0, s);
                    assert(pixel_spectrum_ok(intg, g, cam, x, y, s));
                    assert forall|i: int|
                        0 <= i < cs1.len() implies pixel_spectrum_ok(
                        intg,
                        g,
                        cam,
                        x,
                        y,
                        #[trigger] cs1[i],
                    ) by {
                        if i < cs0.len() {
                            assert(cs1[i] == cs0[i]);
                        } else {
                            assert(cs1[i] == s);
                        }
                    }
                    assert(image_buffer.accum_at(x, y) == v3_seq_sum(cs1));
                }
            }
        }
        let averaged = image_buffer.average_samples();
        proof {
            let intg = old(self).integrator_s();
            let g = old(self).objects_v();
            let cam = old(self).camera_v();
            let n = image_buffer.samples();
            assert forall|x: int, y: int|
                0 <= x < resolution.width && 0 <= y < resolution.height implies {
                let c = #[trigger] averaged.color_at(x, y);
                &&& 0 <= c.x <= SCALE && 0 <= c.y <= SCALE && 0 <= c.z <= SCALE
                &&& pixel_render_ok(intg, g, cam, n, x, y, c)
            } by {
                let acc = image_buffer.accum_at(x, y);
                lemma_channel_avg_bounded(acc.x, n);
                lemma_channel_avg_bounded(acc.y, n);
                lemma_channel_avg_bounded(acc.z, n);
                let cs = choose|cs: Seq<V3>|
                    #![trigger v3_seq_sum(cs)]
                    {
                        &&& cs.len() == n
                        &&& sample_seq_ok(intg, g, cam, x, y, cs)
                        &&& acc == v3_seq_sum(cs)
                    };
                assert(averaged.color_at(x, y) == color_avg(v3_seq_sum(cs), n));
            }
        }
        averaged
    }

    /// Renders one sample: for every pixel, a camera ray through the pixel's
    /// center (jittered only by the lens draw), estimated by the integrator.
    #[verifier::rlimit(100)]
    fn ray_trace_single_sample(&mut self) -> (r: Image)
        requires
            old(self).wf(),
        ensures
            final(self).wf(),
            *final(self) == (Scene { rng: final(self).rng, ..*old(self) }),
            r.wf(),
            r.res().width == old(self).camera_v().res_w,
            r.res().height == old(self).camera_v().res_h,
            forall|x: int, y: int|
                0 <= x < r.res().width && 0 <= y < r.res().height ==> pixel_spectrum_ok(
                    old(self).integrator_s(),
                    old(self).objects_v(),
                    old(self).camera_v(),
                    x,
                    y,
                    #[trigger] r.color_at(x, y),
                ),
            forall|x: int, y: int|
                0 <= x < r.res().width && 0 <= y < r.res().height ==> #[trigger] r.color_at(x, y)
                    == black_v() || r.color_at(x, y) == white_v(),
    {
        let resolution = self.camera.get_resolution();
        let mut to_return = Image::new(resolution);
        let mut y: u32 = 0;
        while y < resolution.height
            invariant
                self.wf(),
                *self == (Scene { rng: self.rng, ..*old(self) }),
                resolution.width == self.camera@.res_w,
                resolution.height == self.camera@.res_h,
                to_return.wf(),
                to_return.res() == resolution,
                y <= resolution.height,
                forall|xx: int, yy: int|
                    0 <= xx < resolution.width && 0 <= yy < y ==> pixel_spectrum_ok(
                        old(self).integrator_s(),
                        old(self).objects_v(),
                        old(self).camera_v(),
                        xx,
                        yy,
                        #[trigger] to_return.color_at(xx, yy),
                    ) && (to_return.color_at(xx, yy) == black_v() || to_return.color_at(xx, yy)
                        == white_v()),
            decreases resolution.height - y,
        {
            let mut x: u32 = 0;
            while x < resolution.width
                invariant
                    self.wf(),
                    *self == (Scene { rng: self.rng, ..*old(self) }),
                    resolution.width == self.camera@.res_w,
                    resolution.height == self.camera@.res_h,
                    to_return.wf(),
                    to_return.res() == resolution,
                    y < resolution.height,
                    x <= resolution.width,
                    forall|xx: int, yy: int|
                        0 <= xx < resolution.width && 0 <= yy < y ==> pixel_spectrum_ok(
                            old(self).integrator_s(),
                            old(self).objects_v(),
                            old(self).camera_v(),
                            xx,
                            yy,
                            #[trigger] to_return.color_at(xx, yy),
                        ) && (to_return.color_at(xx, yy) == black_v() || to_return.color_at(
                            xx,
                            yy,
                        ) == white_v()),
                    forall|xx: int|
                        0 <= xx < x ==> pixel_spectrum_ok(
                            old(self).integrator_s(),
                            old(self).objects_v(),
                            old(self).camera_v(),
                            xx,
                            y as int,
                            #[trigger] to_return.color_at(xx, y as int),
                        ) && (to_return.color_at(xx, y as int) == black_v()
                            || to_return.color_at(xx, y as int) == white_v()),
                decreases resolution.width - x,
            {
                let pixel = Pixel { x, y };
                let px = Fx::from_u32(x).add(Fx::from_raw(FX_HALF));
                let py = Fx::from_u32(y).add(Fx::from_raw(FX_HALF));
                let camera_ray_value = self.camera.generate_ray(px, py, &mut self.rng);
                let pixel_color = self.integrator.spectrum_from_ray(
                    &self.objects,
                    &camera_ray_value,
                    &mut self.rng,
                );
                proof {
                    assert(px@ == x * SCALE + FX_HALF);
                    assert(py@ == y * SCALE + FX_HALF);
                    let lens0 = choose|lens: V3|
                        #[trigger] in_unit_disc(lens) && camera_ray_value@ == camera_ray(
                            self.camera@,
                            px@,
                            py@,
                            lens,
                        );
                    assert(integrator_spectrum_ok(
                        self.integrator,
                        self.objects@,
                        camera_ray(self.camera@, px@, py@, lens0),
                        pixel_color@,
                    ));
                    assert(pixel_spectrum_ok(
                        old(self).integrator_s(),
                        old(self).objects_v(),
                        old(self).camera_v(),
                        x as int,
                        y as int,
                        pixel_color@,
                    ));
                }
                to_return.set_pixel_color(&pixel, pixel_color);
                x = x + 1;
            }
            y = y + 1;
        }
        to_return
    }
}

} // verus!
