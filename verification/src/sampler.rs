//! Methods for generating random samples (points) on various geometries,
//! together with the probability density of each sample.

use vstd::prelude::*;

use crate::fixed::{
    Fx, smul, ssub, ssqrt, mag, lemma_smul_unit, lemma_smul_disc_bound, lemma_smul_comm,
    lemma_mag_mul, lemma_ssqrt_nonneg, SCALE, FX_TWO_PI, FX_FRAC_1_PI, FX_FRAC_1_2PI,
};
use crate::rng::RandomNumberGenerator;
use crate::trig::{fxsin, fxcos, sin_cos, lemma_sin_cos_unit};
use crate::vector::{Vec3, Point3, V3};

verus! {

/// A sampled point on a unit domain, with the probability density under
/// which it was drawn.
pub struct SampleResult {
    pub point: Point3,
    pub pdf: Fx,
}

/// The point a unit-disc sample produces from two unit draws, on raw values:
/// radius `sqrt(u1)`, angle `2 pi u2`.
pub open spec fn disc_point(u1: int, u2: int) -> V3 {
    let r = ssqrt(u1);
    let phi = smul(FX_TWO_PI as int, u2);
    V3 { x: smul(fxcos(phi), r), y: smul(fxsin(phi), r), z: 0 }
}

/// The point a hemisphere sample produces from a height `cos_theta` and an
/// angle `phi`, on raw values.
pub open spec fn hemisphere_point(cos_theta: int, phi: int) -> V3 {
    let sin_theta = ssqrt(ssub(SCALE as int, smul(cos_theta, cos_theta)));
    V3 {
        x: smul(fxcos(phi), sin_theta),
        y: smul(fxsin(phi), sin_theta),
        z: cos_theta,
    }
}

/// A hemisphere point never leaves the unit ball, truncation included: on
/// raw values its squared norm stays within one unit step of `SCALE^2`.
pub proof fn lemma_hemisphere_point_in_ball(ct: int, phi: int)
    requires
        0 <= ct <= SCALE,
    ensures
        ({
            let p = hemisphere_point(ct, phi);
            p.x * p.x + p.y * p.y + p.z * p.z <= SCALE * SCALE + SCALE
        }),
{
    let sc = SCALE as int;
    let c = crate::trig::fxcos(phi);
    let s = crate::trig::fxsin(phi);
    lemma_sin_cos_unit(phi);
    lemma_smul_unit(ct, ct);
    lemma_mag_mul(ct, ct);
    let q = smul(ct, ct);
    assert(0 <= ct * ct) by (nonlinear_arith)
        requires
            0 <= ct,
    ;
    assert(q == (ct * ct) / sc);
    vstd::arithmetic::div_mod::lemma_fundamental_div_mod(ct * ct, sc);
    vstd::arithmetic::div_mod::lemma_mod_division_less_than_divisor(ct * ct, sc);
    assert(q * sc >= ct * ct - sc + 1) by (nonlinear_arith)
        requires
            ct * ct == sc * q + (ct * ct) % sc,
            (ct * ct) % sc <= sc - 1,
    ;
    let arg = ssub(sc, q);
    assert(arg == sc - q);
    lemma_ssqrt_nonneg(arg);
    let st = ssqrt(arg);
    assert(arg * sc <= sc * sc) by (nonlinear_arith)
        requires
            0 <= arg <= sc,
            sc == 1048576,
    ;
    assert(st * st <= arg * sc);
    assert(st <= sc) by (nonlinear_arith)
        requires
            0 <= st,
            st * st <= sc * sc,
            sc == 1048576,
    ;
    lemma_smul_disc_bound(st, c, s);
    lemma_smul_comm(st, c);
    lemma_smul_comm(st, s);
    assert(arg * sc == sc * sc - q * sc) by (nonlinear_arith)
        requires
            arg == sc - q,
    ;
}

/// Whether `p` is a point the cosine-weighted hemisphere sampler can
/// produce: the height comes from the square root of one unit draw, the
/// azimuth from a full turn of another.
pub open spec fn is_cosine_hemisphere_sample(p: V3) -> bool {
    exists|u1: int, u2: int|
        0 <= u1 <= SCALE && 0 <= u2 <= SCALE && p == #[trigger] hemisphere_point(
            ssqrt(u1),
            smul(FX_TWO_PI as int, u2),
        )
}

/// A point in the unit disc, uniform in area: radius `sqrt(u1)`, angle
/// `2 pi u2`; the density is `1/pi`.
///
/// Every returned point satisfies `x^2 + y^2 <= 1` on raw values.
pub fn uniform_in_1sphere(rng: &mut RandomNumberGenerator) -> (result: SampleResult)
    ensures
        exists|u1: int, u2: int|
            0 <= u1 <= SCALE && 0 <= u2 <= SCALE && result.point@ == #[trigger] disc_point(u1, u2),
        result.point@.x * result.point@.x + result.point@.y * result.point@.y <= SCALE * SCALE,
        result.point@.z == 0,
        result.pdf@ == FX_FRAC_1_PI,
{
    let u1 = rng.next_float();
    let u2 = rng.next_float();
    let r = u1.sqrt();
    let phi = Fx::from_raw(FX_TWO_PI).mul(u2);
    let (sin_phi, cos_phi) = sin_cos(phi);
    let x = cos_phi.mul(r);
    let y = sin_phi.mul(r);
    let point = Vec3::new(x, y, Fx::zero());
    proof {
        lemma_smul_disc_bound(r@, cos_phi@, sin_phi@);
        crate::fixed::lemma_smul_comm(r@, cos_phi@);
        crate::fixed::lemma_smul_comm(r@, sin_phi@);
        assert(point@ == disc_point(u1@, u2@));
    }
    SampleResult { point, pdf: Fx::from_raw(FX_FRAC_1_PI) }
}

/// Which hemisphere distribution a sample is drawn from.
enum SphereSampleKind {
    /// upper hemisphere, uniformly over solid angle
    UniformHemisphere,
    /// upper hemisphere, weighted by the cosine of the polar angle
    CosineHemisphere,
}

/// A direction on the upper unit hemisphere, uniform over solid angle; the
/// density is `1/(2 pi)`.  The z-component is never negative.
pub fn uniform_on_2sphere_hemisphere(rng: &mut RandomNumberGenerator) -> (result: SampleResult)
    ensures
        exists|u1: int, u2: int|
            0 <= u1 <= SCALE && 0 <= u2 <= SCALE && result.point@ == #[trigger] hemisphere_point(
                u1,
                smul(FX_TWO_PI as int, u2),
            ),
        result.point@.z >= 0,
        result.point@.x * result.point@.x + result.point@.y * result.point@.y + result.point@.z
            * result.point@.z <= SCALE * SCALE + SCALE,
        result.pdf@ == FX_FRAC_1_2PI,
{
    sphere_sampler_helper(rng, SphereSampleKind::UniformHemisphere)
}

/// A direction on the upper unit hemisphere, weighted by the cosine of the
/// polar angle; the density is `cos(theta) / pi`.  The z-component is never
/// negative.
pub fn cosine_on_2sphere_hemisphere(rng: &mut RandomNumberGenerator) -> (result: SampleResult)
    ensures
        exists|u1: int, u2: int|
            0 <= u1 <= SCALE && 0 <= u2 <= SCALE && result.point@ == #[trigger] hemisphere_point(
                ssqrt(u1),
                smul(FX_TWO_PI as int, u2),
            ),
        is_cosine_hemisphere_sample(result.point@),
        result.point@.z >= 0,
        result.point@.x * result.point@.x + result.point@.y * result.point@.y + result.point@.z
            * result.point@.z <= SCALE * SCALE + SCALE,
        result.pdf@ == smul(result.point@.z, FX_FRAC_1_PI as int),
{
    sphere_sampler_helper(rng, SphereSampleKind::CosineHemisphere)
}

/// Helper encapsulating the ways to sample the upper unit hemisphere.  The
/// polar angle comes from the first draw (by the Archimedes hat-box theorem
/// for the uniform case, by a square root for the cosine-weighted case), the
/// azimuth from the second.
fn sphere_sampler_helper(rng: &mut RandomNumberGenerator, kind: SphereSampleKind) -> (result:
    SampleResult)
    ensures
        matches!(kind, SphereSampleKind::UniformHemisphere) ==> {
            &&& exists|u1: int, u2: int|
                0 <= u1 <= SCALE && 0 <= u2 <= SCALE && result.point@
                    == #[trigger] hemisphere_point(u1, smul(FX_TWO_PI as int, u2))
            &&& result.pdf@ == FX_FRAC_1_2PI
        },
        matches!(kind, SphereSampleKind::CosineHemisphere) ==> {
            &&& exists|u1: int, u2: int|
                0 <= u1 <= SCALE && 0 <= u2 <= SCALE && result.point@
                    == #[trigger] hemisphere_point(ssqrt(u1), smul(FX_TWO_PI as int, u2))
            &&& result.pdf@ == smul(result.point@.z, FX_FRAC_1_PI as int)
        },
        result.point@.z >= 0,
        result.point@.x * result.point@.x + result.point@.y * result.point@.y + result.point@.z
            * result.point@.z <= SCALE * SCALE + SCALE,
{
    let u_phi = rng.next_float();
    let phi = Fx::from_raw(FX_TWO_PI).mul(u_phi);
    let (sin_phi, cos_phi) = sin_cos(phi);
    let u_theta = rng.next_float();
    let (cos_theta, pdf): (Fx, Fx) = match kind {
        SphereSampleKind::UniformHemisphere => {
            (u_theta, Fx::from_raw(FX_FRAC_1_2PI))
        },
        SphereSampleKind::CosineHemisphere => {
            let ct = u_theta.sqrt();
            (ct, ct.mul(Fx::from_raw(FX_FRAC_1_PI)))
        },
    };
    proof {
        lemma_smul_unit(cos_theta@, cos_theta@);
    }
    let sin_theta = Fx::one().sub(cos_theta.mul(cos_theta)).sqrt();
    let sampled_vector = Vec3::new(cos_phi.mul(sin_theta), sin_phi.mul(sin_theta), cos_theta);
    proof {
        lemma_hemisphere_point_in_ball(cos_theta@, phi@);
        assert(sampled_vector@ == hemisphere_point(cos_theta@, phi@));
        assert(smul(cos_theta@, FX_FRAC_1_PI as int) == smul(FX_FRAC_1_PI as int, cos_theta@))
            by (nonlinear_arith);
    }
    SampleResult { point: sampled_vector, pdf }
}

} // verus!
