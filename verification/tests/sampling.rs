//! Random sampling: range of the generator, the disc and hemisphere
//! samplers, and the trigonometric kernel they use.

use mirth::fixed::{Fx, FX_FRAC_1_2PI, FX_FRAC_1_PI, FX_HALF_PI, FX_PI, SCALE};
use mirth::rng::RandomNumberGenerator;
use mirth::sampler::{cosine_on_2sphere_hemisphere, uniform_in_1sphere, uniform_on_2sphere_hemisphere};
use mirth::trig::{sin_cos, tan};

#[test]
fn generator_stays_in_the_unit_interval() {
    let mut rng = RandomNumberGenerator::from_seed(7);
    for _ in 0..1000 {
        let u = rng.next_float();
        assert!(0 <= u.raw && u.raw <= SCALE);
    }
}

#[test]
fn generator_is_reproducible() {
    let mut a = RandomNumberGenerator::from_seed(42);
    let mut b = RandomNumberGenerator::from_seed(42);
    for _ in 0..100 {
        assert_eq!(a.next_float(), b.next_float());
    }
}

#[test]
fn disc_samples_stay_in_the_unit_disc() {
    let mut rng = RandomNumberGenerator::from_seed(1);
    for _ in 0..1000 {
        let s = uniform_in_1sphere(&mut rng);
        let x = s.point.x.raw as i128;
        let y = s.point.y.raw as i128;
        assert!(x * x + y * y <= (SCALE as i128) * (SCALE as i128));
        assert_eq!(s.point.z.raw, 0);
        assert_eq!(s.pdf.raw, FX_FRAC_1_PI);
    }
}

#[test]
fn gen_points_sphere_hemisphere() {
    let mut rng = RandomNumberGenerator::from_seed(1);
    for _ in 0..1000 {
        let s = uniform_on_2sphere_hemisphere(&mut rng);
        assert!(s.point.z.raw >= 0);
        assert_eq!(s.pdf.raw, FX_FRAC_1_2PI);
    }
}

#[test]
fn gen_points_cosine_sphere_hemisphere() {
    let mut rng = RandomNumberGenerator::from_seed(1);
    for _ in 0..1000 {
        let s = cosine_on_2sphere_hemisphere(&mut rng);
        // The upper hemisphere only, with density cos(theta)/pi.
        assert!(s.point.z.raw >= 0);
        let expected_pdf = (s.point.z.raw * FX_FRAC_1_PI) / SCALE;
        assert_eq!(s.pdf.raw, expected_pdf);
    }
}

#[test]
fn hemisphere_samples_have_nearly_unit_length() {
    let mut rng = RandomNumberGenerator::from_seed(3);
    for _ in 0..200 {
        let s = cosine_on_2sphere_hemisphere(&mut rng);
        let x = s.point.x.raw as i128;
        let y = s.point.y.raw as i128;
        let z = s.point.z.raw as i128;
        let norm2 = x * x + y * y + z * z;
        let unit = (SCALE as i128) * (SCALE as i128);
        assert!(norm2 <= unit + 2 * (SCALE as i128));
        assert!(norm2 >= unit - 8192 * (SCALE as i128));
    }
}

#[test]
fn sine_and_cosine_of_the_axes() {
    let (s0, c0) = sin_cos(Fx::zero());
    assert_eq!(s0.raw, 0);
    assert_eq!(c0.raw, SCALE);
    let (s1, c1) = sin_cos(Fx::from_raw(FX_HALF_PI));
    assert!((s1.raw - SCALE).abs() <= 64);
    assert!(c1.raw.abs() <= 8192);
    let (s2, c2) = sin_cos(Fx::from_raw(FX_PI));
    assert!(s2.raw.abs() <= 64);
    assert!((c2.raw + SCALE).abs() <= 8192);
    let (s3, _) = sin_cos(Fx::from_raw(-FX_HALF_PI));
    assert!((s3.raw + SCALE).abs() <= 64);
}

#[test]
fn pythagorean_identity_holds_on_raw_values() {
    let mut angle: i64 = -8 * SCALE;
    while angle <= 8 * SCALE {
        let (s, c) = sin_cos(Fx::from_raw(angle));
        let ss = (s.raw as i128) * (s.raw as i128);
        let cc = (c.raw as i128) * (c.raw as i128);
        let unit = (SCALE as i128) * (SCALE as i128);
        assert!(ss + cc <= unit);
        assert!(ss + cc >= unit - 4 * (SCALE as i128));
        angle += 37011;
    }
}

#[test]
fn tangent_of_a_quarter_turn_diagonal() {
    // tan(pi/4) is 1.
    let t = tan(Fx::from_raw(FX_PI / 4));
    assert!((t.raw - SCALE).abs() <= 512);
    // At the pole the tangent saturates.
    let pole = tan(Fx::from_raw(FX_HALF_PI));
    assert!(pole.raw.abs() > SCALE * 64);
}
