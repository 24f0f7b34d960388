//! Exactness and saturation of the fixed-point scalar.

use mirth::angle::{Angle, AngleUnits};
use mirth::config::validate_config;
use mirth::fixed::{Fx, FloatConstants, SignCheckable, FX_EPS, FX_MAX, FX_PI, SCALE};

#[test]
fn integer_arithmetic_is_exact() {
    let three = Fx::from_i64(3);
    let two = Fx::from_i64(2);
    assert_eq!(three.add(two), Fx::from_i64(5));
    assert_eq!(three.sub(two), Fx::from_i64(1));
    assert_eq!(three.mul(two), Fx::from_i64(6));
    assert_eq!(Fx::from_i64(6).div(two), Fx::from_i64(3));
    assert_eq!(three.neg(), Fx::from_i64(-3));
    assert_eq!(Fx::from_i64(-3).abs(), three);
}

#[test]
fn division_truncates_toward_zero() {
    // -1/2 rounds to 0, not -1.
    let minus_one = Fx::from_i64(-1);
    let half = minus_one.div(Fx::from_i64(2));
    assert_eq!(half.raw, -(SCALE / 2));
    let third = Fx::from_i64(1).div(Fx::from_i64(3));
    assert_eq!(third.raw, SCALE / 3);
}

#[test]
fn sqrt_of_perfect_squares() {
    assert_eq!(Fx::from_i64(4).sqrt(), Fx::from_i64(2));
    assert_eq!(Fx::from_i64(9).sqrt(), Fx::from_i64(3));
    assert_eq!(Fx::zero().sqrt(), Fx::zero());
    assert_eq!(Fx::one().sqrt(), Fx::one());
}

#[test]
fn addition_saturates_at_infinity() {
    let inf = Fx::infinity();
    assert_eq!(inf.add(Fx::one()), inf);
    assert_eq!(inf.neg().sub(Fx::one()), inf.neg());
    assert_eq!(inf.raw, FX_MAX);
}

#[test]
fn sign_checks_use_the_tolerance_band() {
    assert!(Fx::from_raw(FX_EPS).is_zero());
    assert!(Fx::from_raw(-FX_EPS).is_zero());
    assert!(Fx::from_raw(FX_EPS + 1).is_positive());
    assert!(Fx::from_raw(-FX_EPS - 1).is_negative());
    assert!(!Fx::one().is_zero());
}

#[test]
fn comparisons_follow_raw_values() {
    assert!(Fx::from_i64(1).lt(Fx::from_i64(2)));
    assert!(Fx::from_i64(2).le(Fx::from_i64(2)));
    assert!(!Fx::from_i64(3).lt(Fx::from_i64(2)));
}

#[test]
fn float_constants_match_the_raw_tables() {
    assert_eq!(Fx::get_pi().raw, FX_PI);
    // pi * (1/pi) is 1 within the tolerance.
    let product = Fx::get_pi().mul(Fx::get_1_pi());
    assert!((product.raw - SCALE).abs() <= 16);
}

#[test]
fn angle_conversion_round_trip() {
    let straight = Angle { amount: Fx::from_i64(180), units: AngleUnits::Degrees };
    let as_rad = straight.as_radians();
    // 180 degrees is pi radians, up to the rounding of the factor.
    assert!((as_rad.raw - FX_PI).abs() <= 64);
    let pi = Angle { amount: Fx::from_raw(FX_PI), units: AngleUnits::Radians };
    assert!((pi.as_degrees().raw - 180 * SCALE).abs() <= 4096);
    assert_eq!(pi.as_radians().raw, FX_PI);
    assert_eq!(straight.as_degrees().raw, 180 * SCALE);
}

#[test]
fn configured_acceleration_structure_warns() {
    // The build pairs the BBH structure with random axis selection, which is
    // the known-suboptimal combination.
    assert!(!validate_config());
}
