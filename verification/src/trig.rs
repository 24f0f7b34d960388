//! Fixed-point sine and cosine.
//!
//! The sine is a Taylor polynomial on a quarter turn, extended by symmetry;
//! the cosine's magnitude is recovered from the sine through an integer
//! square root, which makes `sin^2 + cos^2 <= 1` a theorem rather than an
//! approximation.

use vstd::prelude::*;

use crate::fixed::{
    Fx, mag, smul, sdiv, ssub, sadd, isqrt_s, lemma_isqrt_property, SignCheckable, SCALE, FX_PI,
    FX_TWO_PI, FX_HALF_PI, FX_EPS, FX_MAX,
};

verus! {

/// 3*pi/2 in raw units.
pub const FX_THREE_HALF_PI: i64 = 4941298;

/// An angle reduced to one turn, `[0, 2 pi)`, as the executable code
/// computes it from magnitudes.
pub open spec fn reduce_two_pi(x: int) -> int {
    if x >= 0 {
        x % (FX_TWO_PI as int)
    } else if mag(x) % (FX_TWO_PI as int) == 0 {
        0
    } else {
        FX_TWO_PI - (mag(x) % (FX_TWO_PI as int))
    }
}

/// Taylor polynomial for sine on a quarter turn:
/// `t - t^3/3! + t^5/5! - t^7/7! + t^9/9!`.
pub open spec fn sin_quarter(t: int) -> int {
    let t2 = smul(t, t);
    let t3 = smul(t2, t);
    let t5 = smul(t3, t2);
    let t7 = smul(t5, t2);
    let t9 = smul(t7, t2);
    sadd(
        ssub(
            sadd(ssub(t, sdiv(t3, 6 * SCALE as int)), sdiv(t5, 120 * SCALE as int)),
            sdiv(t7, 5040 * SCALE as int),
        ),
        sdiv(t9, 362880 * SCALE as int),
    )
}

/// Clamp into the unit interval `[-1, 1]`.
pub open spec fn clamp_unit(v: int) -> int {
    if v > SCALE {
        SCALE as int
    } else if v < -SCALE {
        -SCALE as int
    } else {
        v
    }
}

/// Sine on a half turn, `u` in `[0, pi]`.
pub open spec fn sin_half(u: int) -> int {
    if u <= FX_HALF_PI {
        clamp_unit(sin_quarter(u))
    } else {
        clamp_unit(sin_quarter(FX_PI - u))
    }
}

/// Fixed-point sine of any angle.
pub open spec fn fxsin(x: int) -> int {
    let r = reduce_two_pi(x);
    if r <= FX_PI {
        sin_half(r)
    } else {
        -sin_half(r - FX_PI)
    }
}

/// Magnitude of the cosine recovered from the sine: `sqrt(1 - sin^2)`
/// computed on raw units as `isqrt(SCALE^2 - s^2)`.
pub open spec fn cos_mag_from_sin(s: int) -> int {
    isqrt_s(SCALE * SCALE - s * s)
}

/// Fixed-point cosine of any angle: the magnitude from the sine, with the
/// sign chosen by quadrant.
pub open spec fn fxcos(x: int) -> int {
    let r = reduce_two_pi(x);
    if r <= FX_HALF_PI || r >= FX_THREE_HALF_PI {
        cos_mag_from_sin(fxsin(x))
    } else {
        -cos_mag_from_sin(fxsin(x))
    }
}

/// The Pythagorean bound: on raw units, `sin^2 + cos^2 <= SCALE^2`.
pub proof fn lemma_sin_cos_unit(x: int)
    ensures
        -SCALE <= fxsin(x) <= SCALE,
        -SCALE <= fxcos(x) <= SCALE,
        fxsin(x) * fxsin(x) + fxcos(x) * fxcos(x) <= SCALE * SCALE,
{
    let s = fxsin(x);
    let c = fxcos(x);
    assert(0 <= s * s <= SCALE * SCALE) by (nonlinear_arith)
        requires
            -SCALE <= s <= SCALE,
            SCALE == 1048576,
    ;
    lemma_isqrt_property(SCALE * SCALE - s * s);
    let cm = cos_mag_from_sin(s);
    assert(cm * cm <= SCALE * SCALE - s * s);
    assert(cm <= SCALE) by (nonlinear_arith)
        requires
            0 <= cm,
            cm * cm <= SCALE * SCALE,
            SCALE == 1048576,
    ;
    assert(c == cm || c == -cm);
    assert(c * c == cm * cm) by (nonlinear_arith)
        requires
            c == cm || c == -cm,
    ;
}

/// Reduces an angle to one turn.
fn reduce_angle(x: Fx) -> (r: i64)
    ensures
        r as int == reduce_two_pi(x@),
        0 <= r < FX_TWO_PI,
{
    let m: u64 = if x.raw < 0 {
        (-(x.raw as i128)) as u64
    } else {
        x.raw as u64
    };
    let rem: u64 = m % (FX_TWO_PI as u64);
    if x.raw >= 0 {
        rem as i64
    } else if rem == 0 {
        0
    } else {
        FX_TWO_PI - (rem as i64)
    }
}

/// Evaluates the quarter-turn sine polynomial.
fn sin_quarter_exec(t: Fx) -> (r: Fx)
    ensures
        r@ == sin_quarter(t@),
{
    let t2 = t.mul(t);
    let t3 = t2.mul(t);
    let t5 = t3.mul(t2);
    let t7 = t5.mul(t2);
    let t9 = t7.mul(t2);
    let d3 = t3.div(Fx::from_i64(6));
    let d5 = t5.div(Fx::from_i64(120));
    let d7 = t7.div(Fx::from_i64(5040));
    let d9 = t9.div(Fx::from_i64(362880));
    t.sub(d3).add(d5).sub(d7).add(d9)
}

/// Clamps a raw value into the unit interval.
fn clamp_unit_exec(v: Fx) -> (r: Fx)
    ensures
        r@ == clamp_unit(v@),
{
    if v.raw > SCALE {
        Fx { raw: SCALE }
    } else if v.raw < -SCALE {
        Fx { raw: -SCALE }
    } else {
        v
    }
}

/// Fixed-point sine and cosine of an angle in radians.
///
/// The pair always satisfies `sin^2 + cos^2 <= 1` on raw units, which the
/// samplers rely on.
pub fn sin_cos(x: Fx) -> (r: (Fx, Fx))
    ensures
        r.0@ == fxsin(x@),
        r.1@ == fxcos(x@),
        -SCALE <= r.0@ <= SCALE,
        -SCALE <= r.1@ <= SCALE,
        r.0@ * r.0@ + r.1@ * r.1@ <= SCALE * SCALE,
{
    let red = reduce_angle(x);
    let s: Fx = if red <= FX_PI {
        clamp_unit_exec(sin_quarter_exec(sin_half_arg(red)))
    } else {
        clamp_unit_exec(sin_quarter_exec(sin_half_arg(red - FX_PI))).neg_unit()
    };
    proof {
        lemma_sin_cos_unit(x@);
        assert(0 <= (s.raw as int) * (s.raw as int) <= SCALE * SCALE) by (nonlinear_arith)
            requires
                -SCALE <= s.raw as int <= SCALE,
                SCALE == 1048576,
        ;
    }
    let d: i64 = SCALE * SCALE - s.raw * s.raw;
    let cm: u64 = crate::fixed::isqrt_u128(d as u128);
    proof {
        lemma_isqrt_property(d as int);
        crate::fixed::lemma_isqrt_is(d as int, cm as int);
    }
    let c: Fx = if red <= FX_HALF_PI || red >= FX_THREE_HALF_PI {
        Fx { raw: cm as i64 }
    } else {
        Fx { raw: -(cm as i64) }
    };
    (s, c)
}

/// Fixed-point tangent: the quotient of sine by cosine, saturated where the
/// cosine lies within the zero tolerance (the pole of the tangent).
pub open spec fn fxtan(x: int) -> int {
    if -FX_EPS <= fxcos(x) <= FX_EPS {
        if fxsin(x) >= 0 {
            FX_MAX as int
        } else {
            -FX_MAX as int
        }
    } else {
        sdiv(fxsin(x), fxcos(x))
    }
}

/// Fixed-point tangent of an angle in radians.
pub fn tan(x: Fx) -> (r: Fx)
    ensures
        r@ == fxtan(x@),
{
    let (s, c) = sin_cos(x);
    if c.is_zero() {
        if s.raw >= 0 {
            Fx::infinity()
        } else {
            Fx::infinity().neg()
        }
    } else {
        s.div(c)
    }
}

/// Picks the argument for the quarter-turn polynomial on a half turn.
fn sin_half_arg(u: i64) -> (r: Fx)
    requires
        0 <= u <= FX_PI,
    ensures
        r@ == if u <= FX_HALF_PI {
            u as int
        } else {
            FX_PI - u
        },
{
    if u <= FX_HALF_PI {
        Fx { raw: u }
    } else {
        Fx { raw: FX_PI - u }
    }
}

impl Fx {
    /// Negation that cannot saturate because the value lies in the unit
    /// interval.
    fn neg_unit(self) -> (r: Fx)
        requires
            -SCALE <= self@ <= SCALE,
        ensures
            r@ == -self@,
    {
        Fx { raw: -self.raw }
    }
}

} // verus!
