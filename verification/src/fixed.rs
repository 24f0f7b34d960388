//! The scalar type of the renderer: a signed fixed-point number.
//!
//! A value represents the real number `raw / SCALE`.  Every operation
//! saturates at `FX_MAX` (used as the renderer's stand-in for infinity), so
//! all arithmetic is total and panic-free, and each operation's result is
//! pinned down exactly at the integer level by the spec functions below.

use vstd::prelude::*;

verus! {

/// Number of raw units per 1.0 (2^20).
pub const SCALE: i64 = 1048576;

/// Largest representable raw value (2^62); doubles as the renderer's infinity.
pub const FX_MAX: i64 = 4611686018427387904;

/// Comparison tolerance in raw units (about 1e-5).
pub const FX_EPS: i64 = 10;

/// pi in raw units.
pub const FX_PI: i64 = 3294199;

/// 1/pi in raw units.
pub const FX_FRAC_1_PI: i64 = 333772;

/// 1/(2 pi) in raw units.
pub const FX_FRAC_1_2PI: i64 = 166886;

/// 2 pi in raw units.
pub const FX_TWO_PI: i64 = 6588397;

/// pi/2 in raw units.
pub const FX_HALF_PI: i64 = 1647099;

/// 1/2 in raw units.
pub const FX_HALF: i64 = 524288;

/// Magnitude of an integer.
pub open spec fn mag(x: int) -> int {
    if x < 0 {
        -x
    } else {
        x
    }
}

/// Division that truncates toward zero, as the executable code computes it
/// from magnitudes.
pub open spec fn tdiv(a: int, b: int) -> int
    recommends
        b != 0,
{
    if (a < 0) == (b < 0) {
        mag(a) / mag(b)
    } else {
        -(mag(a) / mag(b))
    }
}

/// Saturation into the representable range.
pub open spec fn sat(x: int) -> int {
    if x > FX_MAX {
        FX_MAX as int
    } else if x < -FX_MAX {
        -FX_MAX as int
    } else {
        x
    }
}

/// Result of fixed-point addition on raw values.
pub open spec fn sadd(a: int, b: int) -> int {
    sat(a + b)
}

/// Result of fixed-point subtraction on raw values.
pub open spec fn ssub(a: int, b: int) -> int {
    sat(a - b)
}

/// Result of fixed-point negation on raw values.
pub open spec fn sneg(a: int) -> int {
    sat(-a)
}

/// Result of fixed-point magnitude on raw values.
pub open spec fn sabs(a: int) -> int {
    if a >= 0 {
        a
    } else {
        sat(-a)
    }
}

/// Result of fixed-point multiplication on raw values:
/// `(a * b) / SCALE`, truncated toward zero, then saturated.
pub open spec fn smul(a: int, b: int) -> int {
    sat(tdiv(a * b, SCALE as int))
}

/// Result of fixed-point division on raw values:
/// `(a * SCALE) / b`, truncated toward zero, then saturated.
pub open spec fn sdiv(a: int, b: int) -> int
    recommends
        b != 0,
{
    sat(tdiv(a * (SCALE as int), b))
}

/// `r` is the integer square root of `x`.
pub open spec fn is_isqrt(x: int, r: int) -> bool {
    0 <= r && r * r <= x && x < (r + 1) * (r + 1)
}

/// The integer square root, as chosen by its defining property.
pub open spec fn isqrt_s(x: int) -> int
    recommends
        x >= 0,
{
    choose|r: int| #[trigger] is_isqrt(x, r)
}

/// Result of fixed-point square root on a nonnegative raw value.
pub open spec fn ssqrt(a: int) -> int
    recommends
        a >= 0,
{
    isqrt_s(a * SCALE)
}

/// Every nonnegative integer has an integer square root.
pub proof fn lemma_isqrt_exists(x: nat)
    ensures
        exists|r: int| #[trigger] is_isqrt(x as int, r),
    decreases x,
{
    if x == 0 {
        assert(is_isqrt(0, 0));
    } else {
        lemma_isqrt_exists((x - 1) as nat);
        let r0 = choose|r: int| #[trigger] is_isqrt(x - 1, r);
        if (r0 + 1) * (r0 + 1) <= x {
            assert((r0 + 2) * (r0 + 2) > x) by (nonlinear_arith)
                requires
                    x - 1 < (r0 + 1) * (r0 + 1),
                    r0 >= 0,
            ;
            assert(is_isqrt(x as int, r0 + 1));
        } else {
            assert(is_isqrt(x as int, r0));
        }
    }
}

/// The integer square root is unique.
pub proof fn lemma_isqrt_unique(x: int, r1: int, r2: int)
    requires
        is_isqrt(x, r1),
        is_isqrt(x, r2),
    ensures
        r1 == r2,
{
    assert(r1 == r2) by (nonlinear_arith)
        requires
            0 <= r1 && r1 * r1 <= x && x < (r1 + 1) * (r1 + 1),
            0 <= r2 && r2 * r2 <= x && x < (r2 + 1) * (r2 + 1),
    ;
}

/// Knowing a root's defining property names it as `isqrt_s`.
pub proof fn lemma_isqrt_is(x: int, r: int)
    requires
        is_isqrt(x, r),
    ensures
        isqrt_s(x) == r,
        is_isqrt(x, isqrt_s(x)),
{
    let rc = choose|q: int| #[trigger] is_isqrt(x, q);
    lemma_isqrt_unique(x, rc, r);
}

/// `isqrt_s` satisfies its defining property on nonnegative arguments.
pub proof fn lemma_isqrt_property(x: int)
    requires
        x >= 0,
    ensures
        is_isqrt(x, isqrt_s(x)),
{
    lemma_isqrt_exists(x as nat);
}

/// The magnitude of a product is the product of the magnitudes, and the sign
/// of a product follows the signs of its factors.
pub proof fn lemma_mag_mul(a: int, b: int)
    ensures
        mag(a * b) == mag(a) * mag(b),
        ((a < 0) == (b < 0)) ==> a * b >= 0,
        ((a < 0) != (b < 0)) ==> a * b <= 0,
        (a != 0 && b != 0) ==> mag(a * b) > 0,
{
    if a >= 0 && b >= 0 {
        assert(a * b >= 0 && a * b == mag(a) * mag(b) && (a > 0 && b > 0 ==> a * b > 0))
            by (nonlinear_arith)
            requires
                a >= 0,
                b >= 0,
        ;
    } else if a < 0 && b < 0 {
        assert(a * b > 0 && a * b == (-a) * (-b)) by (nonlinear_arith)
            requires
                a < 0,
                b < 0,
        ;
    } else if a < 0 {
        assert(a * b <= 0 && -(a * b) == (-a) * b && (b > 0 ==> a * b < 0))
            by (nonlinear_arith)
            requires
                a < 0,
                b >= 0,
        ;
    } else {
        assert(a * b <= 0 && -(a * b) == a * (-b) && (a > 0 ==> a * b < 0))
            by (nonlinear_arith)
            requires
                a >= 0,
                b < 0,
        ;
    }
}

/// Multiplying by zero gives zero.
pub proof fn lemma_smul_zero(x: int)
    ensures
        smul(0, x) == 0,
        smul(x, 0) == 0,
{
    assert(0 * x == 0) by (nonlinear_arith);
    assert(x * 0 == 0) by (nonlinear_arith);
}

/// Multiplying by one (the raw value `SCALE`) is exact up to saturation.
pub proof fn lemma_smul_one(x: int)
    ensures
        smul(SCALE as int, x) == sat(x),
        smul(x, SCALE as int) == sat(x),
{
    lemma_mag_mul(SCALE as int, x);
    assert((SCALE as int) * mag(x) / (SCALE as int) == mag(x)) by {
        vstd::arithmetic::div_mod::lemma_div_multiples_vanish(mag(x), SCALE as int);
    }
    assert(x * (SCALE as int) == (SCALE as int) * x) by (nonlinear_arith);
    if x == 0 {
        assert((SCALE as int) * 0 == 0) by (nonlinear_arith);
    } else if x > 0 {
        assert((SCALE as int) * x > 0) by (nonlinear_arith)
            requires
                x > 0,
                SCALE == 1048576,
        ;
    } else {
        assert((SCALE as int) * x < 0) by (nonlinear_arith)
            requires
                x < 0,
                SCALE == 1048576,
        ;
    }
}

/// Dividing a value by one (the raw value `SCALE`) is exact up to saturation.
pub proof fn lemma_sdiv_one(x: int)
    ensures
        sdiv(x, SCALE as int) == sat(x),
{
    lemma_mag_mul(x, SCALE as int);
    assert(mag(x) * (SCALE as int) == (SCALE as int) * mag(x)) by (nonlinear_arith);
    assert((SCALE as int) * mag(x) / (SCALE as int) == mag(x)) by {
        vstd::arithmetic::div_mod::lemma_div_multiples_vanish(mag(x), SCALE as int);
    }
    if x == 0 {
        assert(x * (SCALE as int) == 0) by (nonlinear_arith)
            requires
                x == 0,
        ;
    } else if x > 0 {
        assert(x * (SCALE as int) > 0) by (nonlinear_arith)
            requires
                x > 0,
                SCALE == 1048576,
        ;
    } else {
        assert(x * (SCALE as int) < 0) by (nonlinear_arith)
            requires
                x < 0,
                SCALE == 1048576,
        ;
    }
}

/// A product of unit-interval values stays in the unit interval.
pub proof fn lemma_smul_unit(a: int, b: int)
    requires
        mag(a) <= SCALE,
        mag(b) <= SCALE,
    ensures
        mag(smul(a, b)) <= SCALE,
        a >= 0 && b >= 0 ==> smul(a, b) >= 0,
{
    lemma_mag_mul(a, b);
    assert(mag(a) * mag(b) <= (SCALE as int) * (SCALE as int)) by (nonlinear_arith)
        requires
            0 <= mag(a) <= SCALE,
            0 <= mag(b) <= SCALE,
    ;
    vstd::arithmetic::div_mod::lemma_div_is_ordered(
        mag(a) * mag(b),
        (SCALE as int) * (SCALE as int),
        SCALE as int,
    );
    vstd::arithmetic::div_mod::lemma_div_multiples_vanish(SCALE as int, SCALE as int);
    assert((SCALE as int) * (SCALE as int) / (SCALE as int) == SCALE as int);
    vstd::arithmetic::div_mod::lemma_div_pos_is_pos(mag(a) * mag(b), SCALE as int);
}

/// Truncating division by a positive divisor is monotone in the dividend.
pub proof fn lemma_tdiv_monotone(a1: int, a2: int, d: int)
    requires
        a1 <= a2,
        d > 0,
    ensures
        tdiv(a1, d) <= tdiv(a2, d),
{
    if a1 >= 0 {
        vstd::arithmetic::div_mod::lemma_div_is_ordered(a1, a2, d);
    } else if a2 < 0 {
        vstd::arithmetic::div_mod::lemma_div_is_ordered(-a2, -a1, d);
    } else {
        vstd::arithmetic::div_mod::lemma_div_pos_is_pos(a2, d);
        vstd::arithmetic::div_mod::lemma_div_pos_is_pos(-a1, d);
    }
}

/// Fixed-point division by a positive divisor is monotone in the dividend.
pub proof fn lemma_sdiv_monotone(a1: int, a2: int, d: int)
    requires
        a1 <= a2,
        d > 0,
    ensures
        sdiv(a1, d) <= sdiv(a2, d),
{
    assert(a1 * (SCALE as int) <= a2 * (SCALE as int)) by (nonlinear_arith)
        requires
            a1 <= a2,
            SCALE == 1048576,
    ;
    lemma_tdiv_monotone(a1 * (SCALE as int), a2 * (SCALE as int), d);
}

/// The fixed-point square root is nonnegative.
pub proof fn lemma_ssqrt_nonneg(a: int)
    requires
        a >= 0,
    ensures
        ssqrt(a) >= 0,
        is_isqrt(a * SCALE, ssqrt(a)),
{
    assert(a * (SCALE as int) >= 0) by (nonlinear_arith)
        requires
            a >= 0,
            SCALE == 1048576,
    ;
    lemma_isqrt_property(a * (SCALE as int));
}

/// Squaring preserves order on nonnegative values.
pub proof fn lemma_sq_le(a: int, b: int)
    requires
        0 <= a <= b,
    ensures
        a * a <= b * b,
{
    assert(a * a <= b * b) by (nonlinear_arith)
        requires
            0 <= a <= b,
    ;
}

/// Fixed-point multiplication commutes.
pub proof fn lemma_smul_comm(a: int, b: int)
    ensures
        smul(a, b) == smul(b, a),
{
    assert(a * b == b * a) by (nonlinear_arith);
}

/// Scaling a pair of coordinates on the unit circle by a unit-interval
/// radius keeps the point inside the unit disc, truncation included:
/// on raw values, `(r*c/SCALE)^2 + (r*s/SCALE)^2 <= SCALE^2`.
pub proof fn lemma_smul_disc_bound(r: int, c: int, s: int)
    requires
        0 <= r <= SCALE,
        c * c + s * s <= SCALE * SCALE,
    ensures
        smul(r, c) * smul(r, c) + smul(r, s) * smul(r, s) <= SCALE * SCALE,
        smul(r, c) * smul(r, c) + smul(r, s) * smul(r, s) <= r * r,
{
    let sc = SCALE as int;
    let u = mag(c);
    let v = mag(s);
    assert(u * u == c * c) by (nonlinear_arith)
        requires
            u == c || u == -c,
    ;
    assert(v * v == s * s) by (nonlinear_arith)
        requires
            v == s || v == -s,
    ;
    assert(u * u >= 0 && v * v >= 0) by (nonlinear_arith);
    assert(u <= sc) by (nonlinear_arith)
        requires
            0 <= u,
            u * u <= sc * sc,
            sc == 1048576,
    ;
    assert(v <= sc) by (nonlinear_arith)
        requires
            0 <= v,
            v * v <= sc * sc,
            sc == 1048576,
    ;
    lemma_mag_mul(r, c);
    lemma_mag_mul(r, s);
    let f = r * u / sc;
    let g = r * v / sc;
    // The saturating products have magnitudes f and g.
    assert(mag(smul(r, c)) == f && mag(smul(r, s)) == g) by {
        assert(r * u <= sc * sc) by (nonlinear_arith)
            requires
                0 <= r <= sc,
                0 <= u <= sc,
        ;
        assert(r * v <= sc * sc) by (nonlinear_arith)
            requires
                0 <= r <= sc,
                0 <= v <= sc,
        ;
        vstd::arithmetic::div_mod::lemma_div_is_ordered(r * u, sc * sc, sc);
        vstd::arithmetic::div_mod::lemma_div_is_ordered(r * v, sc * sc, sc);
        vstd::arithmetic::div_mod::lemma_div_multiples_vanish(sc, sc);
        vstd::arithmetic::div_mod::lemma_div_pos_is_pos(r * u, sc);
        vstd::arithmetic::div_mod::lemma_div_pos_is_pos(r * v, sc);
    }
    // Division bounds: f * SCALE <= r * u and g * SCALE <= r * v.
    vstd::arithmetic::div_mod::lemma_fundamental_div_mod(r * u, sc);
    vstd::arithmetic::div_mod::lemma_mod_division_less_than_divisor(r * u, sc);
    vstd::arithmetic::div_mod::lemma_fundamental_div_mod(r * v, sc);
    vstd::arithmetic::div_mod::lemma_mod_division_less_than_divisor(r * v, sc);
    assert(f * sc <= r * u && g * sc <= r * v) by (nonlinear_arith)
        requires
            r * u == sc * f + (r * u) % sc,
            r * v == sc * g + (r * v) % sc,
            (r * u) % sc >= 0,
            (r * v) % sc >= 0,
    ;
    assert(0 <= f * sc && 0 <= g * sc) by (nonlinear_arith)
        requires
            0 <= f,
            0 <= g,
            sc == 1048576,
    ;
    lemma_sq_le(f * sc, r * u);
    lemma_sq_le(g * sc, r * v);
    assert((f * sc) * (f * sc) == (f * f) * (sc * sc)) by (nonlinear_arith);
    assert((g * sc) * (g * sc) == (g * g) * (sc * sc)) by (nonlinear_arith);
    assert((r * u) * (r * u) == (r * r) * (u * u)) by (nonlinear_arith);
    assert((r * v) * (r * v) == (r * r) * (v * v)) by (nonlinear_arith);
    assert((f * f + g * g) * (sc * sc) == (f * f) * (sc * sc) + (g * g) * (sc * sc))
        by (nonlinear_arith);
    assert((r * r) * (u * u) + (r * r) * (v * v) == (r * r) * (u * u + v * v))
        by (nonlinear_arith);
    assert((r * r) * (u * u + v * v) <= (sc * sc) * (sc * sc)) by (nonlinear_arith)
        requires
            0 <= r <= sc,
            0 <= u * u + v * v <= sc * sc,
    ;
    assert(f * f + g * g <= sc * sc) by (nonlinear_arith)
        requires
            (f * f + g * g) * (sc * sc) <= (sc * sc) * (sc * sc),
            sc == 1048576,
    ;
    assert((r * r) * (u * u + v * v) <= (r * r) * (sc * sc)) by (nonlinear_arith)
        requires
            0 <= r,
            0 <= u * u + v * v <= sc * sc,
    ;
    assert(f * f + g * g <= r * r) by (nonlinear_arith)
        requires
            (f * f + g * g) * (sc * sc) <= (r * r) * (u * u + v * v),
            (r * r) * (u * u + v * v) <= (r * r) * (sc * sc),
            sc == 1048576,
    ;
    assert(smul(r, c) * smul(r, c) == f * f && smul(r, s) * smul(r, s) == g * g)
        by (nonlinear_arith)
        requires
            smul(r, c) == f || smul(r, c) == -f,
            smul(r, s) == g || smul(r, s) == -g,
    ;
}

/// The fixed-point scalar: the real number `raw / SCALE`.
#[derive(Clone, Copy, Debug, PartialEq, Eq, Structural)]
pub struct Fx {
    pub raw: i64,
}

impl View for Fx {
    type V = int;

    open spec fn view(&self) -> int {
        self.raw as int
    }
}

/// Clamps a wide intermediate result into the representable range.
fn clamp_wide(q: i128) -> (r: i64)
    ensures
        r as int == sat(q as int),
{
    if q > FX_MAX as i128 {
        FX_MAX
    } else if q < -(FX_MAX as i128) {
        -FX_MAX
    } else {
        q as i64
    }
}

/// Integer square root by binary search.
pub(crate) fn isqrt_u128(v: u128) -> (r: u64)
    requires
        v < 0x1000000000000000000000000000000u128,
    ensures
        is_isqrt(v as int, r as int),
{
    let mut lo: u128 = 0;
    let mut hi: u128 = 0x1000000000000000u128;
    while lo + 1 < hi
        invariant
            lo < hi,
            hi <= 0x1000000000000000u128,
            (lo as int) * (lo as int) <= v as int,
            (v as int) < (hi as int) * (hi as int),
        decreases hi - lo,
    {
        let mid = lo + (hi - lo) / 2;
        assert(lo < mid < hi);
        assert((mid as int) * (mid as int) < 0x1000000000000000000000000000000) by (nonlinear_arith)
            requires
                0 <= (mid as int) < 0x1000000000000000,
        ;
        if mid * mid <= v {
            lo = mid;
        } else {
            hi = mid;
        }
    }
    lo as u64
}

impl Fx {
    /// The raw value 0.
    pub fn zero() -> (r: Fx)
        ensures
            r@ == 0,
    {
        Fx { raw: 0 }
    }

    /// The raw value for 1.0.
    pub fn one() -> (r: Fx)
        ensures
            r@ == SCALE,
    {
        Fx { raw: SCALE }
    }

    /// The saturating stand-in for positive infinity.
    pub fn infinity() -> (r: Fx)
        ensures
            r@ == FX_MAX,
    {
        Fx { raw: FX_MAX }
    }

    /// Builds a scalar directly from raw units.
    pub fn from_raw(raw: i64) -> (r: Fx)
        ensures
            r@ == raw,
    {
        Fx { raw }
    }

    /// Converts an integer to the scalar that represents it.
    pub fn from_i64(v: i64) -> (r: Fx)
        ensures
            r@ == sat(v * SCALE),
    {
        proof {
            assert(-0x1000000000000000000000 <= (v as int) * (SCALE as int)
                <= 0x1000000000000000000000) by (nonlinear_arith)
                requires
                    -0x8000000000000000 <= v as int <= 0x8000000000000000,
                    SCALE == 1048576,
            ;
        }
        let w: i128 = (v as i128) * (SCALE as i128);
        Fx { raw: clamp_wide(w) }
    }

    /// Converts a pixel count to the scalar that represents it; never
    /// saturates, since `u32` counts are far below the range limit.
    pub fn from_u32(v: u32) -> (r: Fx)
        ensures
            r@ == v * SCALE,
    {
        Fx { raw: (v as i64) * SCALE }
    }

    /// Saturating addition.
    pub fn add(self, rhs: Fx) -> (r: Fx)
        ensures
            r@ == sadd(self@, rhs@),
    {
        let s: i128 = (self.raw as i128) + (rhs.raw as i128);
        Fx { raw: clamp_wide(s) }
    }

    /// Saturating subtraction.
    pub fn sub(self, rhs: Fx) -> (r: Fx)
        ensures
            r@ == ssub(self@, rhs@),
    {
        let s: i128 = (self.raw as i128) - (rhs.raw as i128);
        Fx { raw: clamp_wide(s) }
    }

    /// Saturating negation.
    pub fn neg(self) -> (r: Fx)
        ensures
            r@ == sneg(self@),
    {
        let s: i128 = -(self.raw as i128);
        Fx { raw: clamp_wide(s) }
    }

    /// Saturating magnitude.
    pub fn abs(self) -> (r: Fx)
        ensures
            r@ == sabs(self@),
    {
        if self.raw < 0 {
            self.neg()
        } else {
            self
        }
    }

    /// Fixed-point multiplication: `(a * b) / SCALE`, truncated toward zero,
    /// saturated.
    pub fn mul(self, rhs: Fx) -> (r: Fx)
        ensures
            r@ == smul(self@, rhs@),
    {
        let a: i128 = self.raw as i128;
        let b: i128 = rhs.raw as i128;
        let negative: bool = (a < 0) != (b < 0);
        let am: u128 = if a < 0 {
            (-a) as u128
        } else {
            a as u128
        };
        let bm: u128 = if b < 0 {
            (-b) as u128
        } else {
            b as u128
        };
        proof {
            lemma_mag_mul(self@, rhs@);
            assert((am as int) * (bm as int) <= 0x8000000000000000 * 0x8000000000000000)
                by (nonlinear_arith)
                requires
                    0 <= (am as int) <= 0x8000000000000000,
                    0 <= (bm as int) <= 0x8000000000000000,
            ;
        }
        let q: u128 = (am * bm) / (SCALE as u128);
        let qi: i64 = if q > FX_MAX as u128 {
            FX_MAX
        } else {
            q as i64
        };
        let raw: i64 = if negative {
            -qi
        } else {
            qi
        };
        proof {
            let ab = self@ * rhs@;
            assert(am as int == mag(self@) && bm as int == mag(rhs@));
            assert(q as int == mag(ab) / (SCALE as int));
            if negative {
                assert(ab <= 0);
                assert(raw as int == sat(tdiv(ab, SCALE as int)));
            } else {
                assert(ab >= 0);
                assert(raw as int == sat(tdiv(ab, SCALE as int)));
            }
        }
        Fx { raw }
    }

    /// Fixed-point division: `(a * SCALE) / b`, truncated toward zero,
    /// saturated.  The divisor must be nonzero; callers guard with an
    /// epsilon test as the geometry requires.
    pub fn div(self, rhs: Fx) -> (r: Fx)
        requires
            rhs@ != 0,
        ensures
            r@ == sdiv(self@, rhs@),
    {
        let a: i128 = self.raw as i128;
        let b: i128 = rhs.raw as i128;
        let negative: bool = (a < 0) != (b < 0);
        let am: u128 = if a < 0 {
            (-a) as u128
        } else {
            a as u128
        };
        let bm: u128 = if b < 0 {
            (-b) as u128
        } else {
            b as u128
        };
        proof {
            lemma_mag_mul(self@, SCALE as int);
        }
        let q: u128 = (am * (SCALE as u128)) / bm;
        let qi: i64 = if q > FX_MAX as u128 {
            FX_MAX
        } else {
            q as i64
        };
        let raw: i64 = if negative {
            -qi
        } else {
            qi
        };
        proof {
            let asc = self@ * (SCALE as int);
            assert(am as int == mag(self@) && bm as int == mag(rhs@));
            assert(mag(asc) == mag(self@) * (SCALE as int));
            assert(q as int == mag(asc) / mag(rhs@));
            // The sign of `a * SCALE` follows the sign of `a`.
            assert((asc < 0) == (self@ < 0) || self@ == 0);
            if self@ == 0 {
                assert(mag(asc) == 0);
                assert(q == 0);
                assert(raw as int == sat(tdiv(asc, rhs@)));
            } else if negative {
                assert(raw as int == sat(tdiv(asc, rhs@)));
            } else {
                assert(raw as int == sat(tdiv(asc, rhs@)));
            }
        }
        Fx { raw }
    }

    /// Fixed-point square root of a nonnegative value.
    pub fn sqrt(self) -> (r: Fx)
        requires
            self@ >= 0,
        ensures
            r@ == ssqrt(self@),
            is_isqrt(self@ * SCALE, r@),
            r@ >= 0,
            self@ <= SCALE ==> r@ <= SCALE,
    {
        let v: u128 = (self.raw as u128) * (SCALE as u128);
        let rq: u64 = isqrt_u128(v);
        proof {
            lemma_isqrt_is(self@ * SCALE, rq as int);
            assert((rq as int) < 0x80000000000) by (nonlinear_arith)
                requires
                    0 <= rq as int,
                    (rq as int) * (rq as int) <= (self@ as int) * (SCALE as int),
                    (self@ as int) * (SCALE as int) < 0x80000000000 * 0x80000000000,
            ;
            if self@ <= SCALE {
                assert((rq as int) <= SCALE) by (nonlinear_arith)
                    requires
                        0 <= rq as int,
                        (rq as int) * (rq as int) <= (self@ as int) * (SCALE as int),
                        self@ <= SCALE as int,
                        SCALE == 1048576,
                ;
            }
        }
        Fx { raw: rq as i64 }
    }

    /// Comparison on the underlying raw values.
    pub fn lt(self, rhs: Fx) -> (r: bool)
        ensures
            r == (self@ < rhs@),
    {
        self.raw < rhs.raw
    }

    /// Comparison on the underlying raw values.
    pub fn le(self, rhs: Fx) -> (r: bool)
        ensures
            r == (self@ <= rhs@),
    {
        self.raw <= rhs.raw
    }
}

/// Sign tests under the renderer's fixed comparison tolerance.
pub trait SignCheckable {
    /// The raw integer the sign tests inspect.
    spec fn sign_view(&self) -> int;

    /// Strictly below `-FX_EPS`.
    fn is_negative(&self) -> (r: bool)
        ensures
            r == (self.sign_view() < -FX_EPS),
    ;

    /// Strictly above `FX_EPS`.
    fn is_positive(&self) -> (r: bool)
        ensures
            r == (self.sign_view() > FX_EPS),
    ;

    /// Within the tolerance band around zero.
    fn is_zero(&self) -> (r: bool)
        ensures
            r == (-FX_EPS <= self.sign_view() <= FX_EPS),
    ;
}

impl SignCheckable for Fx {
    open spec fn sign_view(&self) -> int {
        self@
    }

    fn is_negative(&self) -> (r: bool) {
        self.raw < -FX_EPS
    }

    fn is_positive(&self) -> (r: bool) {
        self.raw > FX_EPS
    }

    fn is_zero(&self) -> (r: bool) {
        -FX_EPS <= self.raw && self.raw <= FX_EPS
    }
}

/// Round constants, queryable on the scalar type itself.
pub trait FloatConstants: Sized + View<V = int> {
    /// pi.
    fn get_pi() -> (r: Self)
        ensures
            r@ == FX_PI,
    ;

    /// 1/pi.
    fn get_1_pi() -> (r: Self)
        ensures
            r@ == FX_FRAC_1_PI,
    ;
}

impl FloatConstants for Fx {
    fn get_pi() -> (r: Fx) {
        Fx { raw: FX_PI }
    }

    fn get_1_pi() -> (r: Fx) {
        Fx { raw: FX_FRAC_1_PI }
    }
}

} // verus!
