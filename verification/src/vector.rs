//! Three-component vectors, points and colors over the fixed-point scalar.

use vstd::prelude::*;

use crate::fixed::{Fx, sadd, ssub, smul, sdiv, sneg, ssqrt, SignCheckable, FX_EPS};

verus! {

/// Ghost view of a vector: its three raw coordinates.
pub ghost struct V3 {
    pub x: int,
    pub y: int,
    pub z: int,
}

/// Vector addition on views.
pub open spec fn v3_add(a: V3, b: V3) -> V3 {
    V3 { x: sadd(a.x, b.x), y: sadd(a.y, b.y), z: sadd(a.z, b.z) }
}

/// Vector subtraction on views.
pub open spec fn v3_sub(a: V3, b: V3) -> V3 {
    V3 { x: ssub(a.x, b.x), y: ssub(a.y, b.y), z: ssub(a.z, b.z) }
}

/// Componentwise scaling on views.
pub open spec fn v3_scale(k: int, v: V3) -> V3 {
    V3 { x: smul(k, v.x), y: smul(k, v.y), z: smul(k, v.z) }
}

/// Componentwise negation on views.
pub open spec fn v3_neg(v: V3) -> V3 {
    V3 { x: sneg(v.x), y: sneg(v.y), z: sneg(v.z) }
}

/// Dot product on views, in the order the executable code sums it.
pub open spec fn v3_dot(a: V3, b: V3) -> int {
    sadd(sadd(smul(a.x, b.x), smul(a.y, b.y)), smul(a.z, b.z))
}

/// Cross product on views.
pub open spec fn v3_cross(a: V3, b: V3) -> V3 {
    V3 {
        x: ssub(smul(a.y, b.z), smul(a.z, b.y)),
        y: ssub(smul(a.z, b.x), smul(a.x, b.z)),
        z: ssub(smul(a.x, b.y), smul(a.y, b.x)),
    }
}

/// Length of a vector on views.
pub open spec fn v3_len(v: V3) -> int {
    ssqrt(v3_dot(v, v))
}

/// Normalization on views: the zero-length vector is returned unchanged.
pub open spec fn v3_normalize(v: V3) -> V3 {
    if v3_len(v) == 0 {
        v
    } else {
        V3 {
            x: sdiv(v.x, v3_len(v)),
            y: sdiv(v.y, v3_len(v)),
            z: sdiv(v.z, v3_len(v)),
        }
    }
}

/// Rescaling to a requested magnitude on views: scale by `m / |v|`.
pub open spec fn v3_normalize_to(v: V3, m: int) -> V3 {
    if v3_len(v) == 0 {
        v
    } else {
        v3_scale(sdiv(m, v3_len(v)), v)
    }
}

/// Componentwise comparison within the fixed tolerance.
pub open spec fn v3_approx_eq(a: V3, b: V3) -> bool {
    &&& -FX_EPS <= ssub(a.x, b.x) <= FX_EPS
    &&& -FX_EPS <= ssub(a.y, b.y) <= FX_EPS
    &&& -FX_EPS <= ssub(a.z, b.z) <= FX_EPS
}

/// A square truncated down by `SCALE` is still nonnegative.
pub proof fn lemma_smul_square_nonneg(a: int)
    ensures
        smul(a, a) >= 0,
{
    crate::fixed::lemma_mag_mul(a, a);
}

/// A dot product of a vector with itself is nonnegative.
pub proof fn lemma_v3_dot_self_nonneg(v: V3)
    ensures
        v3_dot(v, v) >= 0,
{
    lemma_smul_square_nonneg(v.x);
    lemma_smul_square_nonneg(v.y);
    lemma_smul_square_nonneg(v.z);
}

/// A vector; the same type serves as a point or a color.
#[derive(Clone, Copy, Debug, PartialEq, Eq, Structural)]
pub struct Vec3 {
    pub x: Fx,
    pub y: Fx,
    pub z: Fx,
}

impl View for Vec3 {
    type V = V3;

    open spec fn view(&self) -> V3 {
        V3 { x: self.x@, y: self.y@, z: self.z@ }
    }
}

/// A position in space.
pub type Point3 = Vec3;

/// An RGB color; each channel is one coordinate.
pub type Color3 = Vec3;

impl Vec3 {
    /// Create a new vector with the specified coordinates.
    pub fn new(x: Fx, y: Fx, z: Fx) -> (r: Vec3)
        ensures
            r@ == (V3 { x: x@, y: y@, z: z@ }),
    {
        Vec3 { x, y, z }
    }

    /// The origin / zero vector.
    pub fn origin() -> (r: Vec3)
        ensures
            r@ == (V3 { x: 0, y: 0, z: 0 }),
    {
        Vec3 { x: Fx::zero(), y: Fx::zero(), z: Fx::zero() }
    }

    /// Retrieve the x coordinate.
    pub fn x(&self) -> (r: Fx)
        ensures
            r@ == self@.x,
    {
        self.x
    }

    /// Retrieve the y coordinate.
    pub fn y(&self) -> (r: Fx)
        ensures
            r@ == self@.y,
    {
        self.y
    }

    /// Retrieve the z coordinate.
    pub fn z(&self) -> (r: Fx)
        ensures
            r@ == self@.z,
    {
        self.z
    }

    /// Change the x coordinate to the specified value.
    pub fn set_x(&mut self, x: Fx)
        ensures
            final(self)@ == (V3 { x: x@, ..old(self)@ }),
    {
        self.x = x;
    }

    /// Change the y coordinate to the specified value.
    pub fn set_y(&mut self, y: Fx)
        ensures
            final(self)@ == (V3 { y: y@, ..old(self)@ }),
    {
        self.y = y;
    }

    /// Change the z coordinate to the specified value.
    pub fn set_z(&mut self, z: Fx)
        ensures
            final(self)@ == (V3 { z: z@, ..old(self)@ }),
    {
        self.z = z;
    }

    /// Componentwise sum.
    pub fn add(self, rhs: Vec3) -> (r: Vec3)
        ensures
            r@ == v3_add(self@, rhs@),
    {
        Vec3 { x: self.x.add(rhs.x), y: self.y.add(rhs.y), z: self.z.add(rhs.z) }
    }

    /// Componentwise difference.
    pub fn sub(self, rhs: Vec3) -> (r: Vec3)
        ensures
            r@ == v3_sub(self@, rhs@),
    {
        Vec3 { x: self.x.sub(rhs.x), y: self.y.sub(rhs.y), z: self.z.sub(rhs.z) }
    }

    /// Componentwise negation.
    pub fn neg(self) -> (r: Vec3)
        ensures
            r@ == v3_neg(self@),
    {
        Vec3 { x: self.x.neg(), y: self.y.neg(), z: self.z.neg() }
    }

    /// Scaling by a scalar.
    pub fn scale(self, k: Fx) -> (r: Vec3)
        ensures
            r@ == v3_scale(k@, self@),
    {
        Vec3 { x: k.mul(self.x), y: k.mul(self.y), z: k.mul(self.z) }
    }

    /// Length of the vector.
    pub fn length(self) -> (r: Fx)
        ensures
            r@ == v3_len(self@),
            r@ >= 0,
    {
        proof {
            lemma_v3_dot_self_nonneg(self@);
        }
        dot(&self, &self).sqrt()
    }

    /// Rescales to unit length; the zero-length vector is returned unchanged.
    pub fn normalize(self) -> (r: Vec3)
        ensures
            r@ == v3_normalize(self@),
    {
        let len = self.length();
        if len.raw == 0 {
            self
        } else {
            Vec3 { x: self.x.div(len), y: self.y.div(len), z: self.z.div(len) }
        }
    }

    /// Rescales to the requested magnitude; the zero-length vector is
    /// returned unchanged.
    pub fn normalize_to(self, magnitude: Fx) -> (r: Vec3)
        ensures
            r@ == v3_normalize_to(self@, magnitude@),
    {
        let len = self.length();
        if len.raw == 0 {
            self
        } else {
            self.scale(magnitude.div(len))
        }
    }

    /// Componentwise equality within the fixed tolerance.
    pub fn are_equal(v1: &Vec3, v2: &Vec3) -> (r: bool)
        ensures
            r == v3_approx_eq(v1@, v2@),
    {
        v1.x.sub(v2.x).is_zero() && v1.y.sub(v2.y).is_zero() && v1.z.sub(v2.z).is_zero()
    }
}

/// Dot product.
pub fn dot(v1: &Vec3, v2: &Vec3) -> (r: Fx)
    ensures
        r@ == v3_dot(v1@, v2@),
{
    v1.x.mul(v2.x).add(v1.y.mul(v2.y)).add(v1.z.mul(v2.z))
}

/// Cross product.
pub fn cross(v1: &Vec3, v2: &Vec3) -> (r: Vec3)
    ensures
        r@ == v3_cross(v1@, v2@),
{
    Vec3 {
        x: v1.y.mul(v2.z).sub(v1.z.mul(v2.y)),
        y: v1.z.mul(v2.x).sub(v1.x.mul(v2.z)),
        z: v1.x.mul(v2.y).sub(v1.y.mul(v2.x)),
    }
}

} // verus!
