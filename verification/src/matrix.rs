//! Affine 4x4 matrices, stored as four columns over an implicit bottom row
//! `(0,0,0,1)`: three columns of the linear part and a translation column.

use vstd::prelude::*;

use crate::angle::{Angle, angle_as_radians};
use crate::fixed::{Fx, smul, sadd, ssub, sdiv, sneg, SignCheckable, SCALE, FX_EPS};
use crate::trig::{fxsin, fxcos, sin_cos};
use crate::vector::{
    Vec3, Point3, V3, v3_add, v3_scale, v3_neg, v3_dot, v3_cross, dot, cross,
};

verus! {

/// Ghost view of an affine matrix: its four columns.
pub ghost struct M4 {
    pub c0: V3,
    pub c1: V3,
    pub c2: V3,
    pub c3: V3,
}

/// The identity matrix on views.
pub open spec fn m4_identity() -> M4 {
    M4 {
        c0: V3 { x: SCALE as int, y: 0, z: 0 },
        c1: V3 { x: 0, y: SCALE as int, z: 0 },
        c2: V3 { x: 0, y: 0, z: SCALE as int },
        c3: V3 { x: 0, y: 0, z: 0 },
    }
}

/// Applying only the linear part, for direction vectors.
pub open spec fn m4_xform_vector(m: M4, v: V3) -> V3 {
    v3_add(v3_add(v3_scale(v.x, m.c0), v3_scale(v.y, m.c1)), v3_scale(v.z, m.c2))
}

/// Applying the full affine map, for positions.
pub open spec fn m4_xform_point(m: M4, p: V3) -> V3 {
    v3_add(m4_xform_vector(m, p), m.c3)
}

/// Matrix composition on views.
pub open spec fn m4_mul(a: M4, b: M4) -> M4 {
    M4 {
        c0: m4_xform_vector(a, b.c0),
        c1: m4_xform_vector(a, b.c1),
        c2: m4_xform_vector(a, b.c2),
        c3: m4_xform_point(a, b.c3),
    }
}

/// Determinant of the linear part on views: the scalar triple product.
pub open spec fn m4_det(m: M4) -> int {
    v3_dot(m.c0, v3_cross(m.c1, m.c2))
}

/// Inverse on views, by the adjugate of the linear part; meaningful only
/// when the determinant is away from zero.
pub open spec fn m4_inverse(m: M4) -> M4 {
    let invd = sdiv(SCALE as int, m4_det(m));
    let r0 = v3_scale(invd, v3_cross(m.c1, m.c2));
    let r1 = v3_scale(invd, v3_cross(m.c2, m.c0));
    let r2 = v3_scale(invd, v3_cross(m.c0, m.c1));
    let linear = M4 {
        c0: V3 { x: r0.x, y: r1.x, z: r2.x },
        c1: V3 { x: r0.y, y: r1.y, z: r2.y },
        c2: V3 { x: r0.z, y: r1.z, z: r2.z },
        c3: V3 { x: 0, y: 0, z: 0 },
    };
    M4 {
        c3: v3_neg(m4_xform_vector(linear, m.c3)),
        ..linear
    }
}

/// Translation matrix on views.
pub open spec fn m4_translation(t: V3) -> M4 {
    M4 { c3: t, ..m4_identity() }
}

/// Componentwise scale matrix on views.
pub open spec fn m4_scaling(s: V3) -> M4 {
    M4 {
        c0: V3 { x: s.x, y: 0, z: 0 },
        c1: V3 { x: 0, y: s.y, z: 0 },
        c2: V3 { x: 0, y: 0, z: s.z },
        c3: V3 { x: 0, y: 0, z: 0 },
    }
}

/// Rotation about an axis by an angle in radians, on views: the classic
/// axis-angle form `R = cos I + sin [axis]x + (1 - cos) axis axis^T`.
pub open spec fn m4_axis_rotation(a: V3, rad: int) -> M4 {
    let s = fxsin(rad);
    let c = fxcos(rad);
    let t = ssub(SCALE as int, c);
    M4 {
        c0: V3 {
            x: sadd(c, smul(smul(a.x, a.x), t)),
            y: sadd(smul(smul(a.x, a.y), t), smul(a.z, s)),
            z: ssub(smul(smul(a.x, a.z), t), smul(a.y, s)),
        },
        c1: V3 {
            x: ssub(smul(smul(a.x, a.y), t), smul(a.z, s)),
            y: sadd(c, smul(smul(a.y, a.y), t)),
            z: sadd(smul(smul(a.y, a.z), t), smul(a.x, s)),
        },
        c2: V3 {
            x: sadd(smul(smul(a.x, a.z), t), smul(a.y, s)),
            y: ssub(smul(smul(a.y, a.z), t), smul(a.x, s)),
            z: sadd(c, smul(smul(a.z, a.z), t)),
        },
        c3: V3 { x: 0, y: 0, z: 0 },
    }
}

/// An affine transformation matrix.
#[derive(Clone, Copy, Debug, PartialEq, Eq, Structural)]
pub struct Matrix4 {
    pub c0: Vec3,
    pub c1: Vec3,
    pub c2: Vec3,
    pub c3: Vec3,
}

impl View for Matrix4 {
    type V = M4;

    open spec fn view(&self) -> M4 {
        M4 { c0: self.c0@, c1: self.c1@, c2: self.c2@, c3: self.c3@ }
    }
}

impl Matrix4 {
    /// The identity matrix.
    pub fn identity() -> (r: Matrix4)
        ensures
            r@ == m4_identity(),
    {
        Matrix4 {
            c0: Vec3::new(Fx::one(), Fx::zero(), Fx::zero()),
            c1: Vec3::new(Fx::zero(), Fx::one(), Fx::zero()),
            c2: Vec3::new(Fx::zero(), Fx::zero(), Fx::one()),
            c3: Vec3::origin(),
        }
    }

    /// Applies the full affine map to a position.
    pub fn transform_point(&self, point: &Point3) -> (r: Point3)
        ensures
            r@ == m4_xform_point(self@, point@),
    {
        self.c0.scale(point.x).add(self.c1.scale(point.y)).add(self.c2.scale(point.z)).add(
            self.c3,
        )
    }

    /// Applies only the linear part, for direction vectors.
    pub fn transform_vector(&self, vector: &Vec3) -> (r: Vec3)
        ensures
            r@ == m4_xform_vector(self@, vector@),
    {
        self.c0.scale(vector.x).add(self.c1.scale(vector.y)).add(self.c2.scale(vector.z))
    }

    /// Creates an affine transformation matrix with the provided columns.
    /// The last row of the matrix is the implicit `(0,0,0,1)`.
    pub fn new_from_column_vec3s(cols: [Vec3; 4]) -> (r: Matrix4)
        ensures
            r@ == (M4 { c0: cols[0]@, c1: cols[1]@, c2: cols[2]@, c3: cols[3]@ }),
    {
        Matrix4 { c0: cols[0], c1: cols[1], c2: cols[2], c3: cols[3] }
    }

    /// Creates the matrix translating by `translation`.
    pub fn new_from_translation(translation: &Vec3) -> (r: Matrix4)
        ensures
            r@ == m4_translation(translation@),
    {
        Matrix4 { c3: *translation, ..Matrix4::identity() }
    }

    /// Creates the matrix scaling each coordinate by the matching component
    /// of `scale`.
    pub fn new_from_scale(scale: &Vec3) -> (r: Matrix4)
        ensures
            r@ == m4_scaling(scale@),
    {
        Matrix4 {
            c0: Vec3::new(scale.x, Fx::zero(), Fx::zero()),
            c1: Vec3::new(Fx::zero(), scale.y, Fx::zero()),
            c2: Vec3::new(Fx::zero(), Fx::zero(), scale.z),
            c3: Vec3::origin(),
        }
    }

    /// Creates the matrix rotating about `info.axis` by `info.angle`.
    pub fn new_from_axis_rotation(info: &Matrix4AxisRotationInfo) -> (r: Matrix4)
        ensures
            r@ == m4_axis_rotation(
                info.axis@,
                angle_as_radians(info.angle.amount@, info.angle.units),
            ),
    {
        let rad = info.angle.as_radians();
        let (s, c) = sin_cos(rad);
        let t = Fx::one().sub(c);
        let ax = info.axis.x;
        let ay = info.axis.y;
        let az = info.axis.z;
        Matrix4 {
            c0: Vec3::new(
                c.add(ax.mul(ax).mul(t)),
                ax.mul(ay).mul(t).add(az.mul(s)),
                ax.mul(az).mul(t).sub(ay.mul(s)),
            ),
            c1: Vec3::new(
                ax.mul(ay).mul(t).sub(az.mul(s)),
                c.add(ay.mul(ay).mul(t)),
                ay.mul(az).mul(t).add(ax.mul(s)),
            ),
            c2: Vec3::new(
                ax.mul(az).mul(t).add(ay.mul(s)),
                ay.mul(az).mul(t).sub(ax.mul(s)),
                c.add(az.mul(az).mul(t)),
            ),
            c3: Vec3::origin(),
        }
    }

    /// Matrix composition: `self * rhs` applies `rhs` first.
    pub fn matmul(&self, rhs: &Matrix4) -> (r: Matrix4)
        ensures
            r@ == m4_mul(self@, rhs@),
    {
        Matrix4 {
            c0: self.transform_vector(&rhs.c0),
            c1: self.transform_vector(&rhs.c1),
            c2: self.transform_vector(&rhs.c2),
            c3: self.transform_point(&rhs.c3),
        }
    }

    /// Determinant of the linear part.
    pub fn det(&self) -> (r: Fx)
        ensures
            r@ == m4_det(self@),
    {
        dot(&self.c0, &cross(&self.c1, &self.c2))
    }

    /// The inverse, by the adjugate of the linear part.  A matrix whose
    /// determinant lies within the zero tolerance has no usable inverse and
    /// yields `None`: the fatal case for scene construction.
    pub fn inverse(&self) -> (r: Option<Matrix4>)
        ensures
            match r {
                Some(inv) => inv@ == m4_inverse(self@) && !(-FX_EPS <= m4_det(self@) <= FX_EPS),
                None => -FX_EPS <= m4_det(self@) <= FX_EPS,
            },
    {
        let d = self.det();
        if d.is_zero() {
            return None;
        }
        let invd = Fx::one().div(d);
        let r0 = cross(&self.c1, &self.c2).scale(invd);
        let r1 = cross(&self.c2, &self.c0).scale(invd);
        let r2 = cross(&self.c0, &self.c1).scale(invd);
        let linear = Matrix4 {
            c0: Vec3::new(r0.x, r1.x, r2.x),
            c1: Vec3::new(r0.y, r1.y, r2.y),
            c2: Vec3::new(r0.z, r1.z, r2.z),
            c3: Vec3::origin(),
        };
        let translation = linear.transform_vector(&self.c3).neg();
        Some(Matrix4 { c3: translation, ..linear })
    }
}

impl Default for Matrix4 {
    /// The identity matrix.
    fn default() -> (r: Matrix4)
        ensures
            r@ == m4_identity(),
    {
        Matrix4::identity()
    }
}

/// A rotation described by an axis and an angle.
#[derive(Clone, Copy, Debug)]
pub struct Matrix4AxisRotationInfo {
    pub axis: Vec3,
    pub angle: Angle,
}

/// One primitive transform of a "simple sequence".
#[derive(Clone, Copy, Debug)]
pub enum Matrix4TransformKind {
    AxisRotation(Matrix4AxisRotationInfo),
    Translation(Vec3),
    Scale(Vec3),
}

/// The matrix of one primitive transform, on views.
pub open spec fn m4_of_kind(k: Matrix4TransformKind) -> M4 {
    match k {
        Matrix4TransformKind::AxisRotation(info) => m4_axis_rotation(
            info.axis@,
            angle_as_radians(info.angle.amount@, info.angle.units),
        ),
        Matrix4TransformKind::Translation(t) => m4_translation(t@),
        Matrix4TransformKind::Scale(s) => m4_scaling(s@),
    }
}

/// The composition of the first `i` primitive transforms of a sequence, each
/// new matrix pre-multiplied onto the running product.
pub open spec fn m4_seq_fold(s: Seq<Matrix4TransformKind>, i: int) -> M4
    decreases i,
{
    if i <= 0 {
        m4_identity()
    } else {
        m4_mul(m4_of_kind(s[i - 1]), m4_seq_fold(s, i - 1))
    }
}

impl Matrix4 {
    /// Composes a sequence of primitive transforms, applied in listed order.
    pub fn new_from_sequence(sequence: &Vec<Matrix4TransformKind>) -> (r: Matrix4)
        ensures
            r@ == m4_seq_fold(sequence@, sequence@.len() as int),
    {
        let mut to_return = Matrix4::identity();
        let mut i: usize = 0;
        while i < sequence.len()
            invariant
                0 <= i <= sequence@.len(),
                to_return@ == m4_seq_fold(sequence@, i as int),
            decreases sequence@.len() - i,
        {
            let single = Self::new_from_transform_kind(&sequence[i]);
            to_return = single.matmul(&to_return);
            i = i + 1;
        }
        to_return
    }

    /// The matrix of one primitive transform.
    fn new_from_transform_kind(kind: &Matrix4TransformKind) -> (r: Matrix4)
        ensures
            r@ == m4_of_kind(*kind),
    {
        match kind {
            Matrix4TransformKind::AxisRotation(rotation_info) => {
                Self::new_from_axis_rotation(rotation_info)
            },
            Matrix4TransformKind::Translation(translation) => {
                Self::new_from_translation(translation)
            },
            Matrix4TransformKind::Scale(scale) => Self::new_from_scale(scale),
        }
    }
}

} // verus!
