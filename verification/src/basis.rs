//! An orthonormal basis built from a single direction, used to carry a
//! locally sampled direction into world space.

use vstd::prelude::*;

use crate::fixed::{Fx, sabs, smul, SCALE};
use crate::vector::{Vec3, V3, v3_add, v3_scale, v3_normalize, v3_cross, cross};

verus! {

/// Raw value of 0.9, the threshold for picking the helper axis.
pub const FX_NINE_TENTHS: i64 = 943718;

/// The z-axis of the basis built from `v`, on views.
pub open spec fn onb_z_axis(v: V3) -> V3 {
    v3_normalize(v)
}

/// The helper axis: mostly-x vectors pair with the y-axis, all others with
/// the x-axis.
pub open spec fn onb_helper_axis(v: V3) -> V3 {
    if sabs(onb_z_axis(v).x) > FX_NINE_TENTHS {
        V3 { x: 0, y: SCALE as int, z: 0 }
    } else {
        V3 { x: SCALE as int, y: 0, z: 0 }
    }
}

/// The y-axis of the basis built from `v`, on views.
pub open spec fn onb_y_axis(v: V3) -> V3 {
    v3_normalize(v3_cross(onb_z_axis(v), onb_helper_axis(v)))
}

/// The x-axis of the basis built from `v`, on views.
pub open spec fn onb_x_axis(v: V3) -> V3 {
    v3_cross(onb_z_axis(v), onb_y_axis(v))
}

/// A local direction carried through a basis, on views.
pub open spec fn onb_vector_from_local(x_axis: V3, y_axis: V3, z_axis: V3, v: V3) -> V3 {
    v3_add(v3_add(v3_scale(v.x, x_axis), v3_scale(v.y, y_axis)), v3_scale(v.z, z_axis))
}

/// Three mutually perpendicular unit vectors.
#[derive(Clone, Copy, Debug, PartialEq, Eq, Structural)]
pub struct OrthonormalBasis {
    pub x_axis: Vec3,
    pub y_axis: Vec3,
    pub z_axis: Vec3,
}

impl OrthonormalBasis {
    /// Generates a new orthonormal basis given a single vector.  There is no
    /// canonical way to do this; here the z-axis is the (normalized) provided
    /// `v`, and the other two axes come from cross products with a helper
    /// axis chosen away from `v`.
    pub fn new_from_vector(v: &Vec3) -> (r: OrthonormalBasis)
        ensures
            r.z_axis@ == onb_z_axis(v@),
            r.y_axis@ == onb_y_axis(v@),
            r.x_axis@ == onb_x_axis(v@),
    {
        let z_axis = v.clone().normalize();
        let a = if z_axis.x.abs().raw > FX_NINE_TENTHS {
            Vec3::new(Fx::zero(), Fx::one(), Fx::zero())
        } else {
            Vec3::new(Fx::one(), Fx::zero(), Fx::zero())
        };
        let y_axis = cross(&z_axis, &a).normalize();
        let x_axis = cross(&z_axis, &y_axis);
        OrthonormalBasis { x_axis, y_axis, z_axis }
    }

    /// Takes a vector in local coordinates (wrt this orthonormal basis) and
    /// returns the transformed vector in global coordinates.
    pub fn vector_from_local(&self, v: Vec3) -> (r: Vec3)
        ensures
            r@ == onb_vector_from_local(self.x_axis@, self.y_axis@, self.z_axis@, v@),
    {
        self.x_axis.scale(v.x).add(self.y_axis.scale(v.y)).add(self.z_axis.scale(v.z))
    }
}

} // verus!
