//! Moving between a primitive's local coordinates and world coordinates.
//!
//! A transform keeps the forward matrix and its inverse together; the inverse
//! is computed once at construction and never independently mutated.

use vstd::prelude::*;

use crate::fixed::{sadd, mag, lemma_smul_zero, lemma_smul_one, lemma_sdiv_one, FX_EPS, FX_MAX,
    SCALE};
use crate::matrix::{Matrix4, M4, m4_xform_point, m4_xform_vector, m4_det, m4_inverse,
    m4_identity, m4_translation};
use crate::ray::{Ray3, RayV};
use crate::vector::{Vec3, Point3, V3, v3_normalize, v3_cross, cross};

verus! {

/// Ghost view of a transform: the forward and the inverse matrix.
pub ghost struct TransformV {
    pub fwd: M4,
    pub inv: M4,
}

/// The matrix a viewer construction produces: an orthonormal-by-construction
/// basis as the columns, with the eye point as the translation.
pub open spec fn viewer_matrix(look_from: V3, look_at: V3, up_direction: V3) -> M4 {
    let e2 = v3_normalize(crate::vector::v3_sub(look_from, look_at));
    let e0 = v3_normalize(v3_cross(up_direction, e2));
    let e1 = v3_cross(e2, e0);
    M4 { c0: e0, c1: e1, c2: e2, c3: look_from }
}

/// Transforming a ray: the point rule on the origin, the vector rule on the
/// direction, the parametric range copied unchanged.
pub open spec fn ray_through(m: M4, r: RayV) -> RayV {
    RayV {
        origin: m4_xform_point(m, r.origin),
        direction: m4_xform_vector(m, r.direction),
        min_t: r.min_t,
        max_t: r.max_t,
    }
}

/// Conceptually, this struct is used to move between local and global
/// coordinates.
#[derive(Clone, Copy, Debug, PartialEq, Eq, Structural)]
pub struct Transform {
    /// from local to global
    pub matrix: Matrix4,
    /// from global to local
    pub inverse_matrix: Matrix4,
}

impl View for Transform {
    type V = TransformV;

    open spec fn view(&self) -> TransformV {
        TransformV { fwd: self.matrix@, inv: self.inverse_matrix@ }
    }
}

impl Default for Transform {
    /// The identity transform.
    fn default() -> (r: Transform)
        ensures
            r@.fwd == m4_identity(),
            r@.inv == m4_identity(),
    {
        Transform { matrix: Matrix4::identity(), inverse_matrix: Matrix4::identity() }
    }
}

impl Transform {
    /// Takes a world-space position to local coordinates.
    pub fn point_to_local(&self, point: &Point3) -> (r: Point3)
        ensures
            r@ == m4_xform_point(self@.inv, point@),
    {
        self.inverse_matrix.transform_point(point)
    }

    /// Takes a world-space direction to local coordinates.
    pub fn vector_to_local(&self, vector: &Vec3) -> (r: Vec3)
        ensures
            r@ == m4_xform_vector(self@.inv, vector@),
    {
        self.inverse_matrix.transform_vector(vector)
    }

    /// Takes a world-space ray to local coordinates.
    pub fn ray_to_local(&self, ray: &Ray3) -> (r: Ray3)
        ensures
            r@ == ray_through(self@.inv, ray@),
    {
        Ray3 {
            origin: self.point_to_local(&ray.origin),
            direction: self.vector_to_local(&ray.direction),
            min_t: ray.min_t,
            max_t: ray.max_t,
        }
    }

    /// Takes a local position to world coordinates.
    pub fn point_to_global(&self, point: &Point3) -> (r: Point3)
        ensures
            r@ == m4_xform_point(self@.fwd, point@),
    {
        self.matrix.transform_point(point)
    }

    /// Takes a local direction to world coordinates.
    pub fn vector_to_global(&self, vector: &Vec3) -> (r: Vec3)
        ensures
            r@ == m4_xform_vector(self@.fwd, vector@),
    {
        self.matrix.transform_vector(vector)
    }

    /// Takes a local ray to world coordinates.
    pub fn ray_to_global(&self, ray: &Ray3) -> (r: Ray3)
        ensures
            r@ == ray_through(self@.fwd, ray@),
    {
        Ray3 {
            origin: self.point_to_global(&ray.origin),
            direction: self.vector_to_global(&ray.direction),
            min_t: ray.min_t,
            max_t: ray.max_t,
        }
    }

    /// Produces a `Transform` given a matrix describing the conversion of
    /// local coordinates to global coordinates.  A matrix whose determinant
    /// lies within the zero tolerance cannot be inverted: that is the fatal
    /// construction case, reported as `None`.
    pub fn new_from_matrix(m: &Matrix4) -> (r: Option<Transform>)
        ensures
            match r {
                Some(t) => t@.fwd == m@ && t@.inv == m4_inverse(m@) && !(-FX_EPS <= m4_det(m@)
                    <= FX_EPS),
                None => -FX_EPS <= m4_det(m@) <= FX_EPS,
            },
    {
        match m.inverse() {
            Some(inverse_matrix) => Some(Transform { matrix: *m, inverse_matrix }),
            None => None,
        }
    }

    /// Constructs a `Transform` the way a viewer (such as a camera) needs:
    /// local space is the viewer's space.  The provided up direction is only
    /// a guide; the basis is re-derived so its columns are orthonormal by
    /// construction.  `None` is the fatal case of a degenerate basis.
    pub fn new_for_viewer(look_from: &Point3, look_at: &Point3, up_direction: &Vec3) -> (r:
        Option<Transform>)
        ensures
            match r {
                Some(t) => {
                    let m = viewer_matrix(look_from@, look_at@, up_direction@);
                    t@.fwd == m && t@.inv == m4_inverse(m) && !(-FX_EPS <= m4_det(m) <= FX_EPS)
                },
                None => -FX_EPS <= m4_det(viewer_matrix(look_from@, look_at@, up_direction@))
                    <= FX_EPS,
            },
    {
        let e2 = look_from.sub(*look_at).normalize();
        let e0 = cross(up_direction, &e2).normalize();
        let e1 = cross(&e2, &e0);
        let matrix = Matrix4::new_from_column_vec3s([e0, e1, e2, *look_from]);
        match matrix.inverse() {
            Some(inverse_matrix) => Some(Transform { matrix, inverse_matrix }),
            None => None,
        }
    }
}

/// Applying the identity matrix moves nothing, for coordinates within range.
pub proof fn lemma_identity_point(p: V3)
    requires
        mag(p.x) <= FX_MAX,
        mag(p.y) <= FX_MAX,
        mag(p.z) <= FX_MAX,
    ensures
        m4_xform_point(m4_identity(), p) == p,
        m4_xform_vector(m4_identity(), p) == p,
{
    lemma_smul_one(p.x);
    lemma_smul_one(p.y);
    lemma_smul_one(p.z);
    lemma_smul_zero(p.x);
    lemma_smul_zero(p.y);
    lemma_smul_zero(p.z);
}

/// Round trip through a translation: for any translation transform, going to
/// world coordinates and back (or back and forth) returns the point exactly,
/// as long as no coordinate saturates.  Directions are untouched by a
/// translation altogether.
pub proof fn lemma_translation_round_trip(t: V3, p: V3)
    requires
        mag(p.x) + mag(t.x) <= FX_MAX,
        mag(p.y) + mag(t.y) <= FX_MAX,
        mag(p.z) + mag(t.z) <= FX_MAX,
    ensures
        m4_xform_point(m4_inverse(m4_translation(t)), m4_xform_point(m4_translation(t), p)) == p,
        m4_xform_point(m4_translation(t), m4_xform_point(m4_inverse(m4_translation(t)), p)) == p,
        m4_xform_vector(m4_inverse(m4_translation(t)), m4_xform_vector(m4_translation(t), p))
            == p,
{
    lemma_translation_inverse(t);
    let fwd = m4_translation(t);
    let inv = m4_inverse(fwd);
    lemma_identity_point(p);
    let q = m4_xform_point(fwd, p);
    assert(q == V3 { x: sadd(p.x, t.x), y: sadd(p.y, t.y), z: sadd(p.z, t.z) }) by {
        lemma_smul_one(p.x);
        lemma_smul_one(p.y);
        lemma_smul_one(p.z);
        lemma_smul_zero(p.x);
        lemma_smul_zero(p.y);
        lemma_smul_zero(p.z);
    }
    assert(q == V3 { x: p.x + t.x, y: p.y + t.y, z: p.z + t.z });
    lemma_smul_one(q.x);
    lemma_smul_one(q.y);
    lemma_smul_one(q.z);
    lemma_smul_zero(q.x);
    lemma_smul_zero(q.y);
    lemma_smul_zero(q.z);
    let w = m4_xform_point(inv, p);
    assert(w == V3 { x: p.x - t.x, y: p.y - t.y, z: p.z - t.z });
    lemma_smul_one(w.x);
    lemma_smul_one(w.y);
    lemma_smul_one(w.z);
    lemma_smul_zero(w.x);
    lemma_smul_zero(w.y);
    lemma_smul_zero(w.z);
}

/// The computed inverse of a translation is the opposite translation.
proof fn lemma_translation_inverse(t: V3)
    requires
        mag(t.x) <= FX_MAX,
        mag(t.y) <= FX_MAX,
        mag(t.z) <= FX_MAX,
    ensures
        m4_inverse(m4_translation(t)) == m4_translation(
            V3 { x: -t.x as int, y: -t.y as int, z: -t.z as int },
        ),
{
    let m = m4_translation(t);
    lemma_smul_one(SCALE as int);
    lemma_smul_zero(SCALE as int);
    lemma_smul_zero(0);
    assert(m4_det(m) == SCALE);
    lemma_sdiv_one(SCALE as int);
    lemma_smul_one(t.x);
    lemma_smul_one(t.y);
    lemma_smul_one(t.z);
    lemma_smul_zero(t.x);
    lemma_smul_zero(t.y);
    lemma_smul_zero(t.z);
}

} // verus!
