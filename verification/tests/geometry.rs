//! Vectors, matrices, transforms and the orthonormal basis.

use mirth::basis::OrthonormalBasis;
use mirth::fixed::{Fx, SCALE};
use mirth::matrix::{Matrix4, Matrix4AxisRotationInfo, Matrix4TransformKind};
use mirth::angle::{Angle, AngleUnits};
use mirth::transform::Transform;
use mirth::vector::{Vec3, cross, dot};

fn v(x: i64, y: i64, z: i64) -> Vec3 {
    Vec3::new(Fx::from_i64(x), Fx::from_i64(y), Fx::from_i64(z))
}

fn assert_close(a: Vec3, b: Vec3, tol: i64) {
    assert!(
        (a.x.raw - b.x.raw).abs() <= tol && (a.y.raw - b.y.raw).abs() <= tol && (a.z.raw
            - b.z.raw).abs() <= tol,
        "{:?} differs from {:?}",
        a,
        b
    );
}

#[test]
fn dot_and_cross_products() {
    let a = v(1, 2, 3);
    let b = v(4, -5, 6);
    assert_eq!(dot(&a, &b), Fx::from_i64(4 - 10 + 18));
    assert_eq!(cross(&a, &b), v(12 + 15, 12 - 6, -5 - 8));
    assert_eq!(cross(&a, &a), v(0, 0, 0));
}

#[test]
fn normalize_is_unit_length_within_tolerance() {
    let n = v(3, 4, 0).normalize();
    assert_eq!(n.x.raw, 3 * SCALE / 5);
    assert_eq!(n.y.raw, 4 * SCALE / 5);
    let len = n.length();
    assert!((len.raw - SCALE).abs() <= 8);
    // The zero vector stays put instead of failing.
    assert_eq!(v(0, 0, 0).normalize(), v(0, 0, 0));
}

#[test]
fn normalize_to_rescales() {
    let w = v(0, 0, 5).normalize_to(Fx::from_i64(2));
    assert_close(w, v(0, 0, 2), 4);
}

#[test]
fn identity_matrix_moves_nothing() {
    let m = Matrix4::identity();
    let p = v(7, -3, 11);
    assert_eq!(m.transform_point(&p), p);
    assert_eq!(m.transform_vector(&p), p);
}

#[test]
fn translation_moves_points_not_vectors() {
    let m = Matrix4::new_from_translation(&v(1, 2, 3));
    assert_eq!(m.transform_point(&v(10, 10, 10)), v(11, 12, 13));
    assert_eq!(m.transform_vector(&v(10, 10, 10)), v(10, 10, 10));
}

#[test]
fn translation_transform_round_trip_is_exact() {
    let m = Matrix4::new_from_translation(&v(5, 6, 7));
    let t = Transform::new_from_matrix(&m).expect("translation is invertible");
    let p = v(-2, 9, 4);
    assert_eq!(t.point_to_local(&t.point_to_global(&p)), p);
    assert_eq!(t.point_to_global(&t.point_to_local(&p)), p);
    assert_eq!(t.vector_to_local(&t.vector_to_global(&p)), p);
}

#[test]
fn scale_transform_round_trip_within_tolerance() {
    let m = Matrix4::new_from_scale(&v(2, 4, 8));
    let t = Transform::new_from_matrix(&m).expect("scale is invertible");
    let p = v(3, -1, 5);
    assert_close(t.point_to_local(&t.point_to_global(&p)), p, 32);
    assert_close(t.point_to_global(&t.point_to_local(&p)), p, 32);
}

#[test]
fn rotation_round_trip_within_tolerance() {
    let rotation = Matrix4TransformKind::AxisRotation(Matrix4AxisRotationInfo {
        axis: v(0, 0, 1),
        angle: Angle { amount: Fx::from_i64(90), units: AngleUnits::Degrees },
    });
    let m = Matrix4::new_from_sequence(&vec![rotation]);
    let rotated = m.transform_vector(&v(1, 0, 0));
    assert_close(rotated, v(0, 1, 0), SCALE / 100);
    let t = Transform::new_from_matrix(&m).expect("rotation is invertible");
    let p = v(2, 3, -1);
    assert_close(t.point_to_local(&t.point_to_global(&p)), p, SCALE / 50);
}

#[test]
fn sequence_composes_in_listed_order() {
    // Scale by 2, then translate by (1, 0, 0): the point (1,1,1) lands on
    // (3, 2, 2).
    let seq = vec![
        Matrix4TransformKind::Scale(v(2, 2, 2)),
        Matrix4TransformKind::Translation(v(1, 0, 0)),
    ];
    let m = Matrix4::new_from_sequence(&seq);
    assert_close(m.transform_point(&v(1, 1, 1)), v(3, 2, 2), 8);
}

#[test]
fn singular_matrix_has_no_inverse() {
    let m = Matrix4::new_from_scale(&v(0, 1, 1));
    assert!(m.inverse().is_none());
    assert!(Transform::new_from_matrix(&m).is_none());
}

#[test]
fn viewer_transform_places_the_eye() {
    let t = Transform::new_for_viewer(&v(0, 0, 1), &v(0, 0, 0), &v(0, 1, 0)).expect(
        "viewer basis is invertible",
    );
    // The viewer looks down its local -z axis: local (0,0,-1) is the look-at
    // point.
    assert_close(t.point_to_global(&v(0, 0, -1)), v(0, 0, 0), 8);
    // The eye sits at the local origin.
    assert_eq!(t.point_to_global(&v(0, 0, 0)), v(0, 0, 1));
    assert_close(t.point_to_local(&v(0, 0, 1)), v(0, 0, 0), 8);
}

#[test]
fn orthonormal_basis_is_orthogonal() {
    let onb = OrthonormalBasis::new_from_vector(&v(1, 2, 3));
    let tol = 64;
    assert!(dot(&onb.x_axis, &onb.y_axis).raw.abs() <= tol);
    assert!(dot(&onb.y_axis, &onb.z_axis).raw.abs() <= tol);
    assert!(dot(&onb.x_axis, &onb.z_axis).raw.abs() <= tol);
    // Each axis has unit length, within tolerance.
    assert!((onb.z_axis.length().raw - SCALE).abs() <= 64);
    assert!((onb.y_axis.length().raw - SCALE).abs() <= 64);
    assert!((onb.x_axis.length().raw - SCALE).abs() <= 2048);
    // A local z vector maps onto the basis vector itself.
    let mapped = onb.vector_from_local(v(0, 0, 1));
    assert_close(mapped, onb.z_axis, 8);
}
