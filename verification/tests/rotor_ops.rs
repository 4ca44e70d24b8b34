use gamath::fixed::SCALE as S;
use gamath::rotor3::Rotor3;
use gamath::vec3::Vec3;

#[test]
fn test_no_rotation() {
    let a = Vec3::new(S, 0, 0);
    let b = Vec3::new(S, 0, 0);
    let rotor = Rotor3::new(a, b);

    let mut v = Vec3::new(S, S, S);
    rotor.rotate_vec(&mut v);
    assert!(999_900 <= v.x && v.x < 1_000_100);
    assert!(999_900 <= v.y && v.y < 1_000_100);
    assert!(999_900 <= v.z && v.z < 1_000_100);
}

#[test]
fn test_double_rotation_fix() {
    let a = Vec3::new(S, 0, 0);
    let b = Vec3::new(0, S, 0);
    let rotor = Rotor3::new_exact(a, b);

    let mut v = Vec3::new(S, 0, 0);
    rotor.rotate_vec(&mut v);
    assert!(-100 <= v.x && v.x < 100);
    assert!(999_900 <= v.y && v.y < 1_000_100);
    assert!(-100 <= v.z && v.z < 100);
}

#[test]
fn test_double_rotation_fix_180() {
    let a = Vec3::new(S, 0, 0);
    let b = Vec3::new(-S, 0, 0);
    let rotor = Rotor3::new_exact(a, b);

    let mut v = Vec3::new(S, 0, 0);
    rotor.rotate_vec(&mut v);
    assert!(-1_000_100 <= v.x && v.x < -999_900);
    assert!(-100 <= v.y && v.y < 100);
    assert!(-100 <= v.z && v.z < 100);
}

#[test]
fn test_append() {
    let a = Vec3::new(S, 0, 0);
    let mut b = Vec3::new(0, S, 0);
    b.normalize();
    let mut rotor = Rotor3::new(a, b);
    rotor.append(rotor);
    let mut v = Vec3::new(S, 0, 0);
    rotor.rotate_vec(&mut v);
    assert!(999_990 <= v.x && v.x < 1_000_010);
    assert!(-10 <= v.y && v.y < 10);
    assert!(-10 <= v.z && v.z < 10);
}

#[test]
fn identity_rotor_components() {
    let id = Rotor3::identity();
    assert_eq!(id.s, S);
    assert_eq!(id.xy, 0);
    assert_eq!(id.yz, 0);
    assert_eq!(id.zx, 0);
}

#[test]
fn aligned_unit_vectors_give_identity() {
    let a = Vec3::new(600_000, 800_000, 0);
    let rotor = Rotor3::new(a, a);
    assert_eq!(rotor.s, S);
    assert_eq!(rotor.xy, 0);
    assert_eq!(rotor.yz, 0);
    assert_eq!(rotor.zx, 0);

    let mut v = Vec3::new(123_456, -987_654, 555_555);
    rotor.rotate_vec(&mut v);
    assert_eq!(v.x, 123_456);
    assert_eq!(v.y, -987_654);
    assert_eq!(v.z, 555_555);
}

#[test]
fn append_matches_sequential_rotation() {
    let half = Vec3::new(S, S, 0).normalized();
    let r1 = Rotor3::new(Vec3::new(S, 0, 0), half);
    let r2 = Rotor3::new(half, Vec3::new(0, S, 0));
    let composite = r1.appended(r2);

    let v = Vec3::new(S, 2 * S, 3 * S);
    let via_composite = composite.rotated_vec(v);
    let via_sequence = r1.rotated_vec(r2.rotated_vec(v));

    assert!((via_composite.x - via_sequence.x).abs() < 10);
    assert!((via_composite.y - via_sequence.y).abs() < 10);
    assert!((via_composite.z - via_sequence.z).abs() < 10);
}

#[test]
fn inverted_undoes_rotation() {
    let half = Vec3::new(S, S, 0).normalized();
    let rotor = Rotor3::new(Vec3::new(S, 0, 0), half);
    let inverse = rotor.inverted();

    let v = Vec3::new(S, 2 * S, 3 * S);
    let back = inverse.rotated_vec(rotor.rotated_vec(v));
    assert!((back.x - v.x).abs() < 100);
    assert!((back.y - v.y).abs() < 100);
    assert!((back.z - v.z).abs() < 100);
}

#[test]
fn invert_in_place_negates_bivector() {
    let mut rotor = Rotor3 { s: 10, xy: 20, yz: -30, zx: 40 };
    rotor.invert();
    assert_eq!(rotor.s, 10);
    assert_eq!(rotor.xy, -20);
    assert_eq!(rotor.yz, 30);
    assert_eq!(rotor.zx, -40);
}

#[test]
fn normalize_restores_unit_norm() {
    let long_x = Vec3::new(1_200_000, 0, 0);
    let long_y = Vec3::new(0, 1_200_000, 0);
    let drifted = Rotor3::new(long_x, long_y);
    let mut rotor = drifted.appended(drifted);
    let before = rotor.s * rotor.s + rotor.xy * rotor.xy + rotor.yz * rotor.yz
        + rotor.zx * rotor.zx;
    assert!(before != S * S);

    rotor.normalize();
    let after = rotor.s * rotor.s + rotor.xy * rotor.xy + rotor.yz * rotor.yz
        + rotor.zx * rotor.zx;
    assert!((after - S * S).abs() <= 4_000_000);
}

#[test]
fn rotation_mat_columns_are_orthonormal() {
    let half = Vec3::new(S, S, 0).normalized();
    let rotor = Rotor3::new(Vec3::new(S, 0, 0), half);
    let m = rotor.rotation_mat();

    let c0 = Vec3::new(m.r0.x, m.r1.x, m.r2.x);
    let c1 = Vec3::new(m.r0.y, m.r1.y, m.r2.y);
    let c2 = Vec3::new(m.r0.z, m.r1.z, m.r2.z);

    assert!(c0.dot(c1).abs() < 100);
    assert!(c1.dot(c2).abs() < 100);
    assert!(c2.dot(c0).abs() < 100);
    let m0 = c0.magnitude();
    let m1 = c1.magnitude();
    let m2 = c2.magnitude();
    assert!(999_900 <= m0 && m0 < 1_000_100);
    assert!(999_900 <= m1 && m1 < 1_000_100);
    assert!(999_900 <= m2 && m2 < 1_000_100);

    assert_eq!(m.r0.w, 0);
    assert_eq!(m.r1.w, 0);
    assert_eq!(m.r2.w, 0);
    assert_eq!(m.r3.x, 0);
    assert_eq!(m.r3.y, 0);
    assert_eq!(m.r3.z, 0);
    assert_eq!(m.r3.w, S);
}

#[test]
fn appending_identity_is_neutral() {
    let half = Vec3::new(S, S, 0).normalized();
    let rotor = Rotor3::new(Vec3::new(S, 0, 0), half);
    assert_eq!(rotor.appended(Rotor3::identity()), rotor);
    assert_eq!(Rotor3::identity().appended(rotor), rotor);
}

#[test]
fn invert_twice_restores() {
    let half = Vec3::new(S, S, 0).normalized();
    let rotor = Rotor3::new(Vec3::new(S, 0, 0), half);
    assert_eq!(rotor.inverted().inverted(), rotor);
}

#[test]
fn exact_rotation_of_ninety_degrees() {
    let rotor = Rotor3::new_exact(Vec3::new(S, 0, 0), Vec3::new(0, S, 0));
    let r = rotor.rotated_vec(Vec3::new(S, 0, 0));
    assert_eq!(r.x, 0);
    assert_eq!(r.y, S);
    assert_eq!(r.z, 0);
}
