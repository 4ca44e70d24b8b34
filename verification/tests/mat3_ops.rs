use gamath::fixed::SCALE as S;
use gamath::mat3::Mat3;
use gamath::vec3::Vec3;

fn m1_9() -> Mat3 {
    Mat3::new(
        Vec3::new(1 * S, 2 * S, 3 * S),
        Vec3::new(4 * S, 5 * S, 6 * S),
        Vec3::new(7 * S, 8 * S, 9 * S),
    )
}

fn m10_18() -> Mat3 {
    Mat3::new(
        Vec3::new(10 * S, 11 * S, 12 * S),
        Vec3::new(13 * S, 14 * S, 15 * S),
        Vec3::new(16 * S, 17 * S, 18 * S),
    )
}

#[test]
fn mat3f64_matrix_creation() {
    let zero = Mat3::zero();
    let id = Mat3::identity();
    let m = m1_9();
    let t = Mat3::new_from_cols(
        Vec3::new(1 * S, 4 * S, 7 * S),
        Vec3::new(2 * S, 5 * S, 8 * S),
        Vec3::new(3 * S, 6 * S, 9 * S),
    );

    assert_eq!(zero.r0.x, 0);
    assert_eq!(zero.r0.y, 0);
    assert_eq!(zero.r0.z, 0);
    assert_eq!(zero.r1.x, 0);
    assert_eq!(zero.r1.y, 0);
    assert_eq!(zero.r1.z, 0);
    assert_eq!(zero.r2.x, 0);
    assert_eq!(zero.r2.y, 0);
    assert_eq!(zero.r2.z, 0);

    assert_eq!(id.r0.x, S);
    assert_eq!(id.r0.y, 0);
    assert_eq!(id.r0.z, 0);
    assert_eq!(id.r1.x, 0);
    assert_eq!(id.r1.y, S);
    assert_eq!(id.r1.z, 0);
    assert_eq!(id.r2.x, 0);
    assert_eq!(id.r2.y, 0);
    assert_eq!(id.r2.z, S);

    assert_eq!(m.r0.x, 1 * S);
    assert_eq!(m.r0.y, 2 * S);
    assert_eq!(m.r0.z, 3 * S);
    assert_eq!(m.r1.x, 4 * S);
    assert_eq!(m.r1.y, 5 * S);
    assert_eq!(m.r1.z, 6 * S);
    assert_eq!(m.r2.x, 7 * S);
    assert_eq!(m.r2.y, 8 * S);
    assert_eq!(m.r2.z, 9 * S);

    assert_eq!(t.r0.x, 1 * S);
    assert_eq!(t.r0.y, 2 * S);
    assert_eq!(t.r0.z, 3 * S);
    assert_eq!(t.r1.x, 4 * S);
    assert_eq!(t.r1.y, 5 * S);
    assert_eq!(t.r1.z, 6 * S);
    assert_eq!(t.r2.x, 7 * S);
    assert_eq!(t.r2.y, 8 * S);
    assert_eq!(t.r2.z, 9 * S);
}

#[test]
fn mat3f64_transpose() {
    let mut m = m1_9();
    let t = m.transposed();
    m.transpose();

    assert_eq!(t.r0.x, 1 * S);
    assert_eq!(t.r0.y, 4 * S);
    assert_eq!(t.r0.z, 7 * S);
    assert_eq!(t.r1.x, 2 * S);
    assert_eq!(t.r1.y, 5 * S);
    assert_eq!(t.r1.z, 8 * S);
    assert_eq!(t.r2.x, 3 * S);
    assert_eq!(t.r2.y, 6 * S);
    assert_eq!(t.r2.z, 9 * S);

    assert_eq!(m.r0.x, 1 * S);
    assert_eq!(m.r0.y, 4 * S);
    assert_eq!(m.r0.z, 7 * S);
    assert_eq!(m.r1.x, 2 * S);
    assert_eq!(m.r1.y, 5 * S);
    assert_eq!(m.r1.z, 8 * S);
    assert_eq!(m.r2.x, 3 * S);
    assert_eq!(m.r2.y, 6 * S);
    assert_eq!(m.r2.z, 9 * S);
}

#[test]
fn mat3f64_as_row_and_col_major() {
    let m = m1_9();
    let cols = m.as_col_major();
    let rows = m.as_row_major();

    assert_eq!(cols.0.x, 1 * S);
    assert_eq!(cols.0.y, 4 * S);
    assert_eq!(cols.0.z, 7 * S);
    assert_eq!(cols.1.x, 2 * S);
    assert_eq!(cols.1.y, 5 * S);
    assert_eq!(cols.1.z, 8 * S);
    assert_eq!(cols.2.x, 3 * S);
    assert_eq!(cols.2.y, 6 * S);
    assert_eq!(cols.2.z, 9 * S);

    assert_eq!(rows.0.x, 1 * S);
    assert_eq!(rows.0.y, 2 * S);
    assert_eq!(rows.0.z, 3 * S);
    assert_eq!(rows.1.x, 4 * S);
    assert_eq!(rows.1.y, 5 * S);
    assert_eq!(rows.1.z, 6 * S);
    assert_eq!(rows.2.x, 7 * S);
    assert_eq!(rows.2.y, 8 * S);
    assert_eq!(rows.2.z, 9 * S);
}

#[test]
fn mat3f64_matrix_addition() {
    let m = m1_9();
    let mut n = m10_18();
    let r = n.add(m);
    n = n.add(m);

    assert_eq!(r.r0.x, 11 * S);
    assert_eq!(r.r0.y, 13 * S);
    assert_eq!(r.r0.z, 15 * S);
    assert_eq!(r.r1.x, 17 * S);
    assert_eq!(r.r1.y, 19 * S);
    assert_eq!(r.r1.z, 21 * S);
    assert_eq!(r.r2.x, 23 * S);
    assert_eq!(r.r2.y, 25 * S);
    assert_eq!(r.r2.z, 27 * S);

    assert_eq!(n.r0.x, 11 * S);
    assert_eq!(n.r0.y, 13 * S);
    assert_eq!(n.r0.z, 15 * S);
    assert_eq!(n.r1.x, 17 * S);
    assert_eq!(n.r1.y, 19 * S);
    assert_eq!(n.r1.z, 21 * S);
    assert_eq!(n.r2.x, 23 * S);
    assert_eq!(n.r2.y, 25 * S);
    assert_eq!(n.r2.z, 27 * S);
}

#[test]
fn mat3f64_matrix_subtraction() {
    let m = m1_9();
    let mut n = m10_18();
    let r = m.sub(n);
    n = n.sub(m);

    assert_eq!(r.r0.x, -9 * S);
    assert_eq!(r.r0.y, -9 * S);
    assert_eq!(r.r0.z, -9 * S);
    assert_eq!(r.r1.x, -9 * S);
    assert_eq!(r.r1.y, -9 * S);
    assert_eq!(r.r1.z, -9 * S);
    assert_eq!(r.r2.x, -9 * S);
    assert_eq!(r.r2.y, -9 * S);
    assert_eq!(r.r2.z, -9 * S);

    assert_eq!(n.r0.x, 9 * S);
    assert_eq!(n.r0.y, 9 * S);
    assert_eq!(n.r0.z, 9 * S);
    assert_eq!(n.r1.x, 9 * S);
    assert_eq!(n.r1.y, 9 * S);
    assert_eq!(n.r1.z, 9 * S);
    assert_eq!(n.r2.x, 9 * S);
    assert_eq!(n.r2.y, 9 * S);
    assert_eq!(n.r2.z, 9 * S);
}

#[test]
fn mat3f64_scalar_multiplication() {
    let mut m = m1_9();
    let n = m.scale(3 * S);
    assert_eq!(n.r0.x, 3 * S);
    assert_eq!(n.r0.y, 6 * S);
    assert_eq!(n.r0.z, 9 * S);
    assert_eq!(n.r1.x, 12 * S);
    assert_eq!(n.r1.y, 15 * S);
    assert_eq!(n.r1.z, 18 * S);
    assert_eq!(n.r2.x, 21 * S);
    assert_eq!(n.r2.y, 24 * S);
    assert_eq!(n.r2.z, 27 * S);

    let n = m.scale(3 * S);
    assert_eq!(n.r0.x, 3 * S);
    assert_eq!(n.r0.y, 6 * S);
    assert_eq!(n.r0.z, 9 * S);
    assert_eq!(n.r1.x, 12 * S);
    assert_eq!(n.r1.y, 15 * S);
    assert_eq!(n.r1.z, 18 * S);
    assert_eq!(n.r2.x, 21 * S);
    assert_eq!(n.r2.y, 24 * S);
    assert_eq!(n.r2.z, 27 * S);

    m = m.scale(3 * S);
    assert_eq!(m.r0.x, 3 * S);
    assert_eq!(m.r0.y, 6 * S);
    assert_eq!(m.r0.z, 9 * S);
    assert_eq!(m.r1.x, 12 * S);
    assert_eq!(m.r1.y, 15 * S);
    assert_eq!(m.r1.z, 18 * S);
    assert_eq!(m.r2.x, 21 * S);
    assert_eq!(m.r2.y, 24 * S);
    assert_eq!(m.r2.z, 27 * S);
}

#[test]
fn mat3f64_scalar_division() {
    let mut m = m1_9();
    let n = m.div(3 * S);
    assert_eq!(n.r0.x, 333_333);
    assert_eq!(n.r0.y, 666_666);
    assert_eq!(n.r0.z, 1 * S);
    assert_eq!(n.r1.x, 1_333_333);
    assert_eq!(n.r1.y, 1_666_666);
    assert_eq!(n.r1.z, 2 * S);
    assert_eq!(n.r2.x, 2_333_333);
    assert_eq!(n.r2.y, 2_666_666);
    assert_eq!(n.r2.z, 3 * S);

    m = m.div(3 * S);
    assert_eq!(m.r0.x, 333_333);
    assert_eq!(m.r0.y, 666_666);
    assert_eq!(m.r0.z, 1 * S);
    assert_eq!(m.r1.x, 1_333_333);
    assert_eq!(m.r1.y, 1_666_666);
    assert_eq!(m.r1.z, 2 * S);
    assert_eq!(m.r2.x, 2_333_333);
    assert_eq!(m.r2.y, 2_666_666);
    assert_eq!(m.r2.z, 3 * S);
}

#[test]
fn mat3f64_matrix_multiplication() {
    let mut m = m1_9();
    let n = m10_18();
    let r = m.mul(n);
    m = m.mul(n);

    assert_eq!(r.r0.x, 84 * S);
    assert_eq!(r.r0.y, 90 * S);
    assert_eq!(r.r0.z, 96 * S);
    assert_eq!(r.r1.x, 201 * S);
    assert_eq!(r.r1.y, 216 * S);
    assert_eq!(r.r1.z, 231 * S);
    assert_eq!(r.r2.x, 318 * S);
    assert_eq!(r.r2.y, 342 * S);
    assert_eq!(r.r2.z, 366 * S);

    assert_eq!(m.r0.x, 84 * S);
    assert_eq!(m.r0.y, 90 * S);
    assert_eq!(m.r0.z, 96 * S);
    assert_eq!(m.r1.x, 201 * S);
    assert_eq!(m.r1.y, 216 * S);
    assert_eq!(m.r1.z, 231 * S);
    assert_eq!(m.r2.x, 318 * S);
    assert_eq!(m.r2.y, 342 * S);
    assert_eq!(m.r2.z, 366 * S);
}

#[test]
fn mat3f64_vector_multiplication() {
    let m = m1_9();
    let v = Vec3::new(2 * S, 3 * S, 4 * S);
    let w = m.mul_vec(v);

    assert_eq!(w.x, 20 * S);
    assert_eq!(w.y, 47 * S);
    assert_eq!(w.z, 74 * S);
}

#[test]
fn mat3_transpose_twice_is_identity() {
    let m = m1_9();
    assert_eq!(m.transposed().transposed(), m);
}
