use gamath::fixed::SCALE as S;
use gamath::mat2::Mat2;
use gamath::vec2::Vec2;

fn m12_34() -> Mat2 {
    Mat2::new(Vec2::new(1 * S, 2 * S), Vec2::new(3 * S, 4 * S))
}

#[test]
fn mat2f64_matrix_creation() {
    let zero = Mat2::zero();
    let id = Mat2::identity();
    let m = m12_34();
    let t = Mat2::new_from_cols(Vec2::new(1 * S, 3 * S), Vec2::new(2 * S, 4 * S));

    assert_eq!(zero.r0.x, 0);
    assert_eq!(zero.r0.y, 0);
    assert_eq!(zero.r1.x, 0);
    assert_eq!(zero.r1.y, 0);

    assert_eq!(id.r0.x, S);
    assert_eq!(id.r0.y, 0);
    assert_eq!(id.r1.x, 0);
    assert_eq!(id.r1.y, S);

    assert_eq!(m.r0.x, 1 * S);
    assert_eq!(m.r0.y, 2 * S);
    assert_eq!(m.r1.x, 3 * S);
    assert_eq!(m.r1.y, 4 * S);

    assert_eq!(t.r0.x, 1 * S);
    assert_eq!(t.r0.y, 2 * S);
    assert_eq!(t.r1.x, 3 * S);
    assert_eq!(t.r1.y, 4 * S);
}

#[test]
fn mat2f64_transpose() {
    let mut m = m12_34();
    let t = m.transposed();
    m.transpose();

    assert_eq!(t.r0.x, 1 * S);
    assert_eq!(t.r0.y, 3 * S);
    assert_eq!(t.r1.x, 2 * S);
    assert_eq!(t.r1.y, 4 * S);

    assert_eq!(m.r0.x, 1 * S);
    assert_eq!(m.r0.y, 3 * S);
    assert_eq!(m.r1.x, 2 * S);
    assert_eq!(m.r1.y, 4 * S);
}

#[test]
fn mat2f64_as_row_and_col_major() {
    let m = m12_34();
    let cols = m.as_col_major();
    let rows = m.as_row_major();

    assert_eq!(cols.0.x, 1 * S);
    assert_eq!(cols.0.y, 3 * S);
    assert_eq!(cols.1.x, 2 * S);
    assert_eq!(cols.1.y, 4 * S);

    assert_eq!(rows.0.x, 1 * S);
    assert_eq!(rows.0.y, 2 * S);
    assert_eq!(rows.1.x, 3 * S);
    assert_eq!(rows.1.y, 4 * S);
}

#[test]
fn mat2f64_matrix_addition() {
    let m = m12_34();
    let mut n = Mat2::new(Vec2::new(5 * S, 6 * S), Vec2::new(7 * S, 8 * S));
    let r = n.add(m);
    n = n.add(m);
    assert_eq!(r.r0.x, 6 * S);
    assert_eq!(r.r0.y, 8 * S);
    assert_eq!(r.r1.x, 10 * S);
    assert_eq!(r.r1.y, 12 * S);
    assert_eq!(n.r0.x, 6 * S);
    assert_eq!(n.r0.y, 8 * S);
    assert_eq!(n.r1.x, 10 * S);
    assert_eq!(n.r1.y, 12 * S);
}

#[test]
fn mat2f64_matrix_subtraction() {
    let m = m12_34();
    let mut n = Mat2::new(Vec2::new(5 * S, 6 * S), Vec2::new(7 * S, 8 * S));
    let r = m.sub(n);
    n = n.sub(m);
    assert_eq!(r.r0.x, -4 * S);
    assert_eq!(r.r0.y, -4 * S);
    assert_eq!(r.r1.x, -4 * S);
    assert_eq!(r.r1.y, -4 * S);
    assert_eq!(n.r0.x, 4 * S);
    assert_eq!(n.r0.y, 4 * S);
    assert_eq!(n.r1.x, 4 * S);
    assert_eq!(n.r1.y, 4 * S);
}

#[test]
fn mat2f64_scalar_multiplication() {
    let mut m = m12_34();
    let n = m.scale(3 * S);
    assert_eq!(n.r0.x, 3 * S);
    assert_eq!(n.r0.y, 6 * S);
    assert_eq!(n.r1.x, 9 * S);
    assert_eq!(n.r1.y, 12 * S);

    let n = m.scale(3 * S);
    assert_eq!(n.r0.x, 3 * S);
    assert_eq!(n.r0.y, 6 * S);
    assert_eq!(n.r1.x, 9 * S);
    assert_eq!(n.r1.y, 12 * S);

    m = m.scale(3 * S);
    assert_eq!(m.r0.x, 3 * S);
    assert_eq!(m.r0.y, 6 * S);
    assert_eq!(m.r1.x, 9 * S);
    assert_eq!(m.r1.y, 12 * S);
}

#[test]
fn mat2f64_scalar_division() {
    let mut m = m12_34();
    let n = m.div(3 * S);
    assert_eq!(n.r0.x, 333_333);
    assert_eq!(n.r0.y, 666_666);
    assert_eq!(n.r1.x, 1 * S);
    assert_eq!(n.r1.y, 1_333_333);

    m = m.div(3 * S);
    assert_eq!(m.r0.x, 333_333);
    assert_eq!(m.r0.y, 666_666);
    assert_eq!(m.r1.x, 1 * S);
    assert_eq!(m.r1.y, 1_333_333);
}

#[test]
fn mat2f64_matrix_multiplication() {
    let mut m = m12_34();
    let n = Mat2::new(Vec2::new(5 * S, 6 * S), Vec2::new(7 * S, 8 * S));
    let r = m.mul(n);
    m = m.mul(n);

    assert_eq!(r.r0.x, 19 * S);
    assert_eq!(r.r0.y, 22 * S);
    assert_eq!(r.r1.x, 43 * S);
    assert_eq!(r.r1.y, 50 * S);

    assert_eq!(m.r0.x, 19 * S);
    assert_eq!(m.r0.y, 22 * S);
    assert_eq!(m.r1.x, 43 * S);
    assert_eq!(m.r1.y, 50 * S);
}

#[test]
fn mat2f64_vector_multiplication() {
    let m = m12_34();
    let v = Vec2::new(2 * S, 3 * S);
    let w = m.mul_vec(v);

    assert_eq!(w.x, 8 * S);
    assert_eq!(w.y, 18 * S);
}

#[test]
fn mat2_transpose_twice_is_identity() {
    let m = m12_34();
    assert_eq!(m.transposed().transposed(), m);
}
