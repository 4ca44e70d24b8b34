use gamath::fixed::SCALE as S;
use gamath::vec4::Vec4;

#[test]
fn vec4f32_vector_addition() {
    let two = Vec4::one().add(Vec4::one());
    assert_eq!(two.x, 2 * S);
    assert_eq!(two.y, 2 * S);
    assert_eq!(two.z, 2 * S);
    assert_eq!(two.w, 2 * S);
}

#[test]
fn vec4f32_vector_subtraction() {
    let zero = Vec4::one().sub(Vec4::one());
    assert_eq!(zero.x, 0);
    assert_eq!(zero.y, 0);
    assert_eq!(zero.z, 0);
    assert_eq!(zero.w, 0);
}

#[test]
fn vec4f32_scalar_multiplication() {
    let one = Vec4::one();
    let two = one.scale(2 * S);
    assert_eq!(two.x, 2 * S);
    assert_eq!(two.y, 2 * S);
    assert_eq!(two.z, 2 * S);
    assert_eq!(two.w, 2 * S);
    assert_eq!(one.x, S);
    assert_eq!(one.y, S);
    assert_eq!(one.z, S);
    assert_eq!(one.w, S);

    let one = Vec4::one();
    let two = one.scale(2 * S);
    assert_eq!(two.x, 2 * S);
    assert_eq!(two.y, 2 * S);
    assert_eq!(two.z, 2 * S);
    assert_eq!(two.w, 2 * S);
    assert_eq!(one.x, S);
    assert_eq!(one.y, S);
    assert_eq!(one.z, S);
    assert_eq!(one.w, S);
}

#[test]
fn vec4f32_scalar_division() {
    let one = Vec4::one();
    let half = one.div(2 * S);
    assert_eq!(half.x, 500_000);
    assert_eq!(half.y, 500_000);
    assert_eq!(half.z, 500_000);
    assert_eq!(half.w, 500_000);
    assert_eq!(one.x, S);
    assert_eq!(one.y, S);
    assert_eq!(one.z, S);
    assert_eq!(one.w, S);
}

#[test]
fn vec4f64_vector_creation() {
    let zero = Vec4::zero();
    let ones = Vec4::one();
    let v = Vec4::new(2 * S, 3 * S, 4 * S, 5 * S);

    assert_eq!(zero.x, 0);
    assert_eq!(zero.y, 0);
    assert_eq!(zero.z, 0);
    assert_eq!(zero.w, 0);
    assert_eq!(ones.x, S);
    assert_eq!(ones.y, S);
    assert_eq!(ones.z, S);
    assert_eq!(ones.w, S);
    assert_eq!(v.x, 2 * S);
    assert_eq!(v.y, 3 * S);
    assert_eq!(v.z, 4 * S);
    assert_eq!(v.w, 5 * S);
}

#[test]
fn vec4f64_mag_and_mag_squared() {
    let zero = Vec4::zero();
    let ones = Vec4::one();
    let v = Vec4::new(4 * S, 7 * S, 5 * S, 2 * S);

    assert_eq!(zero.magnitude(), 0);
    assert_eq!(ones.magnitude(), 2 * S);
    assert_eq!(v.magnitude(), 9_695_359);

    assert_eq!(zero.magnitude_squared(), 0);
    assert_eq!(ones.magnitude_squared(), 4 * S);
    assert_eq!(v.magnitude_squared(), (16 + 49 + 25 + 4) * S);
}

#[test]
fn vec4f64_norm_and_normed() {
    let mut ones = Vec4::one();
    let normed = ones.normalized();
    ones.normalize();
    let m = ones.magnitude();
    assert!(999_990 <= m && m < 1_000_001);
    let m = normed.magnitude();
    assert!(999_990 <= m && m < 1_000_001);

    let mut v = Vec4::new(4 * S, 7 * S, 5 * S, 2 * S);
    let normed = v.normalized();
    v.normalize();
    let m = v.magnitude();
    assert!(999_990 <= m && m < 1_000_001);
    let m = normed.magnitude();
    assert!(999_990 <= m && m < 1_000_001);
}

#[test]
fn vec4f64_dot() {
    let zero = Vec4::zero();
    let ones = Vec4::one();
    let v = Vec4::new(4 * S, 7 * S, 5 * S, 2 * S);

    let dot = zero.dot(v);
    assert_eq!(dot, 0);

    let dot = v.dot(zero);
    assert_eq!(dot, 0);

    let dot = ones.dot(v);
    assert_eq!(dot, 18 * S);

    let dot = v.dot(ones);
    assert_eq!(dot, 18 * S);

    let dot = v.dot(v);
    assert_eq!(dot, (16 + 49 + 25 + 4) * S);
}

#[test]
fn vec4f64_scalar_multiplication() {
    let zero = Vec4::zero();
    let ones = Vec4::one();
    let mut v = Vec4::new(4 * S, 7 * S, 5 * S, 2 * S);

    let w = zero.scale(3 * S);
    assert_eq!(w.x, 0);
    assert_eq!(w.y, 0);
    assert_eq!(w.z, 0);
    assert_eq!(w.w, 0);

    let w = zero.scale(3 * S);
    assert_eq!(w.x, 0);
    assert_eq!(w.y, 0);
    assert_eq!(w.z, 0);
    assert_eq!(w.w, 0);

    let w = ones.scale(3 * S);
    assert_eq!(w.x, 3 * S);
    assert_eq!(w.y, 3 * S);
    assert_eq!(w.z, 3 * S);
    assert_eq!(w.w, 3 * S);

    let w = ones.scale(3 * S);
    assert_eq!(w.x, 3 * S);
    assert_eq!(w.y, 3 * S);
    assert_eq!(w.z, 3 * S);
    assert_eq!(w.w, 3 * S);

    let w = v.scale(3 * S);
    assert_eq!(w.x, 12 * S);
    assert_eq!(w.y, 21 * S);
    assert_eq!(w.z, 15 * S);
    assert_eq!(w.w, 6 * S);

    let w = v.scale(3 * S);
    assert_eq!(w.x, 12 * S);
    assert_eq!(w.y, 21 * S);
    assert_eq!(w.z, 15 * S);
    assert_eq!(w.w, 6 * S);

    v = v.scale(3 * S);
    assert_eq!(v.x, 12 * S);
    assert_eq!(v.y, 21 * S);
    assert_eq!(v.z, 15 * S);
    assert_eq!(v.w, 6 * S);
}

#[test]
fn vec4f64_scalar_division() {
    let zero = Vec4::zero();
    let ones = Vec4::one();
    let mut v = Vec4::new(4 * S, 7 * S, 5 * S, 2 * S);

    let w = zero.div(3 * S);
    assert_eq!(w.x, 0);
    assert_eq!(w.y, 0);
    assert_eq!(w.z, 0);
    assert_eq!(w.w, 0);

    let w = ones.div(3 * S);
    assert_eq!(w.x, 333_333);
    assert_eq!(w.y, 333_333);
    assert_eq!(w.z, 333_333);
    assert_eq!(w.w, 333_333);

    let w = v.div(3 * S);
    assert_eq!(w.x, 1_333_333);
    assert_eq!(w.y, 2_333_333);
    assert_eq!(w.z, 1_666_666);
    assert_eq!(w.w, 666_666);

    v = v.div(3 * S);
    assert_eq!(v.x, 1_333_333);
    assert_eq!(v.y, 2_333_333);
    assert_eq!(v.z, 1_666_666);
    assert_eq!(v.w, 666_666);
}

#[test]
fn vec4f64_vector_addition() {
    let mut v = Vec4::new(4 * S, 7 * S, 5 * S, 2 * S);
    let w = Vec4::new(-2 * S, 10 * S, 2 * S, 3 * S);
    let r = v.add(w);
    assert_eq!(r.x, 2 * S);
    assert_eq!(r.y, 17 * S);
    assert_eq!(r.z, 7 * S);
    assert_eq!(r.w, 5 * S);
    v = v.add(w);
    assert_eq!(v.x, 2 * S);
    assert_eq!(v.y, 17 * S);
    assert_eq!(v.z, 7 * S);
    assert_eq!(v.w, 5 * S);
}

#[test]
fn vec4f64_vector_subtraction() {
    let mut v = Vec4::new(4 * S, 7 * S, 5 * S, 2 * S);
    let w = Vec4::new(-2 * S, 10 * S, 2 * S, 3 * S);
    let r = v.sub(w);
    assert_eq!(r.x, 6 * S);
    assert_eq!(r.y, -3 * S);
    assert_eq!(r.z, 3 * S);
    assert_eq!(r.w, -1 * S);
    v = v.sub(w);
    assert_eq!(v.x, 6 * S);
    assert_eq!(v.y, -3 * S);
    assert_eq!(v.z, 3 * S);
    assert_eq!(v.w, -1 * S);
}
