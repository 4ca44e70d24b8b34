//! 3x3 matrices, stored row major.

use crate::fixed::{in_i64, scale_down, trunc_div_signed, MAX_COORD, SCALE};
use crate::vec3::Vec3;
use vstd::prelude::*;

verus! {

/// A 3x3 matrix of raw fixed-point values. Indexing follows row major
/// order, like in most mathematical texts.
#[derive(Clone, Copy, Debug, PartialEq, Eq, Structural)]
pub struct Mat3 {
    pub r0: Vec3,
    pub r1: Vec3,
    pub r2: Vec3,
}

impl Mat3 {
    /// All entries within the operating range of the arithmetic.
    pub open spec fn bounded(self) -> bool {
        self.r0.bounded() && self.r1.bounded() && self.r2.bounded()
    }

    /// Whether every entry of the component-wise sum fits an `i64`.
    pub open spec fn add_fits(self, o: Mat3) -> bool {
        &&& in_i64(self.r0.x + o.r0.x) && in_i64(self.r0.y + o.r0.y) && in_i64(
            self.r0.z + o.r0.z,
        )
        &&& in_i64(self.r1.x + o.r1.x) && in_i64(self.r1.y + o.r1.y) && in_i64(
            self.r1.z + o.r1.z,
        )
        &&& in_i64(self.r2.x + o.r2.x) && in_i64(self.r2.y + o.r2.y) && in_i64(
            self.r2.z + o.r2.z,
        )
    }

    /// Whether every entry of the component-wise difference fits an `i64`.
    pub open spec fn sub_fits(self, o: Mat3) -> bool {
        &&& in_i64(self.r0.x - o.r0.x) && in_i64(self.r0.y - o.r0.y) && in_i64(
            self.r0.z - o.r0.z,
        )
        &&& in_i64(self.r1.x - o.r1.x) && in_i64(self.r1.y - o.r1.y) && in_i64(
            self.r1.z - o.r1.z,
        )
        &&& in_i64(self.r2.x - o.r2.x) && in_i64(self.r2.y - o.r2.y) && in_i64(
            self.r2.z - o.r2.z,
        )
    }

    /// The first column, as a vector.
    pub open spec fn col0(self) -> Vec3 {
        Vec3 { x: self.r0.x, y: self.r1.x, z: self.r2.x }
    }

    /// The second column, as a vector.
    pub open spec fn col1(self) -> Vec3 {
        Vec3 { x: self.r0.y, y: self.r1.y, z: self.r2.y }
    }

    /// The third column, as a vector.
    pub open spec fn col2(self) -> Vec3 {
        Vec3 { x: self.r0.z, y: self.r1.z, z: self.r2.z }
    }

    /// The matrix with rows and columns exchanged.
    pub open spec fn transposed_spec(self) -> Mat3 {
        Mat3 { r0: self.col0(), r1: self.col1(), r2: self.col2() }
    }

    /// Creates a new matrix with user defined rows, in row major order.
    pub fn new(r0: Vec3, r1: Vec3, r2: Vec3) -> (r: Mat3)
        ensures
            r.r0 == r0,
            r.r1 == r1,
            r.r2 == r2,
    {
        Mat3 { r0, r1, r2 }
    }

    /// Creates a new matrix with user defined columns, in column major order.
    pub fn new_from_cols(c0: Vec3, c1: Vec3, c2: Vec3) -> (r: Mat3)
        ensures
            r.col0() == c0,
            r.col1() == c1,
            r.col2() == c2,
    {
        Mat3::new(c0, c1, c2).transposed()
    }

    /// Creates a new matrix with all entries equal to zero.
    pub fn zero() -> (r: Mat3)
        ensures
            r.r0 == (Vec3 { x: 0i64, y: 0i64, z: 0i64 }),
            r.r1 == (Vec3 { x: 0i64, y: 0i64, z: 0i64 }),
            r.r2 == (Vec3 { x: 0i64, y: 0i64, z: 0i64 }),
    {
        Mat3 { r0: Vec3::zero(), r1: Vec3::zero(), r2: Vec3::zero() }
    }

    /// Creates a new identity matrix (ones on the diagonal).
    pub fn identity() -> (r: Mat3)
        ensures
            r.r0 == (Vec3 { x: SCALE, y: 0i64, z: 0i64 }),
            r.r1 == (Vec3 { x: 0i64, y: SCALE, z: 0i64 }),
            r.r2 == (Vec3 { x: 0i64, y: 0i64, z: SCALE }),
    {
        Mat3 {
            r0: Vec3 { x: SCALE, y: 0, z: 0 },
            r1: Vec3 { x: 0, y: SCALE, z: 0 },
            r2: Vec3 { x: 0, y: 0, z: SCALE },
        }
    }

    /// Returns self but transposed (rows are now columns and columns are now
    /// rows).
    pub fn transposed(&self) -> (r: Mat3)
        ensures
            r == self.transposed_spec(),
    {
        Mat3 {
            r0: Vec3 { x: self.r0.x, y: self.r1.x, z: self.r2.x },
            r1: Vec3 { x: self.r0.y, y: self.r1.y, z: self.r2.y },
            r2: Vec3 { x: self.r0.z, y: self.r1.z, z: self.r2.z },
        }
    }

    /// Transposes self (rows are now columns and columns are now rows).
    pub fn transpose(&mut self)
        ensures
            *final(self) == old(self).transposed_spec(),
    {
        let m = *self;
        *self = m.transposed();
    }

    /// Returns the matrix rows, in row major order.
    pub fn as_row_major(&self) -> (r: (Vec3, Vec3, Vec3))
        ensures
            r == (self.r0, self.r1, self.r2),
    {
        (self.r0, self.r1, self.r2)
    }

    /// Returns the matrix columns, in column major order.
    pub fn as_col_major(&self) -> (r: (Vec3, Vec3, Vec3))
        ensures
            r == (self.col0(), self.col1(), self.col2()),
    {
        let t = self.transposed();
        (t.r0, t.r1, t.r2)
    }

    /// Component-wise sum.
    pub fn add(&self, rhs: Mat3) -> (r: Mat3)
        requires
            self.add_fits(rhs),
        ensures
            r.r0.x == self.r0.x + rhs.r0.x,
            r.r0.y == self.r0.y + rhs.r0.y,
            r.r0.z == self.r0.z + rhs.r0.z,
            r.r1.x == self.r1.x + rhs.r1.x,
            r.r1.y == self.r1.y + rhs.r1.y,
            r.r1.z == self.r1.z + rhs.r1.z,
            r.r2.x == self.r2.x + rhs.r2.x,
            r.r2.y == self.r2.y + rhs.r2.y,
            r.r2.z == self.r2.z + rhs.r2.z,
    {
        Mat3 { r0: self.r0.add(rhs.r0), r1: self.r1.add(rhs.r1), r2: self.r2.add(rhs.r2) }
    }

    /// Component-wise difference.
    pub fn sub(&self, rhs: Mat3) -> (r: Mat3)
        requires
            self.sub_fits(rhs),
        ensures
            r.r0.x == self.r0.x - rhs.r0.x,
            r.r0.y == self.r0.y - rhs.r0.y,
            r.r0.z == self.r0.z - rhs.r0.z,
            r.r1.x == self.r1.x - rhs.r1.x,
            r.r1.y == self.r1.y - rhs.r1.y,
            r.r1.z == self.r1.z - rhs.r1.z,
            r.r2.x == self.r2.x - rhs.r2.x,
            r.r2.y == self.r2.y - rhs.r2.y,
            r.r2.z == self.r2.z - rhs.r2.z,
    {
        Mat3 { r0: self.r0.sub(rhs.r0), r1: self.r1.sub(rhs.r1), r2: self.r2.sub(rhs.r2) }
    }

    /// Multiplication by a scalar (a raw fixed-point value).
    pub fn scale(&self, scalar: i64) -> (r: Mat3)
        requires
            self.bounded(),
            -MAX_COORD <= scalar <= MAX_COORD,
        ensures
            r.r0.x == scale_down(self.r0.x * scalar),
            r.r0.y == scale_down(self.r0.y * scalar),
            r.r0.z == scale_down(self.r0.z * scalar),
            r.r1.x == scale_down(self.r1.x * scalar),
            r.r1.y == scale_down(self.r1.y * scalar),
            r.r1.z == scale_down(self.r1.z * scalar),
            r.r2.x == scale_down(self.r2.x * scalar),
            r.r2.y == scale_down(self.r2.y * scalar),
            r.r2.z == scale_down(self.r2.z * scalar),
    {
        Mat3 { r0: self.r0.scale(scalar), r1: self.r1.scale(scalar), r2: self.r2.scale(scalar) }
    }

    /// Division by a nonzero scalar (a raw fixed-point value).
    pub fn div(&self, scalar: i64) -> (r: Mat3)
        requires
            self.bounded(),
            scalar != 0,
        ensures
            r.r0.x == trunc_div_signed(self.r0.x * SCALE, scalar as int),
            r.r0.y == trunc_div_signed(self.r0.y * SCALE, scalar as int),
            r.r0.z == trunc_div_signed(self.r0.z * SCALE, scalar as int),
            r.r1.x == trunc_div_signed(self.r1.x * SCALE, scalar as int),
            r.r1.y == trunc_div_signed(self.r1.y * SCALE, scalar as int),
            r.r1.z == trunc_div_signed(self.r1.z * SCALE, scalar as int),
            r.r2.x == trunc_div_signed(self.r2.x * SCALE, scalar as int),
            r.r2.y == trunc_div_signed(self.r2.y * SCALE, scalar as int),
            r.r2.z == trunc_div_signed(self.r2.z * SCALE, scalar as int),
    {
        Mat3 { r0: self.r0.div(scalar), r1: self.r1.div(scalar), r2: self.r2.div(scalar) }
    }

    /// Matrix product (standard row by column composition, non-commutative).
    pub fn mul(&self, b: Mat3) -> (r: Mat3)
        requires
            self.bounded(),
            b.bounded(),
        ensures
            r.r0.x == scale_down(self.r0.vdot(b.col0())),
            r.r0.y == scale_down(self.r0.vdot(b.col1())),
            r.r0.z == scale_down(self.r0.vdot(b.col2())),
            r.r1.x == scale_down(self.r1.vdot(b.col0())),
            r.r1.y == scale_down(self.r1.vdot(b.col1())),
            r.r1.z == scale_down(self.r1.vdot(b.col2())),
            r.r2.x == scale_down(self.r2.vdot(b.col0())),
            r.r2.y == scale_down(self.r2.vdot(b.col1())),
            r.r2.z == scale_down(self.r2.vdot(b.col2())),
    {
        let bt = b.transposed();
        Mat3 {
            r0: Vec3::new(self.r0.dot(bt.r0), self.r0.dot(bt.r1), self.r0.dot(bt.r2)),
            r1: Vec3::new(self.r1.dot(bt.r0), self.r1.dot(bt.r1), self.r1.dot(bt.r2)),
            r2: Vec3::new(self.r2.dot(bt.r0), self.r2.dot(bt.r1), self.r2.dot(bt.r2)),
        }
    }

    /// Matrix-vector product (the vector is treated as a column).
    pub fn mul_vec(&self, v: Vec3) -> (r: Vec3)
        requires
            self.bounded(),
            v.bounded(),
        ensures
            r.x == scale_down(self.r0.vdot(v)),
            r.y == scale_down(self.r1.vdot(v)),
            r.z == scale_down(self.r2.vdot(v)),
    {
        Vec3::new(self.r0.dot(v), self.r1.dot(v), self.r2.dot(v))
    }
}

/// Law: transposing twice gives back the original matrix, exactly.
pub proof fn lemma_transpose_involution(m: Mat3)
    ensures
        m.transposed_spec().transposed_spec() == m,
{
}

} // verus!
