//! 4x4 matrices, stored row major: the homogeneous output form of a rotor.

use crate::fixed::{scale_down, trunc_div_signed, MAX_COORD, SCALE};
use crate::vec4::Vec4;
use vstd::prelude::*;

verus! {

/// A 4x4 matrix of raw fixed-point values. Indexing follows row major
/// order, like in most mathematical texts.
#[derive(Clone, Copy, Debug, PartialEq, Eq, Structural)]
pub struct Mat4 {
    pub r0: Vec4,
    pub r1: Vec4,
    pub r2: Vec4,
    pub r3: Vec4,
}

impl Mat4 {
    /// All entries within the operating range of the arithmetic.
    pub open spec fn bounded(self) -> bool {
        self.r0.bounded() && self.r1.bounded() && self.r2.bounded() && self.r3.bounded()
    }

    /// Whether every entry of the component-wise sum fits an `i64`.
    pub open spec fn add_fits(self, o: Mat4) -> bool {
        &&& crate::fixed::in_i64(self.r0.x + o.r0.x) && crate::fixed::in_i64(self.r0.y + o.r0.y)
            && crate::fixed::in_i64(self.r0.z + o.r0.z) && crate::fixed::in_i64(self.r0.w + o.r0.w)
        &&& crate::fixed::in_i64(self.r1.x + o.r1.x) && crate::fixed::in_i64(self.r1.y + o.r1.y)
            && crate::fixed::in_i64(self.r1.z + o.r1.z) && crate::fixed::in_i64(self.r1.w + o.r1.w)
        &&& crate::fixed::in_i64(self.r2.x + o.r2.x) && crate::fixed::in_i64(self.r2.y + o.r2.y)
            && crate::fixed::in_i64(self.r2.z + o.r2.z) && crate::fixed::in_i64(self.r2.w + o.r2.w)
        &&& crate::fixed::in_i64(self.r3.x + o.r3.x) && crate::fixed::in_i64(self.r3.y + o.r3.y)
            && crate::fixed::in_i64(self.r3.z + o.r3.z) && crate::fixed::in_i64(self.r3.w + o.r3.w)
    }

    /// Whether every entry of the component-wise difference fits an `i64`.
    pub open spec fn sub_fits(self, o: Mat4) -> bool {
        &&& crate::fixed::in_i64(self.r0.x - o.r0.x) && crate::fixed::in_i64(self.r0.y - o.r0.y)
            && crate::fixed::in_i64(self.r0.z - o.r0.z) && crate::fixed::in_i64(self.r0.w - o.r0.w)
        &&& crate::fixed::in_i64(self.r1.x - o.r1.x) && crate::fixed::in_i64(self.r1.y - o.r1.y)
            && crate::fixed::in_i64(self.r1.z - o.r1.z) && crate::fixed::in_i64(self.r1.w - o.r1.w)
        &&& crate::fixed::in_i64(self.r2.x - o.r2.x) && crate::fixed::in_i64(self.r2.y - o.r2.y)
            && crate::fixed::in_i64(self.r2.z - o.r2.z) && crate::fixed::in_i64(self.r2.w - o.r2.w)
        &&& crate::fixed::in_i64(self.r3.x - o.r3.x) && crate::fixed::in_i64(self.r3.y - o.r3.y)
            && crate::fixed::in_i64(self.r3.z - o.r3.z) && crate::fixed::in_i64(self.r3.w - o.r3.w)
    }

    /// The first column, as a vector.
    pub open spec fn col0(self) -> Vec4 {
        Vec4 { x: self.r0.x, y: self.r1.x, z: self.r2.x, w: self.r3.x }
    }

    /// The second column, as a vector.
    pub open spec fn col1(self) -> Vec4 {
        Vec4 { x: self.r0.y, y: self.r1.y, z: self.r2.y, w: self.r3.y }
    }

    /// The third column, as a vector.
    pub open spec fn col2(self) -> Vec4 {
        Vec4 { x: self.r0.z, y: self.r1.z, z: self.r2.z, w: self.r3.z }
    }

    /// The fourth column, as a vector.
    pub open spec fn col3(self) -> Vec4 {
        Vec4 { x: self.r0.w, y: self.r1.w, z: self.r2.w, w: self.r3.w }
    }

    /// The matrix with rows and columns exchanged.
    pub open spec fn transposed_spec(self) -> Mat4 {
        Mat4 { r0: self.col0(), r1: self.col1(), r2: self.col2(), r3: self.col3() }
    }

    /// Creates a new matrix with user defined rows, in row major order.
    pub fn new(r0: Vec4, r1: Vec4, r2: Vec4, r3: Vec4) -> (r: Mat4)
        ensures
            r.r0 == r0,
            r.r1 == r1,
            r.r2 == r2,
            r.r3 == r3,
    {
        Mat4 { r0, r1, r2, r3 }
    }

    /// Creates a new matrix with user defined columns, in column major order.
    pub fn new_from_cols(c0: Vec4, c1: Vec4, c2: Vec4, c3: Vec4) -> (r: Mat4)
        ensures
            r.col0() == c0,
            r.col1() == c1,
            r.col2() == c2,
            r.col3() == c3,
    {
        Mat4::new(c0, c1, c2, c3).transposed()
    }

    /// Creates a new matrix with all entries equal to zero.
    pub fn zero() -> (r: Mat4)
        ensures
            r.r0 == (Vec4 { x: 0i64, y: 0i64, z: 0i64, w: 0i64 }),
            r.r1 == (Vec4 { x: 0i64, y: 0i64, z: 0i64, w: 0i64 }),
            r.r2 == (Vec4 { x: 0i64, y: 0i64, z: 0i64, w: 0i64 }),
            r.r3 == (Vec4 { x: 0i64, y: 0i64, z: 0i64, w: 0i64 }),
    {
        Mat4 { r0: Vec4::zero(), r1: Vec4::zero(), r2: Vec4::zero(), r3: Vec4::zero() }
    }

    /// Creates a new identity matrix (ones on the diagonal).
    pub fn identity() -> (r: Mat4)
        ensures
            r.r0 == (Vec4 { x: SCALE, y: 0i64, z: 0i64, w: 0i64 }),
            r.r1 == (Vec4 { x: 0i64, y: SCALE, z: 0i64, w: 0i64 }),
            r.r2 == (Vec4 { x: 0i64, y: 0i64, z: SCALE, w: 0i64 }),
            r.r3 == (Vec4 { x: 0i64, y: 0i64, z: 0i64, w: SCALE }),
    {
        Mat4 {
            r0: Vec4 { x: SCALE, y: 0, z: 0, w: 0 },
            r1: Vec4 { x: 0, y: SCALE, z: 0, w: 0 },
            r2: Vec4 { x: 0, y: 0, z: SCALE, w: 0 },
            r3: Vec4 { x: 0, y: 0, z: 0, w: SCALE },
        }
    }

    /// Returns self but transposed (rows are now columns and columns are now
    /// rows).
    pub fn transposed(&self) -> (r: Mat4)
        ensures
            r == self.transposed_spec(),
    {
        Mat4 {
            r0: Vec4 { x: self.r0.x, y: self.r1.x, z: self.r2.x, w: self.r3.x },
            r1: Vec4 { x: self.r0.y, y: self.r1.y, z: self.r2.y, w: self.r3.y },
            r2: Vec4 { x: self.r0.z, y: self.r1.z, z: self.r2.z, w: self.r3.z },
            r3: Vec4 { x: self.r0.w, y: self.r1.w, z: self.r2.w, w: self.r3.w },
        }
    }

    /// Transposes self (rows are now columns and columns are now rows).
    pub fn transpose(&mut self)
        ensures
            *final(self) == old(self).transposed_spec(),
    {
        let m = *self;
        *self = m.transposed();
    }

    /// Returns the matrix rows, in row major order.
    pub fn as_row_major(&self) -> (r: (Vec4, Vec4, Vec4, Vec4))
        ensures
            r == (self.r0, self.r1, self.r2, self.r3),
    {
        (self.r0, self.r1, self.r2, self.r3)
    }

    /// Returns the matrix columns, in column major order.
    pub fn as_col_major(&self) -> (r: (Vec4, Vec4, Vec4, Vec4))
        ensures
            r == (self.col0(), self.col1(), self.col2(), self.col3()),
    {
        let t = self.transposed();
        (t.r0, t.r1, t.r2, t.r3)
    }

    /// Component-wise sum.
    pub fn add(&self, rhs: Mat4) -> (r: Mat4)
        requires
            self.add_fits(rhs),
        ensures
            r.r0.x == self.r0.x + rhs.r0.x,
            r.r0.y == self.r0.y + rhs.r0.y,
            r.r0.z == self.r0.z + rhs.r0.z,
            r.r0.w == self.r0.w + rhs.r0.w,
            r.r1.x == self.r1.x + rhs.r1.x,
            r.r1.y == self.r1.y + rhs.r1.y,
            r.r1.z == self.r1.z + rhs.r1.z,
            r.r1.w == self.r1.w + rhs.r1.w,
            r.r2.x == self.r2.x + rhs.r2.x,
            r.r2.y == self.r2.y + rhs.r2.y,
            r.r2.z == self.r2.z + rhs.r2.z,
            r.r2.w == self.r2.w + rhs.r2.w,
            r.r3.x == self.r3.x + rhs.r3.x,
            r.r3.y == self.r3.y + rhs.r3.y,
            r.r3.z == self.r3.z + rhs.r3.z,
            r.r3.w == self.r3.w + rhs.r3.w,
    {
        Mat4 {
            r0: self.r0.add(rhs.r0),
            r1: self.r1.add(rhs.r1),
            r2: self.r2.add(rhs.r2),
            r3: self.r3.add(rhs.r3),
        }
    }

    /// Component-wise difference.
    pub fn sub(&self, rhs: Mat4) -> (r: Mat4)
        requires
            self.sub_fits(rhs),
        ensures
            r.r0.x == self.r0.x - rhs.r0.x,
            r.r0.y == self.r0.y - rhs.r0.y,
            r.r0.z == self.r0.z - rhs.r0.z,
            r.r0.w == self.r0.w - rhs.r0.w,
            r.r1.x == self.r1.x - rhs.r1.x,
            r.r1.y == self.r1.y - rhs.r1.y,
            r.r1.z == self.r1.z - rhs.r1.z,
            r.r1.w == self.r1.w - rhs.r1.w,
            r.r2.x == self.r2.x - rhs.r2.x,
            r.r2.y == self.r2.y - rhs.r2.y,
            r.r2.z == self.r2.z - rhs.r2.z,
            r.r2.w == self.r2.w - rhs.r2.w,
            r.r3.x == self.r3.x - rhs.r3.x,
            r.r3.y == self.r3.y - rhs.r3.y,
            r.r3.z == self.r3.z - rhs.r3.z,
            r.r3.w == self.r3.w - rhs.r3.w,
    {
        Mat4 {
            r0: self.r0.sub(rhs.r0),
            r1: self.r1.sub(rhs.r1),
            r2: self.r2.sub(rhs.r2),
            r3: self.r3.sub(rhs.r3),
        }
    }

    /// Multiplication by a scalar (a raw fixed-point value).
    pub fn scale(&self, scalar: i64) -> (r: Mat4)
        requires
            self.bounded(),
            -MAX_COORD <= scalar <= MAX_COORD,
        ensures
            r.r0.x == scale_down(self.r0.x * scalar),
            r.r0.y == scale_down(self.r0.y * scalar),
            r.r0.z == scale_down(self.r0.z * scalar),
            r.r0.w == scale_down(self.r0.w * scalar),
            r.r1.x == scale_down(self.r1.x * scalar),
            r.r1.y == scale_down(self.r1.y * scalar),
            r.r1.z == scale_down(self.r1.z * scalar),
            r.r1.w == scale_down(self.r1.w * scalar),
            r.r2.x == scale_down(self.r2.x * scalar),
            r.r2.y == scale_down(self.r2.y * scalar),
            r.r2.z == scale_down(self.r2.z * scalar),
            r.r2.w == scale_down(self.r2.w * scalar),
            r.r3.x == scale_down(self.r3.x * scalar),
            r.r3.y == scale_down(self.r3.y * scalar),
            r.r3.z == scale_down(self.r3.z * scalar),
            r.r3.w == scale_down(self.r3.w * scalar),
    {
        Mat4 {
            r0: self.r0.scale(scalar),
            r1: self.r1.scale(scalar),
            r2: self.r2.scale(scalar),
            r3: self.r3.scale(scalar),
        }
    }

    /// Division by a nonzero scalar (a raw fixed-point value).
    pub fn div(&self, scalar: i64) -> (r: Mat4)
        requires
            self.bounded(),
            scalar != 0,
        ensures
            r.r0.x == trunc_div_signed(self.r0.x * SCALE, scalar as int),
            r.r0.y == trunc_div_signed(self.r0.y * SCALE, scalar as int),
            r.r0.z == trunc_div_signed(self.r0.z * SCALE, scalar as int),
            r.r0.w == trunc_div_signed(self.r0.w * SCALE, scalar as int),
            r.r1.x == trunc_div_signed(self.r1.x * SCALE, scalar as int),
            r.r1.y == trunc_div_signed(self.r1.y * SCALE, scalar as int),
            r.r1.z == trunc_div_signed(self.r1.z * SCALE, scalar as int),
            r.r1.w == trunc_div_signed(self.r1.w * SCALE, scalar as int),
            r.r2.x == trunc_div_signed(self.r2.x * SCALE, scalar as int),
            r.r2.y == trunc_div_signed(self.r2.y * SCALE, scalar as int),
            r.r2.z == trunc_div_signed(self.r2.z * SCALE, scalar as int),
            r.r2.w == trunc_div_signed(self.r2.w * SCALE, scalar as int),
            r.r3.x == trunc_div_signed(self.r3.x * SCALE, scalar as int),
            r.r3.y == trunc_div_signed(self.r3.y * SCALE, scalar as int),
            r.r3.z == trunc_div_signed(self.r3.z * SCALE, scalar as int),
            r.r3.w == trunc_div_signed(self.r3.w * SCALE, scalar as int),
    {
        Mat4 {
            r0: self.r0.div(scalar),
            r1: self.r1.div(scalar),
            r2: self.r2.div(scalar),
            r3: self.r3.div(scalar),
        }
    }

    /// Matrix product (standard row by column composition, non-commutative).
    pub fn mul(&self, b: Mat4) -> (r: Mat4)
        requires
            self.bounded(),
            b.bounded(),
        ensures
            r.r0.x == scale_down(self.r0.vdot(b.col0())),
            r.r0.y == scale_down(self.r0.vdot(b.col1())),
            r.r0.z == scale_down(self.r0.vdot(b.col2())),
            r.r0.w == scale_down(self.r0.vdot(b.col3())),
            r.r1.x == scale_down(self.r1.vdot(b.col0())),
            r.r1.y == scale_down(self.r1.vdot(b.col1())),
            r.r1.z == scale_down(self.r1.vdot(b.col2())),
            r.r1.w == scale_down(self.r1.vdot(b.col3())),
            r.r2.x == scale_down(self.r2.vdot(b.col0())),
            r.r2.y == scale_down(self.r2.vdot(b.col1())),
            r.r2.z == scale_down(self.r2.vdot(b.col2())),
            r.r2.w == scale_down(self.r2.vdot(b.col3())),
            r.r3.x == scale_down(self.r3.vdot(b.col0())),
            r.r3.y == scale_down(self.r3.vdot(b.col1())),
            r.r3.z == scale_down(self.r3.vdot(b.col2())),
            r.r3.w == scale_down(self.r3.vdot(b.col3())),
    {
        let bt = b.transposed();
        Mat4 {
            r0: Vec4::new(
                self.r0.dot(bt.r0),
                self.r0.dot(bt.r1),
                self.r0.dot(bt.r2),
                self.r0.dot(bt.r3),
            ),
            r1: Vec4::new(
                self.r1.dot(bt.r0),
                self.r1.dot(bt.r1),
                self.r1.dot(bt.r2),
                self.r1.dot(bt.r3),
            ),
            r2: Vec4::new(
                self.r2.dot(bt.r0),
                self.r2.dot(bt.r1),
                self.r2.dot(bt.r2),
                self.r2.dot(bt.r3),
            ),
            r3: Vec4::new(
                self.r3.dot(bt.r0),
                self.r3.dot(bt.r1),
                self.r3.dot(bt.r2),
                self.r3.dot(bt.r3),
            ),
        }
    }

    /// Matrix-vector product (the vector is treated as a column).
    pub fn mul_vec(&self, v: Vec4) -> (r: Vec4)
        requires
            self.bounded(),
            v.bounded(),
        ensures
            r.x == scale_down(self.r0.vdot(v)),
            r.y == scale_down(self.r1.vdot(v)),
            r.z == scale_down(self.r2.vdot(v)),
            r.w == scale_down(self.r3.vdot(v)),
    {
        Vec4::new(self.r0.dot(v), self.r1.dot(v), self.r2.dot(v), self.r3.dot(v))
    }
}

/// Law: transposing twice gives back the original matrix, exactly.
pub proof fn lemma_transpose_involution(m: Mat4)
    ensures
        m.transposed_spec().transposed_spec() == m,
{
}

} // verus!
