//! 2x2 matrices, stored row major.

use crate::fixed::{in_i64, scale_down, trunc_div_signed, MAX_COORD, SCALE};
use crate::vec2::Vec2;
use vstd::prelude::*;

verus! {

/// A 2x2 matrix of raw fixed-point values. Indexing follows row major
/// order, like in most mathematical texts.
#[derive(Clone, Copy, Debug, PartialEq, Eq, Structural)]
pub struct Mat2 {
    pub r0: Vec2,
    pub r1: Vec2,
}

impl Mat2 {
    /// All entries within the operating range of the arithmetic.
    pub open spec fn bounded(self) -> bool {
        self.r0.bounded() && self.r1.bounded()
    }

    /// Whether every entry of the component-wise sum fits an `i64`.
    pub open spec fn add_fits(self, o: Mat2) -> bool {
        &&& in_i64(self.r0.x + o.r0.x) && in_i64(self.r0.y + o.r0.y)
        &&& in_i64(self.r1.x + o.r1.x) && in_i64(self.r1.y + o.r1.y)
    }

    /// Whether every entry of the component-wise difference fits an `i64`.
    pub open spec fn sub_fits(self, o: Mat2) -> bool {
        &&& in_i64(self.r0.x - o.r0.x) && in_i64(self.r0.y - o.r0.y)
        &&& in_i64(self.r1.x - o.r1.x) && in_i64(self.r1.y - o.r1.y)
    }

    /// The first column, as a vector.
    pub open spec fn col0(self) -> Vec2 {
        Vec2 { x: self.r0.x, y: self.r1.x }
    }

    /// The second column, as a vector.
    pub open spec fn col1(self) -> Vec2 {
        Vec2 { x: self.r0.y, y: self.r1.y }
    }

    /// The matrix with rows and columns exchanged.
    pub open spec fn transposed_spec(self) -> Mat2 {
        Mat2 { r0: self.col0(), r1: self.col1() }
    }

    /// Creates a new matrix with user defined rows, in row major order.
    pub fn new(r0: Vec2, r1: Vec2) -> (r: Mat2)
        ensures
            r.r0 == r0,
            r.r1 == r1,
    {
        Mat2 { r0, r1 }
    }

    /// Creates a new matrix with user defined columns, in column major order.
    pub fn new_from_cols(c0: Vec2, c1: Vec2) -> (r: Mat2)
        ensures
            r.col0() == c0,
            r.col1() == c1,
    {
        Mat2::new(c0, c1).transposed()
    }

    /// Creates a new matrix with all entries equal to zero.
    pub fn zero() -> (r: Mat2)
        ensures
            r.r0 == (Vec2 { x: 0i64, y: 0i64 }),
            r.r1 == (Vec2 { x: 0i64, y: 0i64 }),
    {
        Mat2 { r0: Vec2::zero(), r1: Vec2::zero() }
    }

    /// Creates a new identity matrix (ones on the diagonal).
    pub fn identity() -> (r: Mat2)
        ensures
            r.r0 == (Vec2 { x: SCALE, y: 0i64 }),
            r.r1 == (Vec2 { x: 0i64, y: SCALE }),
    {
        Mat2 { r0: Vec2 { x: SCALE, y: 0 }, r1: Vec2 { x: 0, y: SCALE } }
    }

    /// Returns self but transposed (rows are now columns and columns are now
    /// rows).
    pub fn transposed(&self) -> (r: Mat2)
        ensures
            r == self.transposed_spec(),
    {
        Mat2 {
            r0: Vec2 { x: self.r0.x, y: self.r1.x },
            r1: Vec2 { x: self.r0.y, y: self.r1.y },
        }
    }

    /// Transposes self (rows are now columns and columns are now rows).
    pub fn transpose(&mut self)
        ensures
            *final(self) == old(self).transposed_spec(),
    {
        let m = *self;
        *self = m.transposed();
    }

    /// Returns the matrix rows, in row major order.
    pub fn as_row_major(&self) -> (r: (Vec2, Vec2))
        ensures
            r == (self.r0, self.r1),
    {
        (self.r0, self.r1)
    }

    /// Returns the matrix columns, in column major order.
    pub fn as_col_major(&self) -> (r: (Vec2, Vec2))
        ensures
            r == (self.col0(), self.col1()),
    {
        let t = self.transposed();
        (t.r0, t.r1)
    }

    /// Component-wise sum.
    pub fn add(&self, rhs: Mat2) -> (r: Mat2)
        requires
            self.add_fits(rhs),
        ensures
            r.r0.x == self.r0.x + rhs.r0.x,
            r.r0.y == self.r0.y + rhs.r0.y,
            r.r1.x == self.r1.x + rhs.r1.x,
            r.r1.y == self.r1.y + rhs.r1.y,
    {
        Mat2 { r0: self.r0.add(rhs.r0), r1: self.r1.add(rhs.r1) }
    }

    /// Component-wise difference.
    pub fn sub(&self, rhs: Mat2) -> (r: Mat2)
        requires
            self.sub_fits(rhs),
        ensures
            r.r0.x == self.r0.x - rhs.r0.x,
            r.r0.y == self.r0.y - rhs.r0.y,
            r.r1.x == self.r1.x - rhs.r1.x,
            r.r1.y == self.r1.y - rhs.r1.y,
    {
        Mat2 { r0: self.r0.sub(rhs.r0), r1: self.r1.sub(rhs.r1) }
    }

    /// Multiplication by a scalar (a raw fixed-point value).
    pub fn scale(&self, scalar: i64) -> (r: Mat2)
        requires
            self.bounded(),
            -MAX_COORD <= scalar <= MAX_COORD,
        ensures
            r.r0.x == scale_down(self.r0.x * scalar),
            r.r0.y == scale_down(self.r0.y * scalar),
            r.r1.x == scale_down(self.r1.x * scalar),
            r.r1.y == scale_down(self.r1.y * scalar),
    {
        Mat2 { r0: self.r0.scale(scalar), r1: self.r1.scale(scalar) }
    }

    /// Division by a nonzero scalar (a raw fixed-point value).
    pub fn div(&self, scalar: i64) -> (r: Mat2)
        requires
            self.bounded(),
            scalar != 0,
        ensures
            r.r0.x == trunc_div_signed(self.r0.x * SCALE, scalar as int),
            r.r0.y == trunc_div_signed(self.r0.y * SCALE, scalar as int),
            r.r1.x == trunc_div_signed(self.r1.x * SCALE, scalar as int),
            r.r1.y == trunc_div_signed(self.r1.y * SCALE, scalar as int),
    {
        Mat2 { r0: self.r0.div(scalar), r1: self.r1.div(scalar) }
    }

    /// Matrix product (standard row by column composition, non-commutative).
    pub fn mul(&self, b: Mat2) -> (r: Mat2)
        requires
            self.bounded(),
            b.bounded(),
        ensures
            r.r0.x == scale_down(self.r0.vdot(b.col0())),
            r.r0.y == scale_down(self.r0.vdot(b.col1())),
            r.r1.x == scale_down(self.r1.vdot(b.col0())),
            r.r1.y == scale_down(self.r1.vdot(b.col1())),
    {
        let bt = b.transposed();
        Mat2 {
            r0: Vec2::new(self.r0.dot(bt.r0), self.r0.dot(bt.r1)),
            r1: Vec2::new(self.r1.dot(bt.r0), self.r1.dot(bt.r1)),
        }
    }

    /// Matrix-vector product (the vector is treated as a column).
    pub fn mul_vec(&self, v: Vec2) -> (r: Vec2)
        requires
            self.bounded(),
            v.bounded(),
        ensures
            r.x == scale_down(self.r0.vdot(v)),
            r.y == scale_down(self.r1.vdot(v)),
    {
        Vec2::new(self.r0.dot(v), self.r1.dot(v))
    }
}

/// Law: transposing twice gives back the original matrix, exactly.
pub proof fn lemma_transpose_involution(m: Mat2)
    ensures
        m.transposed_spec().transposed_spec() == m,
{
}

} // verus!
