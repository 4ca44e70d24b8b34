//! Four-component vectors: rows of the homogeneous matrix.

use crate::fixed::{
    div_component, in_i64, isqrt, lemma_mul_bound, lemma_trunc_div_bound, rescale, scale_down,
    sqrt_floor, trunc_div, trunc_div_signed, MAX_COORD, SCALE,
};
use crate::fixed::div_scaled_by;
use vstd::prelude::*;

verus! {

/// A four dimensional vector, each coordinate a raw fixed-point value.
#[derive(Clone, Copy, Debug, PartialEq, Eq, Structural)]
pub struct Vec4 {
    pub x: i64,
    pub y: i64,
    pub z: i64,
    pub w: i64,
}

/// The exact integer dot product of two raw coordinate quadruples, before
/// any rescaling.
pub open spec fn dot4_raw(
    ax: int,
    ay: int,
    az: int,
    aw: int,
    bx: int,
    by: int,
    bz: int,
    bw: int,
) -> int {
    ax * bx + ay * by + az * bz + aw * bw
}

impl Vec4 {
    /// All coordinates within the operating range of the arithmetic.
    pub open spec fn bounded(self) -> bool {
        &&& -MAX_COORD <= self.x <= MAX_COORD
        &&& -MAX_COORD <= self.y <= MAX_COORD
        &&& -MAX_COORD <= self.z <= MAX_COORD
        &&& -MAX_COORD <= self.w <= MAX_COORD
    }

    /// The exact integer dot product of the raw coordinates of two vectors,
    /// before any rescaling.
    pub open spec fn vdot(self, o: Vec4) -> int {
        dot4_raw(
            self.x as int,
            self.y as int,
            self.z as int,
            self.w as int,
            o.x as int,
            o.y as int,
            o.z as int,
            o.w as int,
        )
    }

    /// The exact integer dot square of the raw coordinates.
    pub open spec fn norm2_raw(self) -> int {
        dot4_raw(
            self.x as int,
            self.y as int,
            self.z as int,
            self.w as int,
            self.x as int,
            self.y as int,
            self.z as int,
            self.w as int,
        )
    }

    /// The raw magnitude: floor square root of the raw dot square.
    pub open spec fn mag_raw(self) -> int {
        sqrt_floor(self.norm2_raw())
    }

    pub fn new(x: i64, y: i64, z: i64, w: i64) -> (r: Vec4)
        ensures
            r.x == x,
            r.y == y,
            r.z == z,
            r.w == w,
    {
        Vec4 { x, y, z, w }
    }

    pub fn zero() -> (r: Vec4)
        ensures
            r.x == 0,
            r.y == 0,
            r.z == 0,
            r.w == 0,
    {
        Vec4 { x: 0, y: 0, z: 0, w: 0 }
    }

    pub fn one() -> (r: Vec4)
        ensures
            r.x == SCALE,
            r.y == SCALE,
            r.z == SCALE,
            r.w == SCALE,
    {
        Vec4 { x: SCALE, y: SCALE, z: SCALE, w: SCALE }
    }

    /// The magnitude (length) of the vector, in raw units.
    pub fn magnitude(&self) -> (r: i64)
        requires
            self.bounded(),
        ensures
            r == self.mag_raw(),
            r >= 0,
            r * r <= self.norm2_raw() < (r + 1) * (r + 1),
    {
        proof {
            lemma_mul_bound(self.x as int, self.x as int, MAX_COORD as int, MAX_COORD as int);
            lemma_mul_bound(self.y as int, self.y as int, MAX_COORD as int, MAX_COORD as int);
            lemma_mul_bound(self.z as int, self.z as int, MAX_COORD as int, MAX_COORD as int);
            lemma_mul_bound(self.w as int, self.w as int, MAX_COORD as int, MAX_COORD as int);
            assert(0 <= (self.x as int) * (self.x as int)) by (nonlinear_arith);
            assert(0 <= (self.y as int) * (self.y as int)) by (nonlinear_arith);
            assert(0 <= (self.z as int) * (self.z as int)) by (nonlinear_arith);
            assert(0 <= (self.w as int) * (self.w as int)) by (nonlinear_arith);
        }
        let n: i128 = (self.x as i128) * (self.x as i128) + (self.y as i128) * (self.y as i128)
            + (self.z as i128) * (self.z as i128) + (self.w as i128) * (self.w as i128);
        let r = isqrt(n as u128);
        proof {
            assert(r <= 3 * MAX_COORD) by (nonlinear_arith)
                requires
                    r >= 0,
                    r * r <= 4 * (MAX_COORD as int) * (MAX_COORD as int),
                    MAX_COORD == 1_099_511_627_776i64,
            ;
        }
        r as i64
    }

    /// The magnitude squared, in raw units (faster to compute than the
    /// magnitude itself).
    pub fn magnitude_squared(&self) -> (r: i64)
        requires
            self.bounded(),
        ensures
            r == scale_down(self.norm2_raw()),
    {
        proof {
            lemma_mul_bound(self.x as int, self.x as int, MAX_COORD as int, MAX_COORD as int);
            lemma_mul_bound(self.y as int, self.y as int, MAX_COORD as int, MAX_COORD as int);
            lemma_mul_bound(self.z as int, self.z as int, MAX_COORD as int, MAX_COORD as int);
            lemma_mul_bound(self.w as int, self.w as int, MAX_COORD as int, MAX_COORD as int);
            lemma_trunc_div_bound(
                self.norm2_raw(),
                SCALE as int,
                4 * (MAX_COORD as int) * (MAX_COORD as int),
            );
        }
        let n: i128 = (self.x as i128) * (self.x as i128) + (self.y as i128) * (self.y as i128)
            + (self.z as i128) * (self.z as i128) + (self.w as i128) * (self.w as i128);
        rescale(n)
    }

    /// Rescales the vector to magnitude one (one whole unit).
    /// The zero vector has no direction and is excluded.
    pub fn normalize(&mut self)
        requires
            old(self).bounded(),
            old(self).norm2_raw() != 0,
        ensures
            final(self).x == trunc_div(old(self).x * SCALE, old(self).mag_raw()),
            final(self).y == trunc_div(old(self).y * SCALE, old(self).mag_raw()),
            final(self).z == trunc_div(old(self).z * SCALE, old(self).mag_raw()),
            final(self).w == trunc_div(old(self).w * SCALE, old(self).mag_raw()),
            final(self).bounded(),
    {
        let v = *self;
        *self = v.normalized();
    }

    /// Returns the vector rescaled to magnitude one (one whole unit).
    /// The zero vector has no direction and is excluded.
    pub fn normalized(&self) -> (r: Vec4)
        requires
            self.bounded(),
            self.norm2_raw() != 0,
        ensures
            r.x == trunc_div(self.x * SCALE, self.mag_raw()),
            r.y == trunc_div(self.y * SCALE, self.mag_raw()),
            r.z == trunc_div(self.z * SCALE, self.mag_raw()),
            r.w == trunc_div(self.w * SCALE, self.mag_raw()),
            r.bounded(),
            -SCALE <= r.x <= SCALE,
            -SCALE <= r.y <= SCALE,
            -SCALE <= r.z <= SCALE,
            -SCALE <= r.w <= SCALE,
    {
        let m = self.magnitude();
        proof {
            assert(0 <= (self.x as int) * (self.x as int)) by (nonlinear_arith);
            assert(0 <= (self.y as int) * (self.y as int)) by (nonlinear_arith);
            assert(0 <= (self.z as int) * (self.z as int)) by (nonlinear_arith);
            assert(0 <= (self.w as int) * (self.w as int)) by (nonlinear_arith);
            assert(m >= 1) by (nonlinear_arith)
                requires
                    m >= 0,
                    m * m <= self.norm2_raw(),
                    self.norm2_raw() < (m + 1) * (m + 1),
                    self.norm2_raw() != 0,
                    self.norm2_raw() >= 0,
            ;
        }
        Vec4 {
            x: div_component(self.x, m),
            y: div_component(self.y, m),
            z: div_component(self.z, m),
            w: div_component(self.w, m),
        }
    }

    /// The dot product, in raw units.
    pub fn dot(&self, other: Vec4) -> (r: i64)
        requires
            self.bounded(),
            other.bounded(),
        ensures
            r == scale_down(
                dot4_raw(
                    self.x as int,
                    self.y as int,
                    self.z as int,
                    self.w as int,
                    other.x as int,
                    other.y as int,
                    other.z as int,
                    other.w as int,
                ),
            ),
    {
        proof {
            lemma_mul_bound(self.x as int, other.x as int, MAX_COORD as int, MAX_COORD as int);
            lemma_mul_bound(self.y as int, other.y as int, MAX_COORD as int, MAX_COORD as int);
            lemma_mul_bound(self.z as int, other.z as int, MAX_COORD as int, MAX_COORD as int);
            lemma_mul_bound(self.w as int, other.w as int, MAX_COORD as int, MAX_COORD as int);
            lemma_trunc_div_bound(
                dot4_raw(
                    self.x as int,
                    self.y as int,
                    self.z as int,
                    self.w as int,
                    other.x as int,
                    other.y as int,
                    other.z as int,
                    other.w as int,
                ),
                SCALE as int,
                4 * (MAX_COORD as int) * (MAX_COORD as int),
            );
        }
        let n: i128 = (self.x as i128) * (other.x as i128) + (self.y as i128) * (other.y as i128)
            + (self.z as i128) * (other.z as i128) + (self.w as i128) * (other.w as i128);
        rescale(n)
    }

    /// Component-wise sum.
    pub fn add(&self, rhs: Vec4) -> (r: Vec4)
        requires
            in_i64(self.x + rhs.x),
            in_i64(self.y + rhs.y),
            in_i64(self.z + rhs.z),
            in_i64(self.w + rhs.w),
        ensures
            r.x == self.x + rhs.x,
            r.y == self.y + rhs.y,
            r.z == self.z + rhs.z,
            r.w == self.w + rhs.w,
    {
        Vec4 { x: self.x + rhs.x, y: self.y + rhs.y, z: self.z + rhs.z, w: self.w + rhs.w }
    }

    /// Component-wise difference.
    pub fn sub(&self, rhs: Vec4) -> (r: Vec4)
        requires
            in_i64(self.x - rhs.x),
            in_i64(self.y - rhs.y),
            in_i64(self.z - rhs.z),
            in_i64(self.w - rhs.w),
        ensures
            r.x == self.x - rhs.x,
            r.y == self.y - rhs.y,
            r.z == self.z - rhs.z,
            r.w == self.w - rhs.w,
    {
        Vec4 { x: self.x - rhs.x, y: self.y - rhs.y, z: self.z - rhs.z, w: self.w - rhs.w }
    }

    /// Multiplication by a scalar (a raw fixed-point value).
    pub fn scale(&self, scalar: i64) -> (r: Vec4)
        requires
            self.bounded(),
            -MAX_COORD <= scalar <= MAX_COORD,
        ensures
            r.x == scale_down(self.x * scalar),
            r.y == scale_down(self.y * scalar),
            r.z == scale_down(self.z * scalar),
            r.w == scale_down(self.w * scalar),
    {
        proof {
            lemma_mul_bound(self.x as int, scalar as int, MAX_COORD as int, MAX_COORD as int);
            lemma_mul_bound(self.y as int, scalar as int, MAX_COORD as int, MAX_COORD as int);
            lemma_mul_bound(self.z as int, scalar as int, MAX_COORD as int, MAX_COORD as int);
            lemma_mul_bound(self.w as int, scalar as int, MAX_COORD as int, MAX_COORD as int);
            lemma_trunc_div_bound(
                self.x * scalar,
                SCALE as int,
                (MAX_COORD as int) * (MAX_COORD as int),
            );
            lemma_trunc_div_bound(
                self.y * scalar,
                SCALE as int,
                (MAX_COORD as int) * (MAX_COORD as int),
            );
            lemma_trunc_div_bound(
                self.z * scalar,
                SCALE as int,
                (MAX_COORD as int) * (MAX_COORD as int),
            );
            lemma_trunc_div_bound(
                self.w * scalar,
                SCALE as int,
                (MAX_COORD as int) * (MAX_COORD as int),
            );
        }
        Vec4 {
            x: rescale((self.x as i128) * (scalar as i128)),
            y: rescale((self.y as i128) * (scalar as i128)),
            z: rescale((self.z as i128) * (scalar as i128)),
            w: rescale((self.w as i128) * (scalar as i128)),
        }
    }

    /// Division by a nonzero scalar (a raw fixed-point value).
    pub fn div(&self, scalar: i64) -> (r: Vec4)
        requires
            self.bounded(),
            scalar != 0,
        ensures
            r.x == trunc_div_signed(self.x * SCALE, scalar as int),
            r.y == trunc_div_signed(self.y * SCALE, scalar as int),
            r.z == trunc_div_signed(self.z * SCALE, scalar as int),
            r.w == trunc_div_signed(self.w * SCALE, scalar as int),
    {
        Vec4 {
            x: div_scaled_by(self.x, scalar),
            y: div_scaled_by(self.y, scalar),
            z: div_scaled_by(self.z, scalar),
            w: div_scaled_by(self.w, scalar),
        }
    }
}

} // verus!
