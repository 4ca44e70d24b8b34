//! Two-component vectors.

use crate::fixed::{
    div_component, div_scaled_by, in_i64, isqrt, lemma_mul_bound, lemma_trunc_div_bound,
    rescale, scale_down, sqrt_floor, trunc_div, trunc_div_signed, MAX_COORD, SCALE,
};
use vstd::prelude::*;

verus! {

/// A two dimensional vector, each coordinate a raw fixed-point value.
#[derive(Clone, Copy, Debug, PartialEq, Eq, Structural)]
pub struct Vec2 {
    pub x: i64,
    pub y: i64,
}

impl Vec2 {
    /// All coordinates within the operating range of the arithmetic.
    pub open spec fn bounded(self) -> bool {
        &&& -MAX_COORD <= self.x <= MAX_COORD
        &&& -MAX_COORD <= self.y <= MAX_COORD
    }

    /// The exact integer dot product of the raw coordinates of two vectors,
    /// before any rescaling.
    pub open spec fn vdot(self, o: Vec2) -> int {
        (self.x as int) * (o.x as int) + (self.y as int) * (o.y as int)
    }

    /// The exact integer dot square of the raw coordinates.
    pub open spec fn norm2_raw(self) -> int {
        self.vdot(self)
    }

    /// The raw magnitude: floor square root of the raw dot square.
    pub open spec fn mag_raw(self) -> int {
        sqrt_floor(self.norm2_raw())
    }

    pub fn new(x: i64, y: i64) -> (r: Vec2)
        ensures
            r.x == x,
            r.y == y,
    {
        Vec2 { x, y }
    }

    pub fn zero() -> (r: Vec2)
        ensures
            r.x == 0,
            r.y == 0,
    {
        Vec2 { x: 0, y: 0 }
    }

    pub fn one() -> (r: Vec2)
        ensures
            r.x == SCALE,
            r.y == SCALE,
    {
        Vec2 { x: SCALE, y: SCALE }
    }

    /// The magnitude (length) of the vector, in raw units.
    pub fn magnitude(&self) -> (r: i64)
        requires
            self.bounded(),
        ensures
            r == self.mag_raw(),
            r >= 0,
            r * r <= self.norm2_raw() < (r + 1) * (r + 1),
    {
        proof {
            lemma_mul_bound(self.x as int, self.x as int, MAX_COORD as int, MAX_COORD as int);
            lemma_mul_bound(self.y as int, self.y as int, MAX_COORD as int, MAX_COORD as int);
            assert(0 <= (self.x as int) * (self.x as int)) by (nonlinear_arith);
            assert(0 <= (self.y as int) * (self.y as int)) by (nonlinear_arith);
        }
        let n: i128 = (self.x as i128) * (self.x as i128) + (self.y as i128) * (self.y as i128);
        let r = isqrt(n as u128);
        proof {
            assert(r <= 2 * MAX_COORD) by (nonlinear_arith)
                requires
                    r >= 0,
                    r * r <= 2 * (MAX_COORD as int) * (MAX_COORD as int),
                    MAX_COORD == 1_099_511_627_776i64,
            ;
        }
        r as i64
    }

    /// The magnitude squared, in raw units (faster to compute than the
    /// magnitude itself).
    pub fn magnitude_squared(&self) -> (r: i64)
        requires
            self.bounded(),
        ensures
            r == scale_down(self.norm2_raw()),
    {
        proof {
            lemma_mul_bound(self.x as int, self.x as int, MAX_COORD as int, MAX_COORD as int);
            lemma_mul_bound(self.y as int, self.y as int, MAX_COORD as int, MAX_COORD as int);
            lemma_trunc_div_bound(
                self.norm2_raw(),
                SCALE as int,
                2 * (MAX_COORD as int) * (MAX_COORD as int),
            );
        }
        let n: i128 = (self.x as i128) * (self.x as i128) + (self.y as i128) * (self.y as i128);
        rescale(n)
    }

    /// Rescales the vector to magnitude one (one whole unit).
    /// The zero vector has no direction and is excluded.
    pub fn normalize(&mut self)
        requires
            old(self).bounded(),
            old(self).norm2_raw() != 0,
        ensures
            final(self).x == trunc_div(old(self).x * SCALE, old(self).mag_raw()),
            final(self).y == trunc_div(old(self).y * SCALE, old(self).mag_raw()),
            final(self).bounded(),
    {
        let v = *self;
        *self = v.normalized();
    }

    /// Returns the vector rescaled to magnitude one (one whole unit).
    /// The zero vector has no direction and is excluded.
    pub fn normalized(&self) -> (r: Vec2)
        requires
            self.bounded(),
            self.norm2_raw() != 0,
        ensures
            r.x == trunc_div(self.x * SCALE, self.mag_raw()),
            r.y == trunc_div(self.y * SCALE, self.mag_raw()),
            r.bounded(),
            -SCALE <= r.x <= SCALE,
            -SCALE <= r.y <= SCALE,
    {
        let m = self.magnitude();
        proof {
            assert(0 <= (self.x as int) * (self.x as int)) by (nonlinear_arith);
            assert(0 <= (self.y as int) * (self.y as int)) by (nonlinear_arith);
            assert(m >= 1) by (nonlinear_arith)
                requires
                    m >= 0,
                    m * m <= self.norm2_raw(),
                    self.norm2_raw() < (m + 1) * (m + 1),
                    self.norm2_raw() != 0,
                    self.norm2_raw() >= 0,
            ;
        }
        Vec2 { x: div_component(self.x, m), y: div_component(self.y, m) }
    }

    /// The dot product, in raw units.
    pub fn dot(&self, other: Vec2) -> (r: i64)
        requires
            self.bounded(),
            other.bounded(),
        ensures
            r == scale_down(self.vdot(other)),
    {
        proof {
            lemma_mul_bound(self.x as int, other.x as int, MAX_COORD as int, MAX_COORD as int);
            lemma_mul_bound(self.y as int, other.y as int, MAX_COORD as int, MAX_COORD as int);
            lemma_trunc_div_bound(
                self.vdot(other),
                SCALE as int,
                2 * (MAX_COORD as int) * (MAX_COORD as int),
            );
        }
        let n: i128 = (self.x as i128) * (other.x as i128) + (self.y as i128) * (other.y as i128);
        rescale(n)
    }

    /// Component-wise sum.
    pub fn add(&self, rhs: Vec2) -> (r: Vec2)
        requires
            in_i64(self.x + rhs.x),
            in_i64(self.y + rhs.y),
        ensures
            r.x == self.x + rhs.x,
            r.y == self.y + rhs.y,
    {
        Vec2 { x: self.x + rhs.x, y: self.y + rhs.y }
    }

    /// Component-wise difference.
    pub fn sub(&self, rhs: Vec2) -> (r: Vec2)
        requires
            in_i64(self.x - rhs.x),
            in_i64(self.y - rhs.y),
        ensures
            r.x == self.x - rhs.x,
            r.y == self.y - rhs.y,
    {
        Vec2 { x: self.x - rhs.x, y: self.y - rhs.y }
    }

    /// Multiplication by a scalar (a raw fixed-point value).
    pub fn scale(&self, scalar: i64) -> (r: Vec2)
        requires
            self.bounded(),
            -MAX_COORD <= scalar <= MAX_COORD,
        ensures
            r.x == scale_down(self.x * scalar),
            r.y == scale_down(self.y * scalar),
    {
        proof {
            lemma_mul_bound(self.x as int, scalar as int, MAX_COORD as int, MAX_COORD as int);
            lemma_mul_bound(self.y as int, scalar as int, MAX_COORD as int, MAX_COORD as int);
            lemma_trunc_div_bound(
                self.x * scalar,
                SCALE as int,
                (MAX_COORD as int) * (MAX_COORD as int),
            );
            lemma_trunc_div_bound(
                self.y * scalar,
                SCALE as int,
                (MAX_COORD as int) * (MAX_COORD as int),
            );
        }
        Vec2 {
            x: rescale((self.x as i128) * (scalar as i128)),
            y: rescale((self.y as i128) * (scalar as i128)),
        }
    }

    /// Division by a nonzero scalar (a raw fixed-point value).
    pub fn div(&self, scalar: i64) -> (r: Vec2)
        requires
            self.bounded(),
            scalar != 0,
        ensures
            r.x == trunc_div_signed(self.x * SCALE, scalar as int),
            r.y == trunc_div_signed(self.y * SCALE, scalar as int),
    {
        Vec2 { x: div_scaled_by(self.x, scalar), y: div_scaled_by(self.y, scalar) }
    }
}

} // verus!
