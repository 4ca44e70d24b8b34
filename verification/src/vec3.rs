//! Three-component vectors: the value type the rotor acts on.

use crate::fixed::{
    div_component, div_scaled_by, iabs, in_i64, isqrt, lemma_mul_bound, lemma_trunc_div_bound,
    rescale, scale_down, sqrt_floor, trunc_div, trunc_div_signed, MAX_COORD, SCALE,
};
use vstd::prelude::*;

verus! {

/// A three dimensional vector, each coordinate a raw fixed-point value.
#[derive(Clone, Copy, Debug, PartialEq, Eq, Structural)]
pub struct Vec3 {
    pub x: i64,
    pub y: i64,
    pub z: i64,
}

/// The exact integer dot product of two raw coordinate triples, before any
/// rescaling.
pub open spec fn dot_raw(ax: int, ay: int, az: int, bx: int, by: int, bz: int) -> int {
    ax * bx + ay * by + az * bz
}

/// A raw coordinate triple divided by the floor square root of its raw dot
/// square: the exact result of the executable normalization.
pub open spec fn normalized_triple(x: int, y: int, z: int) -> (int, int, int) {
    let m = sqrt_floor(dot_raw(x, y, z, x, y, z));
    (trunc_div(x * SCALE, m), trunc_div(y * SCALE, m), trunc_div(z * SCALE, m))
}

impl Vec3 {
    /// The raw coordinates as a triple of mathematical integers.
    pub open spec fn model(self) -> (int, int, int) {
        (self.x as int, self.y as int, self.z as int)
    }

    /// All coordinates within magnitude `b`.
    pub open spec fn within(self, b: int) -> bool {
        &&& -b <= self.x <= b
        &&& -b <= self.y <= b
        &&& -b <= self.z <= b
    }

    /// All coordinates within the operating range of the arithmetic.
    pub open spec fn bounded(self) -> bool {
        self.within(MAX_COORD as int)
    }

    /// The raw triple the perpendicular pick starts from: the coordinate of
    /// smallest magnitude is dropped and the remaining two are swapped with
    /// one sign flipped, which is exactly orthogonal to the vector.
    pub open spec fn perp_raw(self) -> (int, int, int) {
        if iabs(self.x as int) <= iabs(self.y as int) && iabs(self.x as int) <= iabs(
            self.z as int,
        ) {
            (0, self.z as int, -(self.y as int))
        } else if iabs(self.y as int) <= iabs(self.z as int) {
            (-(self.z as int), 0, self.x as int)
        } else {
            (self.y as int, -(self.x as int), 0)
        }
    }

    /// The exact integer dot product of the raw coordinates of two vectors,
    /// before any rescaling.
    pub open spec fn vdot(self, o: Vec3) -> int {
        dot_raw(self.x as int, self.y as int, self.z as int, o.x as int, o.y as int, o.z as int)
    }

    /// The exact integer dot square of the raw coordinates.
    pub open spec fn norm2_raw(self) -> int {
        dot_raw(
            self.x as int,
            self.y as int,
            self.z as int,
            self.x as int,
            self.y as int,
            self.z as int,
        )
    }

    /// The raw magnitude: floor square root of the raw dot square.
    pub open spec fn mag_raw(self) -> int {
        sqrt_floor(self.norm2_raw())
    }

    pub fn new(x: i64, y: i64, z: i64) -> (r: Vec3)
        ensures
            r.x == x,
            r.y == y,
            r.z == z,
    {
        Vec3 { x, y, z }
    }

    pub fn zero() -> (r: Vec3)
        ensures
            r.x == 0,
            r.y == 0,
            r.z == 0,
    {
        Vec3 { x: 0, y: 0, z: 0 }
    }

    pub fn one() -> (r: Vec3)
        ensures
            r.x == SCALE,
            r.y == SCALE,
            r.z == SCALE,
    {
        Vec3 { x: SCALE, y: SCALE, z: SCALE }
    }

    /// The magnitude (length) of the vector, in raw units.
    pub fn magnitude(&self) -> (r: i64)
        requires
            self.bounded(),
        ensures
            r == self.mag_raw(),
            r >= 0,
            r * r <= self.norm2_raw() < (r + 1) * (r + 1),
    {
        proof {
            lemma_mul_bound(self.x as int, self.x as int, MAX_COORD as int, MAX_COORD as int);
            lemma_mul_bound(self.y as int, self.y as int, MAX_COORD as int, MAX_COORD as int);
            lemma_mul_bound(self.z as int, self.z as int, MAX_COORD as int, MAX_COORD as int);
            assert(0 <= (self.x as int) * (self.x as int)) by (nonlinear_arith);
            assert(0 <= (self.y as int) * (self.y as int)) by (nonlinear_arith);
            assert(0 <= (self.z as int) * (self.z as int)) by (nonlinear_arith);
        }
        let n: i128 = (self.x as i128) * (self.x as i128) + (self.y as i128) * (self.y as i128)
            + (self.z as i128) * (self.z as i128);
        let r = isqrt(n as u128);
        proof {
            assert(r <= 3 * MAX_COORD) by (nonlinear_arith)
                requires
                    r >= 0,
                    r * r <= 3 * (MAX_COORD as int) * (MAX_COORD as int),
                    MAX_COORD == 1_099_511_627_776i64,
            ;
        }
        r as i64
    }

    /// The magnitude squared, in raw units (faster to compute than the
    /// magnitude itself).
    pub fn magnitude_squared(&self) -> (r: i64)
        requires
            self.bounded(),
        ensures
            r == scale_down(self.norm2_raw()),
    {
        proof {
            lemma_mul_bound(self.x as int, self.x as int, MAX_COORD as int, MAX_COORD as int);
            lemma_mul_bound(self.y as int, self.y as int, MAX_COORD as int, MAX_COORD as int);
            lemma_mul_bound(self.z as int, self.z as int, MAX_COORD as int, MAX_COORD as int);
            lemma_trunc_div_bound(
                self.norm2_raw(),
                SCALE as int,
                3 * (MAX_COORD as int) * (MAX_COORD as int),
            );
        }
        let n: i128 = (self.x as i128) * (self.x as i128) + (self.y as i128) * (self.y as i128)
            + (self.z as i128) * (self.z as i128);
        rescale(n)
    }

    /// Rescales the vector to magnitude one (one whole unit).
    /// The zero vector has no direction and is excluded.
    pub fn normalize(&mut self)
        requires
            old(self).bounded(),
            old(self).norm2_raw() != 0,
        ensures
            (final(self).x as int, final(self).y as int, final(self).z as int)
                == normalized_triple(old(self).x as int, old(self).y as int, old(self).z as int),
            final(self).bounded(),
            -SCALE <= final(self).x <= SCALE,
            -SCALE <= final(self).y <= SCALE,
            -SCALE <= final(self).z <= SCALE,
    {
        let v = *self;
        *self = v.normalized();
    }

    /// Returns the vector rescaled to magnitude one (one whole unit).
    /// The zero vector has no direction and is excluded.
    pub fn normalized(&self) -> (r: Vec3)
        requires
            self.bounded(),
            self.norm2_raw() != 0,
        ensures
            (r.x as int, r.y as int, r.z as int)
                == normalized_triple(self.x as int, self.y as int, self.z as int),
            r.bounded(),
            -SCALE <= r.x <= SCALE,
            -SCALE <= r.y <= SCALE,
            -SCALE <= r.z <= SCALE,
    {
        let m = self.magnitude();
        proof {
            assert(0 <= (self.x as int) * (self.x as int)) by (nonlinear_arith);
            assert(0 <= (self.y as int) * (self.y as int)) by (nonlinear_arith);
            assert(0 <= (self.z as int) * (self.z as int)) by (nonlinear_arith);
            assert(m >= 1) by (nonlinear_arith)
                requires
                    m >= 0,
                    m * m <= self.norm2_raw(),
                    self.norm2_raw() < (m + 1) * (m + 1),
                    self.norm2_raw() != 0,
                    self.norm2_raw() >= 0,
            ;
        }
        Vec3 {
            x: div_component(self.x, m),
            y: div_component(self.y, m),
            z: div_component(self.z, m),
        }
    }

    /// The dot product, in raw units.
    pub fn dot(&self, other: Vec3) -> (r: i64)
        requires
            self.bounded(),
            other.bounded(),
        ensures
            r == scale_down(
                dot_raw(
                    self.x as int,
                    self.y as int,
                    self.z as int,
                    other.x as int,
                    other.y as int,
                    other.z as int,
                ),
            ),
    {
        proof {
            lemma_mul_bound(self.x as int, other.x as int, MAX_COORD as int, MAX_COORD as int);
            lemma_mul_bound(self.y as int, other.y as int, MAX_COORD as int, MAX_COORD as int);
            lemma_mul_bound(self.z as int, other.z as int, MAX_COORD as int, MAX_COORD as int);
            lemma_trunc_div_bound(
                dot_raw(
                    self.x as int,
                    self.y as int,
                    self.z as int,
                    other.x as int,
                    other.y as int,
                    other.z as int,
                ),
                SCALE as int,
                3 * (MAX_COORD as int) * (MAX_COORD as int),
            );
        }
        let n: i128 = (self.x as i128) * (other.x as i128) + (self.y as i128) * (other.y as i128)
            + (self.z as i128) * (other.z as i128);
        rescale(n)
    }

    /// The cross product (right-hand rule), in raw units.
    pub fn cross(&self, right: Vec3) -> (r: Vec3)
        requires
            self.bounded(),
            right.bounded(),
        ensures
            r.x == scale_down(self.y * right.z - self.z * right.y),
            r.y == scale_down(self.z * right.x - self.x * right.z),
            r.z == scale_down(self.x * right.y - self.y * right.x),
    {
        proof {
            lemma_mul_bound(self.y as int, right.z as int, MAX_COORD as int, MAX_COORD as int);
            lemma_mul_bound(self.z as int, right.y as int, MAX_COORD as int, MAX_COORD as int);
            lemma_mul_bound(self.z as int, right.x as int, MAX_COORD as int, MAX_COORD as int);
            lemma_mul_bound(self.x as int, right.z as int, MAX_COORD as int, MAX_COORD as int);
            lemma_mul_bound(self.x as int, right.y as int, MAX_COORD as int, MAX_COORD as int);
            lemma_mul_bound(self.y as int, right.x as int, MAX_COORD as int, MAX_COORD as int);
            lemma_trunc_div_bound(
                self.y * right.z - self.z * right.y,
                SCALE as int,
                2 * (MAX_COORD as int) * (MAX_COORD as int),
            );
            lemma_trunc_div_bound(
                self.z * right.x - self.x * right.z,
                SCALE as int,
                2 * (MAX_COORD as int) * (MAX_COORD as int),
            );
            lemma_trunc_div_bound(
                self.x * right.y - self.y * right.x,
                SCALE as int,
                2 * (MAX_COORD as int) * (MAX_COORD as int),
            );
        }
        Vec3 {
            x: rescale((self.y as i128) * (right.z as i128) - (self.z as i128) * (right.y as i128)),
            y: rescale((self.z as i128) * (right.x as i128) - (self.x as i128) * (right.z as i128)),
            z: rescale((self.x as i128) * (right.y as i128) - (self.y as i128) * (right.x as i128)),
        }
    }

    /// Component-wise sum.
    pub fn add(&self, rhs: Vec3) -> (r: Vec3)
        requires
            in_i64(self.x + rhs.x),
            in_i64(self.y + rhs.y),
            in_i64(self.z + rhs.z),
        ensures
            r.x == self.x + rhs.x,
            r.y == self.y + rhs.y,
            r.z == self.z + rhs.z,
    {
        Vec3 { x: self.x + rhs.x, y: self.y + rhs.y, z: self.z + rhs.z }
    }

    /// Component-wise difference.
    pub fn sub(&self, rhs: Vec3) -> (r: Vec3)
        requires
            in_i64(self.x - rhs.x),
            in_i64(self.y - rhs.y),
            in_i64(self.z - rhs.z),
        ensures
            r.x == self.x - rhs.x,
            r.y == self.y - rhs.y,
            r.z == self.z - rhs.z,
    {
        Vec3 { x: self.x - rhs.x, y: self.y - rhs.y, z: self.z - rhs.z }
    }

    /// Multiplication by a scalar (a raw fixed-point value).
    pub fn scale(&self, scalar: i64) -> (r: Vec3)
        requires
            self.bounded(),
            -MAX_COORD <= scalar <= MAX_COORD,
        ensures
            r.x == scale_down(self.x * scalar),
            r.y == scale_down(self.y * scalar),
            r.z == scale_down(self.z * scalar),
    {
        proof {
            lemma_mul_bound(self.x as int, scalar as int, MAX_COORD as int, MAX_COORD as int);
            lemma_mul_bound(self.y as int, scalar as int, MAX_COORD as int, MAX_COORD as int);
            lemma_mul_bound(self.z as int, scalar as int, MAX_COORD as int, MAX_COORD as int);
            lemma_trunc_div_bound(
                self.x * scalar,
                SCALE as int,
                (MAX_COORD as int) * (MAX_COORD as int),
            );
            lemma_trunc_div_bound(
                self.y * scalar,
                SCALE as int,
                (MAX_COORD as int) * (MAX_COORD as int),
            );
            lemma_trunc_div_bound(
                self.z * scalar,
                SCALE as int,
                (MAX_COORD as int) * (MAX_COORD as int),
            );
        }
        Vec3 {
            x: rescale((self.x as i128) * (scalar as i128)),
            y: rescale((self.y as i128) * (scalar as i128)),
            z: rescale((self.z as i128) * (scalar as i128)),
        }
    }

    /// A unit vector perpendicular to this one: the coordinate of smallest
    /// magnitude is dropped, the remaining two are swapped with one sign
    /// flipped, and the result is normalized. The zero vector has no
    /// perpendicular and is excluded.
    pub fn perpendicular(&self) -> (r: Vec3)
        requires
            self.bounded(),
            self.norm2_raw() != 0,
        ensures
            (r.x as int, r.y as int, r.z as int) == normalized_triple(
                self.perp_raw().0,
                self.perp_raw().1,
                self.perp_raw().2,
            ),
            r.bounded(),
            -SCALE <= r.x <= SCALE,
            -SCALE <= r.y <= SCALE,
            -SCALE <= r.z <= SCALE,
    {
        let ax = if self.x >= 0 { self.x } else { -self.x };
        let ay = if self.y >= 0 { self.y } else { -self.y };
        let az = if self.z >= 0 { self.z } else { -self.z };
        let p = if ax <= ay && ax <= az {
            Vec3 { x: 0, y: self.z, z: -self.y }
        } else if ay <= az {
            Vec3 { x: -self.z, y: 0, z: self.x }
        } else {
            Vec3 { x: self.y, y: -self.x, z: 0 }
        };
        proof {
            lemma_perp_nonzero(*self, p);
        }
        p.normalized()
    }

    /// Division by a nonzero scalar (a raw fixed-point value).
    pub fn div(&self, scalar: i64) -> (r: Vec3)
        requires
            self.bounded(),
            scalar != 0,
        ensures
            r.x == trunc_div_signed(self.x * SCALE, scalar as int),
            r.y == trunc_div_signed(self.y * SCALE, scalar as int),
            r.z == trunc_div_signed(self.z * SCALE, scalar as int),
    {
        Vec3 {
            x: div_scaled_by(self.x, scalar),
            y: div_scaled_by(self.y, scalar),
            z: div_scaled_by(self.z, scalar),
        }
    }
}

/// Law: the dot product is symmetric.
pub proof fn lemma_dot_symmetric(a: Vec3, b: Vec3)
    ensures
        a.vdot(b) == b.vdot(a),
{
    assert((a.x as int) * (b.x as int) == (b.x as int) * (a.x as int)) by (nonlinear_arith);
    assert((a.y as int) * (b.y as int) == (b.y as int) * (a.y as int)) by (nonlinear_arith);
    assert((a.z as int) * (b.z as int) == (b.z as int) * (a.z as int)) by (nonlinear_arith);
}

/// Law: the cross product is antisymmetric, exactly, rounding included:
/// each coordinate of `a.cross(b)` is the negation of the matching
/// coordinate of `b.cross(a)`, stated over the rescaled values the
/// executable method returns.
pub proof fn lemma_cross_antisymmetric(a: Vec3, b: Vec3)
    ensures
        scale_down(a.y * b.z - a.z * b.y) == -scale_down(b.y * a.z - b.z * a.y),
        scale_down(a.z * b.x - a.x * b.z) == -scale_down(b.z * a.x - b.x * a.z),
        scale_down(a.x * b.y - a.y * b.x) == -scale_down(b.x * a.y - b.y * a.x),
{
    assert((a.y as int) * (b.z as int) - (a.z as int) * (b.y as int) == -((b.y as int) * (
    a.z as int) - (b.z as int) * (a.y as int))) by (nonlinear_arith);
    assert((a.z as int) * (b.x as int) - (a.x as int) * (b.z as int) == -((b.z as int) * (
    a.x as int) - (b.x as int) * (a.z as int))) by (nonlinear_arith);
    assert((a.x as int) * (b.y as int) - (a.y as int) * (b.x as int) == -((b.x as int) * (
    a.y as int) - (b.y as int) * (a.x as int))) by (nonlinear_arith);
    crate::fixed::lemma_trunc_div_neg(b.y * a.z - b.z * a.y, SCALE as int);
    crate::fixed::lemma_trunc_div_neg(b.z * a.x - b.x * a.z, SCALE as int);
    crate::fixed::lemma_trunc_div_neg(b.x * a.y - b.y * a.x, SCALE as int);
}

/// Law: vector addition is commutative, exactly: both orders give the same
/// sums, so `a.add(b) == b.add(a)` whenever the sums fit.
pub proof fn lemma_add_commutative(a: Vec3, b: Vec3)
    ensures
        a.x + b.x == b.x + a.x,
        a.y + b.y == b.y + a.y,
        a.z + b.z == b.z + a.z,
{
}

/// Law: scalar multiplication distributes over addition at the level of
/// the exact products the contracts rescale. (The executable results round
/// each side once, so they can differ by at most one raw unit.)
pub proof fn lemma_scale_distributive(k: int, a: Vec3, b: Vec3)
    ensures
        (a.x + b.x) * k == a.x * k + b.x * k,
        (a.y + b.y) * k == a.y * k + b.y * k,
        (a.z + b.z) * k == a.z * k + b.z * k,
{
    assert(((a.x as int) + (b.x as int)) * k == (a.x as int) * k + (b.x as int) * k)
        by (nonlinear_arith);
    assert(((a.y as int) + (b.y as int)) * k == (a.y as int) * k + (b.y as int) * k)
        by (nonlinear_arith);
    assert(((a.z as int) + (b.z as int)) * k == (a.z as int) * k + (b.z as int) * k)
        by (nonlinear_arith);
}

/// The perpendicular pick of a nonzero vector is itself nonzero.
proof fn lemma_perp_nonzero(v: Vec3, p: Vec3)
    requires
        v.norm2_raw() != 0,
        (p.x as int, p.y as int, p.z as int) == v.perp_raw(),
    ensures
        p.norm2_raw() != 0,
{
    assert(0 <= (p.x as int) * (p.x as int)) by (nonlinear_arith);
    assert(0 <= (p.y as int) * (p.y as int)) by (nonlinear_arith);
    assert(0 <= (p.z as int) * (p.z as int)) by (nonlinear_arith);
    if p.norm2_raw() == 0 {
        assert(p.x == 0) by (nonlinear_arith)
            requires
                (p.x as int) * (p.x as int) == 0,
        ;
        assert(p.y == 0) by (nonlinear_arith)
            requires
                (p.y as int) * (p.y as int) == 0,
        ;
        assert(p.z == 0) by (nonlinear_arith)
            requires
                (p.z as int) * (p.z as int) == 0,
        ;
        assert(v.x == 0 && v.y == 0 && v.z == 0);
        assert(v.norm2_raw() == 0) by (nonlinear_arith)
            requires
                v.x == 0,
                v.y == 0,
                v.z == 0,
        ;
    }
}

/// The perpendicular pick is exactly orthogonal to the vector it was picked
/// for, before any normalization.
pub proof fn lemma_perp_raw_orthogonal(v: Vec3)
    ensures
        dot_raw(
            v.x as int,
            v.y as int,
            v.z as int,
            v.perp_raw().0,
            v.perp_raw().1,
            v.perp_raw().2,
        ) == 0,
{
    let p = v.perp_raw();
    assert((v.x as int) * p.0 + (v.y as int) * p.1 + (v.z as int) * p.2 == 0) by (nonlinear_arith)
        requires
            p == v.perp_raw(),
            (p == ((0int, v.z as int, -(v.y as int)))) || (p == ((-(v.z as int), 0int, v.x as int)))
                || (p == ((v.y as int, -(v.x as int), 0int))),
    ;
}

} // verus!
