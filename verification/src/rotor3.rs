//! Rotors: the geometric-algebra representation of 3D rotations.
//!
//! A rotor holds a scalar part and three bivector components and represents
//! the rotation `s + xy*e12 + yz*e23 + zx*e31`. It acts on vectors through
//! the two-sided sandwich product, composes through the geometric product,
//! and exports to a homogeneous matrix. The spec functions in this module
//! are the exact integer forms of those products; the executable methods
//! compute them in a 128-bit accumulator and rescale once at the end.

use crate::fixed::{
    div_component, in_i64, isqrt, lemma_mul_bound, lemma_trunc_div_bound, rescale, rescale2,
    scale_down, scale_down2, sqrt_floor, trunc_div, FLIP_TOL, MAX_COORD, MAX_ROTOR, SCALE,
};
use crate::mat4::Mat4;
use crate::vec3::{normalized_triple, Vec3};
use crate::vec4::Vec4;
use vstd::prelude::*;

verus! {

/// The geometric product of two rotors, over unbounded integers. Applied
/// through the sandwich product, the composite `rotor_product(a, b)`
/// rotates by `b` first and then by `a`.
pub open spec fn rotor_product(
    a: (int, int, int, int),
    b: (int, int, int, int),
) -> (int, int, int, int) {
    (
        a.0 * b.0 - a.1 * b.1 - a.2 * b.2 - a.3 * b.3,
        a.0 * b.1 + a.1 * b.0 - a.2 * b.3 + a.3 * b.2,
        a.0 * b.2 + a.2 * b.0 + a.1 * b.3 - a.3 * b.1,
        a.0 * b.3 + a.3 * b.0 - a.1 * b.2 + a.2 * b.1,
    )
}

/// The two-sided sandwich product of a rotor and a vector, over unbounded
/// integers: `R v R^(-1)` expanded into two sequential linear combinations.
pub open spec fn rotor_apply(r: (int, int, int, int), v: (int, int, int)) -> (int, int, int) {
    let tx = r.0 * v.0 + r.1 * v.1 - r.3 * v.2;
    let ty = r.0 * v.1 - r.1 * v.0 + r.2 * v.2;
    let tz = r.0 * v.2 - r.2 * v.1 + r.3 * v.0;
    let txyz = r.1 * v.2 + r.2 * v.0 + r.3 * v.1;
    (
        tx * r.0 + ty * r.1 - tz * r.3 + txyz * r.2,
        ty * r.0 - tx * r.1 + tz * r.2 + txyz * r.3,
        tz * r.0 + tx * r.3 - ty * r.2 + txyz * r.1,
    )
}

/// The reverse (conjugate) of a rotor: the bivector part negated.
pub open spec fn rotor_reverse(r: (int, int, int, int)) -> (int, int, int, int) {
    (r.0, -r.1, -r.2, -r.3)
}

/// The squared magnitude of a rotor, over unbounded integers.
pub open spec fn rotor_norm2(r: (int, int, int, int)) -> int {
    r.0 * r.0 + r.1 * r.1 + r.2 * r.2 + r.3 * r.3
}

/// The even-grade geometric product `b * a` of two vectors: the rotor that
/// rotates by twice the angle from `a` to `b`.
pub open spec fn rotor_of_vectors(a: (int, int, int), b: (int, int, int)) -> (int, int, int, int) {
    (
        b.0 * a.0 + b.1 * a.1 + b.2 * a.2,
        b.0 * a.1 - b.1 * a.0,
        b.1 * a.2 - b.2 * a.1,
        b.2 * a.0 - b.0 * a.2,
    )
}

/// Each component of a rotor quadruple scaled back down to raw units after
/// one multiplication.
pub open spec fn scale4_down(t: (int, int, int, int)) -> (int, int, int, int) {
    (scale_down(t.0), scale_down(t.1), scale_down(t.2), scale_down(t.3))
}

/// Each component of a vector triple scaled back down to raw units after two
/// chained multiplications.
pub open spec fn scale3_down2(t: (int, int, int)) -> (int, int, int) {
    (scale_down2(t.0), scale_down2(t.1), scale_down2(t.2))
}

/// The first basis vector, in raw units.
pub open spec fn unit_x() -> (int, int, int) {
    (SCALE as int, 0, 0)
}

/// The second basis vector, in raw units.
pub open spec fn unit_y() -> (int, int, int) {
    (0, SCALE as int, 0)
}

/// The third basis vector, in raw units.
pub open spec fn unit_z() -> (int, int, int) {
    (0, 0, SCALE as int)
}

/// Whether a raw dot product `d` of two unit vectors falls in the band
/// around minus one whole unit within which the two count as antiparallel.
pub open spec fn antiparallel(d: int) -> bool {
    -(SCALE + FLIP_TOL) <= d < -(SCALE - FLIP_TOL)
}

/// The second vector that the exact constructor hands to the doubling
/// constructor: the normalized bisector of `a` and `b`, or a perpendicular
/// of `a` when the two are antiparallel and the bisector vanishes.
pub open spec fn exact_second(a: Vec3, b: Vec3) -> (int, int, int) {
    if antiparallel(scale_down(a.vdot(b))) {
        normalized_triple(a.perp_raw().0, a.perp_raw().1, a.perp_raw().2)
    } else {
        normalized_triple(a.x + b.x, a.y + b.y, a.z + b.z)
    }
}

/// A 3D rotation, represented as a scalar part `s` and a bivector part
/// `(xy, yz, zx)`, all raw fixed-point values. A rotor represents a pure
/// rotation only while `s^2 + xy^2 + yz^2 + zx^2` is one whole unit squared;
/// composing many rotors drifts away from that and [`Rotor3::normalize`]
/// restores it.
#[derive(Clone, Copy, Debug, PartialEq, Eq, Structural)]
pub struct Rotor3 {
    pub s: i64,
    pub xy: i64,
    pub yz: i64,
    pub zx: i64,
}

impl Rotor3 {
    /// The raw components as a quadruple of mathematical integers.
    pub open spec fn model(self) -> (int, int, int, int) {
        (self.s as int, self.xy as int, self.yz as int, self.zx as int)
    }

    /// All components within the operating range of the rotor arithmetic.
    pub open spec fn bounded(self) -> bool {
        &&& -MAX_ROTOR <= self.s <= MAX_ROTOR
        &&& -MAX_ROTOR <= self.xy <= MAX_ROTOR
        &&& -MAX_ROTOR <= self.yz <= MAX_ROTOR
        &&& -MAX_ROTOR <= self.zx <= MAX_ROTOR
    }

    /// The exact integer squared magnitude of the raw components.
    pub open spec fn norm2_raw(self) -> int {
        rotor_norm2(self.model())
    }

    /// The raw magnitude: floor square root of the raw squared magnitude.
    pub open spec fn mag_raw(self) -> int {
        sqrt_floor(self.norm2_raw())
    }

    /// Returns the identity rotor (no rotation).
    pub fn identity() -> (r: Rotor3)
        ensures
            r.s == SCALE,
            r.xy == 0,
            r.yz == 0,
            r.zx == 0,
            r.bounded(),
    {
        Rotor3 { s: SCALE, xy: 0, yz: 0, zx: 0 }
    }

    /// Constructs the rotor that rotates vectors by DOUBLE the angle and
    /// direction between `a` and `b`: the even grade of the geometric
    /// product `b * a`. The inputs must be normalized vectors; a non-unit
    /// input is silently accepted and yields a non-unit rotor, which scales
    /// everything it later rotates.
    pub fn new(a: Vec3, b: Vec3) -> (r: Rotor3)
        requires
            a.bounded(),
            b.bounded(),
        ensures
            r.model() == scale4_down(rotor_of_vectors(a.model(), b.model())),
            (a.within(SCALE as int) && b.within(SCALE as int)) ==> r.bounded(),
    {
        proof {
            lemma_mul_bound(b.x as int, a.x as int, MAX_COORD as int, MAX_COORD as int);
            lemma_mul_bound(b.y as int, a.y as int, MAX_COORD as int, MAX_COORD as int);
            lemma_mul_bound(b.z as int, a.z as int, MAX_COORD as int, MAX_COORD as int);
            lemma_mul_bound(b.x as int, a.y as int, MAX_COORD as int, MAX_COORD as int);
            lemma_mul_bound(b.y as int, a.x as int, MAX_COORD as int, MAX_COORD as int);
            lemma_mul_bound(b.y as int, a.z as int, MAX_COORD as int, MAX_COORD as int);
            lemma_mul_bound(b.z as int, a.y as int, MAX_COORD as int, MAX_COORD as int);
            lemma_mul_bound(b.z as int, a.x as int, MAX_COORD as int, MAX_COORD as int);
            lemma_mul_bound(b.x as int, a.z as int, MAX_COORD as int, MAX_COORD as int);
            let big = 3 * (MAX_COORD as int) * (MAX_COORD as int);
            lemma_trunc_div_bound(rotor_of_vectors(a.model(), b.model()).0, SCALE as int, big);
            lemma_trunc_div_bound(rotor_of_vectors(a.model(), b.model()).1, SCALE as int, big);
            lemma_trunc_div_bound(rotor_of_vectors(a.model(), b.model()).2, SCALE as int, big);
            lemma_trunc_div_bound(rotor_of_vectors(a.model(), b.model()).3, SCALE as int, big);
            if a.within(SCALE as int) && b.within(SCALE as int) {
                lemma_mul_bound(b.x as int, a.x as int, SCALE as int, SCALE as int);
                lemma_mul_bound(b.y as int, a.y as int, SCALE as int, SCALE as int);
                lemma_mul_bound(b.z as int, a.z as int, SCALE as int, SCALE as int);
                lemma_mul_bound(b.x as int, a.y as int, SCALE as int, SCALE as int);
                lemma_mul_bound(b.y as int, a.x as int, SCALE as int, SCALE as int);
                lemma_mul_bound(b.y as int, a.z as int, SCALE as int, SCALE as int);
                lemma_mul_bound(b.z as int, a.y as int, SCALE as int, SCALE as int);
                lemma_mul_bound(b.z as int, a.x as int, SCALE as int, SCALE as int);
                lemma_mul_bound(b.x as int, a.z as int, SCALE as int, SCALE as int);
                let unitish = 3 * (SCALE as int) * (SCALE as int);
                lemma_trunc_div_bound(
                    rotor_of_vectors(a.model(), b.model()).0,
                    SCALE as int,
                    unitish,
                );
                lemma_trunc_div_bound(
                    rotor_of_vectors(a.model(), b.model()).1,
                    SCALE as int,
                    unitish,
                );
                lemma_trunc_div_bound(
                    rotor_of_vectors(a.model(), b.model()).2,
                    SCALE as int,
                    unitish,
                );
                lemma_trunc_div_bound(
                    rotor_of_vectors(a.model(), b.model()).3,
                    SCALE as int,
                    unitish,
                );
            }
        }
        Rotor3 {
            s: rescale(
                (b.x as i128) * (a.x as i128) + (b.y as i128) * (a.y as i128) + (b.z as i128) * (
                a.z as i128),
            ),
            xy: rescale((b.x as i128) * (a.y as i128) - (b.y as i128) * (a.x as i128)),
            yz: rescale((b.y as i128) * (a.z as i128) - (b.z as i128) * (a.y as i128)),
            zx: rescale((b.z as i128) * (a.x as i128) - (b.x as i128) * (a.z as i128)),
        }
    }

    /// Constructs the rotor that rotates vectors by the SINGLE angle and
    /// direction between `a` and `b`, by handing the doubling constructor
    /// the normalized bisector of the two. When the two are antiparallel
    /// (dot product within the band around minus one) the bisector
    /// vanishes, and a unit vector perpendicular to `a` takes its place,
    /// giving a half-turn about that perpendicular axis. The inputs must be
    /// normalized vectors; the zero vector and an exactly cancelling pair
    /// outside the antiparallel band are excluded, since neither leaves a
    /// direction to rotate through.
    pub fn new_exact(a: Vec3, b: Vec3) -> (r: Rotor3)
        requires
            a.within(2 * SCALE),
            b.within(2 * SCALE),
            a.norm2_raw() != 0,
            !antiparallel(scale_down(a.vdot(b))) ==> (a.x + b.x) * (a.x + b.x) + (a.y + b.y) * (
            a.y + b.y) + (a.z + b.z) * (a.z + b.z) != 0,
        ensures
            r.model() == scale4_down(rotor_of_vectors(a.model(), exact_second(a, b))),
            r.bounded(),
    {
        let d = a.dot(b);
        let second = if -(SCALE + FLIP_TOL) <= d && d < -(SCALE - FLIP_TOL) {
            a.perpendicular()
        } else {
            let sum = a.add(b);
            sum.normalized()
        };
        let r = Self::new(a, second);
        proof {
            let two = 2 * SCALE as int;
            lemma_mul_bound(second.x as int, a.x as int, SCALE as int, two);
            lemma_mul_bound(second.y as int, a.y as int, SCALE as int, two);
            lemma_mul_bound(second.z as int, a.z as int, SCALE as int, two);
            lemma_mul_bound(second.x as int, a.y as int, SCALE as int, two);
            lemma_mul_bound(second.y as int, a.x as int, SCALE as int, two);
            lemma_mul_bound(second.y as int, a.z as int, SCALE as int, two);
            lemma_mul_bound(second.z as int, a.y as int, SCALE as int, two);
            lemma_mul_bound(second.z as int, a.x as int, SCALE as int, two);
            lemma_mul_bound(second.x as int, a.z as int, SCALE as int, two);
            let big = 6_000_000_000_000int;
            assert((SCALE as int) * two == 2_000_000_000_000int) by (nonlinear_arith)
                requires
                    two == 2 * (SCALE as int),
                    SCALE == 1_000_000i64,
            ;
            lemma_trunc_div_bound(
                rotor_of_vectors(a.model(), second.model()).0,
                SCALE as int,
                big,
            );
            lemma_trunc_div_bound(
                rotor_of_vectors(a.model(), second.model()).1,
                SCALE as int,
                big,
            );
            lemma_trunc_div_bound(
                rotor_of_vectors(a.model(), second.model()).2,
                SCALE as int,
                big,
            );
            lemma_trunc_div_bound(
                rotor_of_vectors(a.model(), second.model()).3,
                SCALE as int,
                big,
            );
        }
        r
    }

    /// Returns self but inverted (the reverse rotation).
    pub fn inverted(&self) -> (r: Rotor3)
        requires
            self.xy > i64::MIN,
            self.yz > i64::MIN,
            self.zx > i64::MIN,
        ensures
            r.model() == rotor_reverse(self.model()),
    {
        let mut result = *self;
        result.invert();
        result
    }

    /// Inverts self (the reverse rotation): negates the bivector part.
    pub fn invert(&mut self)
        requires
            old(self).xy > i64::MIN,
            old(self).yz > i64::MIN,
            old(self).zx > i64::MIN,
        ensures
            final(self).model() == rotor_reverse(old(self).model()),
    {
        self.xy = -self.xy;
        self.yz = -self.yz;
        self.zx = -self.zx;
    }

    /// Returns the result of rotating `v` by this rotor (the sandwich
    /// product `R v R^(-1)`). The rotor must be unit for the result to be a
    /// pure rotation; a non-unit rotor silently scales the output.
    pub fn rotated_vec(&self, v: Vec3) -> (r: Vec3)
        requires
            self.bounded(),
            v.bounded(),
        ensures
            (r.x as int, r.y as int, r.z as int) == scale3_down2(
                rotor_apply(self.model(), v.model()),
            ),
    {
        let mut w = v;
        self.rotate_vec(&mut w);
        w
    }

    /// Rotates `v` in place by this rotor (the sandwich product
    /// `R v R^(-1)`). The rotor must be unit for the result to be a pure
    /// rotation; a non-unit rotor silently scales the output.
    pub fn rotate_vec(&self, v: &mut Vec3)
        requires
            self.bounded(),
            old(v).bounded(),
        ensures
            (final(v).x as int, final(v).y as int, final(v).z as int) == scale3_down2(
                rotor_apply(self.model(), old(v).model()),
            ),
    {
        let s = self.s as i128;
        let xy = self.xy as i128;
        let yz = self.yz as i128;
        let zx = self.zx as i128;
        let x = v.x as i128;
        let y = v.y as i128;
        let z = v.z as i128;
        proof {
            lemma_mul_bound(self.s as int, old(v).x as int, MAX_ROTOR as int, MAX_COORD as int);
            lemma_mul_bound(self.s as int, old(v).y as int, MAX_ROTOR as int, MAX_COORD as int);
            lemma_mul_bound(self.s as int, old(v).z as int, MAX_ROTOR as int, MAX_COORD as int);
            lemma_mul_bound(self.xy as int, old(v).x as int, MAX_ROTOR as int, MAX_COORD as int);
            lemma_mul_bound(self.xy as int, old(v).y as int, MAX_ROTOR as int, MAX_COORD as int);
            lemma_mul_bound(self.xy as int, old(v).z as int, MAX_ROTOR as int, MAX_COORD as int);
            lemma_mul_bound(self.yz as int, old(v).x as int, MAX_ROTOR as int, MAX_COORD as int);
            lemma_mul_bound(self.yz as int, old(v).y as int, MAX_ROTOR as int, MAX_COORD as int);
            lemma_mul_bound(self.yz as int, old(v).z as int, MAX_ROTOR as int, MAX_COORD as int);
            lemma_mul_bound(self.zx as int, old(v).x as int, MAX_ROTOR as int, MAX_COORD as int);
            lemma_mul_bound(self.zx as int, old(v).y as int, MAX_ROTOR as int, MAX_COORD as int);
            lemma_mul_bound(self.zx as int, old(v).z as int, MAX_ROTOR as int, MAX_COORD as int);
            lemma_stage_one_bounds(self.model(), old(v).model());
        }
        let tx = s * x + xy * y - zx * z;
        let ty = s * y - xy * x + yz * z;
        let tz = s * z - yz * y + zx * x;
        let txyz = xy * z + yz * x + zx * y;
        proof {
            let stage = 3 * (MAX_ROTOR as int) * (MAX_COORD as int);
            lemma_mul_bound(tx as int, self.s as int, stage, MAX_ROTOR as int);
            lemma_mul_bound(tx as int, self.xy as int, stage, MAX_ROTOR as int);
            lemma_mul_bound(tx as int, self.zx as int, stage, MAX_ROTOR as int);
            lemma_mul_bound(ty as int, self.s as int, stage, MAX_ROTOR as int);
            lemma_mul_bound(ty as int, self.xy as int, stage, MAX_ROTOR as int);
            lemma_mul_bound(ty as int, self.yz as int, stage, MAX_ROTOR as int);
            lemma_mul_bound(tz as int, self.s as int, stage, MAX_ROTOR as int);
            lemma_mul_bound(tz as int, self.yz as int, stage, MAX_ROTOR as int);
            lemma_mul_bound(tz as int, self.zx as int, stage, MAX_ROTOR as int);
            lemma_mul_bound(txyz as int, self.xy as int, stage, MAX_ROTOR as int);
            lemma_mul_bound(txyz as int, self.yz as int, stage, MAX_ROTOR as int);
            lemma_mul_bound(txyz as int, self.zx as int, stage, MAX_ROTOR as int);
            lemma_stage_two_bounds(
                self.model(),
                old(v).model(),
                tx as int,
                ty as int,
                tz as int,
                txyz as int,
            );
        }
        let rx = rescale2(tx * s + ty * xy - tz * zx + txyz * yz);
        let ry = rescale2(ty * s - tx * xy + tz * yz + txyz * zx);
        let rz = rescale2(tz * s + tx * zx - ty * yz + txyz * xy);
        v.x = rx;
        v.y = ry;
        v.z = rz;
    }

    /// Returns the combination of self and `r`: the geometric product of
    /// the two rotors, which rotates by `r` first and then by self.
    pub fn appended(&self, r: Rotor3) -> (result: Rotor3)
        requires
            self.bounded(),
            r.bounded(),
        ensures
            result.model() == scale4_down(rotor_product(self.model(), r.model())),
    {
        let mut result = *self;
        result.append(r);
        result
    }

    /// Appends a rotor to this rotor: the new rotation applies `r` first
    /// and then the old self. Composition is not commutative.
    pub fn append(&mut self, r: Rotor3)
        requires
            old(self).bounded(),
            r.bounded(),
        ensures
            final(self).model() == scale4_down(rotor_product(old(self).model(), r.model())),
    {
        proof {
            let m = MAX_ROTOR as int;
            lemma_mul_bound(old(self).s as int, r.s as int, m, m);
            lemma_mul_bound(old(self).s as int, r.xy as int, m, m);
            lemma_mul_bound(old(self).s as int, r.yz as int, m, m);
            lemma_mul_bound(old(self).s as int, r.zx as int, m, m);
            lemma_mul_bound(old(self).xy as int, r.s as int, m, m);
            lemma_mul_bound(old(self).xy as int, r.xy as int, m, m);
            lemma_mul_bound(old(self).xy as int, r.yz as int, m, m);
            lemma_mul_bound(old(self).xy as int, r.zx as int, m, m);
            lemma_mul_bound(old(self).yz as int, r.s as int, m, m);
            lemma_mul_bound(old(self).yz as int, r.xy as int, m, m);
            lemma_mul_bound(old(self).yz as int, r.yz as int, m, m);
            lemma_mul_bound(old(self).yz as int, r.zx as int, m, m);
            lemma_mul_bound(old(self).zx as int, r.s as int, m, m);
            lemma_mul_bound(old(self).zx as int, r.xy as int, m, m);
            lemma_mul_bound(old(self).zx as int, r.yz as int, m, m);
            lemma_mul_bound(old(self).zx as int, r.zx as int, m, m);
            lemma_product_bounds(old(self).model(), r.model());
        }
        let s1 = self.s as i128;
        let xy1 = self.xy as i128;
        let yz1 = self.yz as i128;
        let zx1 = self.zx as i128;
        let s2 = r.s as i128;
        let xy2 = r.xy as i128;
        let yz2 = r.yz as i128;
        let zx2 = r.zx as i128;
        let s = rescale(s1 * s2 - xy1 * xy2 - yz1 * yz2 - zx1 * zx2);
        let xy = rescale(s1 * xy2 + xy1 * s2 - yz1 * zx2 + zx1 * yz2);
        let yz = rescale(s1 * yz2 + yz1 * s2 + xy1 * zx2 - zx1 * xy2);
        let zx = rescale(s1 * zx2 + zx1 * s2 - xy1 * yz2 + yz1 * xy2);
        self.s = s;
        self.xy = xy;
        self.yz = yz;
        self.zx = zx;
    }

    /// Rescales the rotor to unit magnitude, correcting the drift that
    /// repeated composition accumulates. The zero rotor has no direction and
    /// is excluded.
    pub fn normalize(&mut self)
        requires
            old(self).bounded(),
            old(self).norm2_raw() != 0,
        ensures
            final(self).s == trunc_div(old(self).s * SCALE, old(self).mag_raw()),
            final(self).xy == trunc_div(old(self).xy * SCALE, old(self).mag_raw()),
            final(self).yz == trunc_div(old(self).yz * SCALE, old(self).mag_raw()),
            final(self).zx == trunc_div(old(self).zx * SCALE, old(self).mag_raw()),
            final(self).bounded(),
    {
        proof {
            lemma_mul_bound(self.s as int, self.s as int, MAX_ROTOR as int, MAX_ROTOR as int);
            lemma_mul_bound(self.xy as int, self.xy as int, MAX_ROTOR as int, MAX_ROTOR as int);
            lemma_mul_bound(self.yz as int, self.yz as int, MAX_ROTOR as int, MAX_ROTOR as int);
            lemma_mul_bound(self.zx as int, self.zx as int, MAX_ROTOR as int, MAX_ROTOR as int);
            assert(0 <= (self.s as int) * (self.s as int)) by (nonlinear_arith);
            assert(0 <= (self.xy as int) * (self.xy as int)) by (nonlinear_arith);
            assert(0 <= (self.yz as int) * (self.yz as int)) by (nonlinear_arith);
            assert(0 <= (self.zx as int) * (self.zx as int)) by (nonlinear_arith);
        }
        let n: i128 = (self.s as i128) * (self.s as i128) + (self.xy as i128) * (self.xy as i128)
            + (self.yz as i128) * (self.yz as i128) + (self.zx as i128) * (self.zx as i128);
        let m128 = isqrt(n as u128);
        proof {
            assert(m128 <= 2 * MAX_ROTOR) by (nonlinear_arith)
                requires
                    m128 >= 0,
                    m128 * m128 <= 4 * (MAX_ROTOR as int) * (MAX_ROTOR as int),
                    MAX_ROTOR == 16_000_000i64,
            ;
            let n2 = old(self).norm2_raw();
            assert(m128 >= 1) by (nonlinear_arith)
                requires
                    m128 >= 0,
                    m128 * m128 <= n2,
                    n2 < (m128 + 1) * (m128 + 1),
                    n2 != 0,
                    n2 >= 0,
            ;
        }
        let m = m128 as i64;
        self.s = div_component(self.s, m);
        self.xy = div_component(self.xy, m);
        self.yz = div_component(self.yz, m);
        self.zx = div_component(self.zx, m);
    }

    /// Exports the rotation as a homogeneous 4x4 matrix: the three basis
    /// vectors rotated by this rotor form the columns of the 3x3 block, and
    /// the fourth row and column are identity padding.
    pub fn rotation_mat(&self) -> (r: Mat4)
        requires
            self.bounded(),
        ensures
            r.r0.x == scale_down2(rotor_apply(self.model(), unit_x()).0),
            r.r0.y == scale_down2(rotor_apply(self.model(), unit_y()).0),
            r.r0.z == scale_down2(rotor_apply(self.model(), unit_z()).0),
            r.r0.w == 0,
            r.r1.x == scale_down2(rotor_apply(self.model(), unit_x()).1),
            r.r1.y == scale_down2(rotor_apply(self.model(), unit_y()).1),
            r.r1.z == scale_down2(rotor_apply(self.model(), unit_z()).1),
            r.r1.w == 0,
            r.r2.x == scale_down2(rotor_apply(self.model(), unit_x()).2),
            r.r2.y == scale_down2(rotor_apply(self.model(), unit_y()).2),
            r.r2.z == scale_down2(rotor_apply(self.model(), unit_z()).2),
            r.r2.w == 0,
            r.r3.x == 0,
            r.r3.y == 0,
            r.r3.z == 0,
            r.r3.w == SCALE,
    {
        let new_x = self.rotated_vec(Vec3 { x: SCALE, y: 0, z: 0 });
        let new_y = self.rotated_vec(Vec3 { x: 0, y: SCALE, z: 0 });
        let new_z = self.rotated_vec(Vec3 { x: 0, y: 0, z: SCALE });
        Mat4::new(
            Vec4::new(new_x.x, new_y.x, new_z.x, 0),
            Vec4::new(new_x.y, new_y.y, new_z.y, 0),
            Vec4::new(new_x.z, new_y.z, new_z.z, 0),
            Vec4::new(0, 0, 0, SCALE),
        )
    }
}

/// Bounds on the first stage of the sandwich product.
proof fn lemma_stage_one_bounds(r: (int, int, int, int), v: (int, int, int))
    requires
        -MAX_ROTOR <= r.0 <= MAX_ROTOR,
        -MAX_ROTOR <= r.1 <= MAX_ROTOR,
        -MAX_ROTOR <= r.2 <= MAX_ROTOR,
        -MAX_ROTOR <= r.3 <= MAX_ROTOR,
        -MAX_COORD <= v.0 <= MAX_COORD,
        -MAX_COORD <= v.1 <= MAX_COORD,
        -MAX_COORD <= v.2 <= MAX_COORD,
    ensures
        -3 * (MAX_ROTOR as int) * (MAX_COORD as int) <= r.0 * v.0 + r.1 * v.1 - r.3 * v.2 <= 3
            * (MAX_ROTOR as int) * (MAX_COORD as int),
        -3 * (MAX_ROTOR as int) * (MAX_COORD as int) <= r.0 * v.1 - r.1 * v.0 + r.2 * v.2 <= 3
            * (MAX_ROTOR as int) * (MAX_COORD as int),
        -3 * (MAX_ROTOR as int) * (MAX_COORD as int) <= r.0 * v.2 - r.2 * v.1 + r.3 * v.0 <= 3
            * (MAX_ROTOR as int) * (MAX_COORD as int),
        -3 * (MAX_ROTOR as int) * (MAX_COORD as int) <= r.1 * v.2 + r.2 * v.0 + r.3 * v.1 <= 3
            * (MAX_ROTOR as int) * (MAX_COORD as int),
{
    lemma_mul_bound(r.0, v.0, MAX_ROTOR as int, MAX_COORD as int);
    lemma_mul_bound(r.0, v.1, MAX_ROTOR as int, MAX_COORD as int);
    lemma_mul_bound(r.0, v.2, MAX_ROTOR as int, MAX_COORD as int);
    lemma_mul_bound(r.1, v.0, MAX_ROTOR as int, MAX_COORD as int);
    lemma_mul_bound(r.1, v.1, MAX_ROTOR as int, MAX_COORD as int);
    lemma_mul_bound(r.1, v.2, MAX_ROTOR as int, MAX_COORD as int);
    lemma_mul_bound(r.2, v.0, MAX_ROTOR as int, MAX_COORD as int);
    lemma_mul_bound(r.2, v.1, MAX_ROTOR as int, MAX_COORD as int);
    lemma_mul_bound(r.2, v.2, MAX_ROTOR as int, MAX_COORD as int);
    lemma_mul_bound(r.3, v.0, MAX_ROTOR as int, MAX_COORD as int);
    lemma_mul_bound(r.3, v.1, MAX_ROTOR as int, MAX_COORD as int);
    lemma_mul_bound(r.3, v.2, MAX_ROTOR as int, MAX_COORD as int);
}

/// Bounds on the second stage of the sandwich product, and on the rescaled
/// result.
proof fn lemma_stage_two_bounds(
    r: (int, int, int, int),
    v: (int, int, int),
    tx: int,
    ty: int,
    tz: int,
    txyz: int,
)
    requires
        -MAX_ROTOR <= r.0 <= MAX_ROTOR,
        -MAX_ROTOR <= r.1 <= MAX_ROTOR,
        -MAX_ROTOR <= r.2 <= MAX_ROTOR,
        -MAX_ROTOR <= r.3 <= MAX_ROTOR,
        tx == r.0 * v.0 + r.1 * v.1 - r.3 * v.2,
        ty == r.0 * v.1 - r.1 * v.0 + r.2 * v.2,
        tz == r.0 * v.2 - r.2 * v.1 + r.3 * v.0,
        txyz == r.1 * v.2 + r.2 * v.0 + r.3 * v.1,
        -3 * (MAX_ROTOR as int) * (MAX_COORD as int) <= tx <= 3 * (MAX_ROTOR as int) * (
        MAX_COORD as int),
        -3 * (MAX_ROTOR as int) * (MAX_COORD as int) <= ty <= 3 * (MAX_ROTOR as int) * (
        MAX_COORD as int),
        -3 * (MAX_ROTOR as int) * (MAX_COORD as int) <= tz <= 3 * (MAX_ROTOR as int) * (
        MAX_COORD as int),
        -3 * (MAX_ROTOR as int) * (MAX_COORD as int) <= txyz <= 3 * (MAX_ROTOR as int) * (
        MAX_COORD as int),
    ensures
        rotor_apply(r, v).0 == tx * r.0 + ty * r.1 - tz * r.3 + txyz * r.2,
        rotor_apply(r, v).1 == ty * r.0 - tx * r.1 + tz * r.2 + txyz * r.3,
        rotor_apply(r, v).2 == tz * r.0 + tx * r.3 - ty * r.2 + txyz * r.1,
        -12 * (MAX_ROTOR as int) * (MAX_ROTOR as int) * (MAX_COORD as int) <= tx * r.0 + ty * r.1
            - tz * r.3 + txyz * r.2 <= 12 * (MAX_ROTOR as int) * (MAX_ROTOR as int) * (
        MAX_COORD as int),
        -12 * (MAX_ROTOR as int) * (MAX_ROTOR as int) * (MAX_COORD as int) <= ty * r.0 - tx * r.1
            + tz * r.2 + txyz * r.3 <= 12 * (MAX_ROTOR as int) * (MAX_ROTOR as int) * (
        MAX_COORD as int),
        -12 * (MAX_ROTOR as int) * (MAX_ROTOR as int) * (MAX_COORD as int) <= tz * r.0 + tx * r.3
            - ty * r.2 + txyz * r.1 <= 12 * (MAX_ROTOR as int) * (MAX_ROTOR as int) * (
        MAX_COORD as int),
        in_i64(scale_down2(tx * r.0 + ty * r.1 - tz * r.3 + txyz * r.2)),
        in_i64(scale_down2(ty * r.0 - tx * r.1 + tz * r.2 + txyz * r.3)),
        in_i64(scale_down2(tz * r.0 + tx * r.3 - ty * r.2 + txyz * r.1)),
{
    let stage = 3 * (MAX_ROTOR as int) * (MAX_COORD as int);
    let big = 12 * (MAX_ROTOR as int) * (MAX_ROTOR as int) * (MAX_COORD as int);
    lemma_mul_bound(tx, r.0, stage, MAX_ROTOR as int);
    lemma_mul_bound(tx, r.1, stage, MAX_ROTOR as int);
    lemma_mul_bound(tx, r.3, stage, MAX_ROTOR as int);
    lemma_mul_bound(ty, r.0, stage, MAX_ROTOR as int);
    lemma_mul_bound(ty, r.1, stage, MAX_ROTOR as int);
    lemma_mul_bound(ty, r.2, stage, MAX_ROTOR as int);
    lemma_mul_bound(tz, r.0, stage, MAX_ROTOR as int);
    lemma_mul_bound(tz, r.2, stage, MAX_ROTOR as int);
    lemma_mul_bound(tz, r.3, stage, MAX_ROTOR as int);
    lemma_mul_bound(txyz, r.1, stage, MAX_ROTOR as int);
    lemma_mul_bound(txyz, r.2, stage, MAX_ROTOR as int);
    lemma_mul_bound(txyz, r.3, stage, MAX_ROTOR as int);
    assert(stage * (MAX_ROTOR as int) == 3 * (MAX_ROTOR as int) * (MAX_ROTOR as int) * (
    MAX_COORD as int)) by (nonlinear_arith)
        requires
            stage == 3 * (MAX_ROTOR as int) * (MAX_COORD as int),
    ;
    lemma_trunc_div_bound(
        tx * r.0 + ty * r.1 - tz * r.3 + txyz * r.2,
        SCALE as int * SCALE as int,
        big,
    );
    lemma_trunc_div_bound(
        ty * r.0 - tx * r.1 + tz * r.2 + txyz * r.3,
        SCALE as int * SCALE as int,
        big,
    );
    lemma_trunc_div_bound(
        tz * r.0 + tx * r.3 - ty * r.2 + txyz * r.1,
        SCALE as int * SCALE as int,
        big,
    );
}

/// Bounds on the geometric product of two bounded rotors.
proof fn lemma_product_bounds(a: (int, int, int, int), b: (int, int, int, int))
    requires
        -MAX_ROTOR <= a.0 <= MAX_ROTOR,
        -MAX_ROTOR <= a.1 <= MAX_ROTOR,
        -MAX_ROTOR <= a.2 <= MAX_ROTOR,
        -MAX_ROTOR <= a.3 <= MAX_ROTOR,
        -MAX_ROTOR <= b.0 <= MAX_ROTOR,
        -MAX_ROTOR <= b.1 <= MAX_ROTOR,
        -MAX_ROTOR <= b.2 <= MAX_ROTOR,
        -MAX_ROTOR <= b.3 <= MAX_ROTOR,
    ensures
        -4 * (MAX_ROTOR as int) * (MAX_ROTOR as int) <= rotor_product(a, b).0 <= 4 * (
        MAX_ROTOR as int) * (MAX_ROTOR as int),
        -4 * (MAX_ROTOR as int) * (MAX_ROTOR as int) <= rotor_product(a, b).1 <= 4 * (
        MAX_ROTOR as int) * (MAX_ROTOR as int),
        -4 * (MAX_ROTOR as int) * (MAX_ROTOR as int) <= rotor_product(a, b).2 <= 4 * (
        MAX_ROTOR as int) * (MAX_ROTOR as int),
        -4 * (MAX_ROTOR as int) * (MAX_ROTOR as int) <= rotor_product(a, b).3 <= 4 * (
        MAX_ROTOR as int) * (MAX_ROTOR as int),
        in_i64(scale_down(rotor_product(a, b).0)),
        in_i64(scale_down(rotor_product(a, b).1)),
        in_i64(scale_down(rotor_product(a, b).2)),
        in_i64(scale_down(rotor_product(a, b).3)),
{
    let m = MAX_ROTOR as int;
    lemma_mul_bound(a.0, b.0, m, m);
    lemma_mul_bound(a.0, b.1, m, m);
    lemma_mul_bound(a.0, b.2, m, m);
    lemma_mul_bound(a.0, b.3, m, m);
    lemma_mul_bound(a.1, b.0, m, m);
    lemma_mul_bound(a.1, b.1, m, m);
    lemma_mul_bound(a.1, b.2, m, m);
    lemma_mul_bound(a.1, b.3, m, m);
    lemma_mul_bound(a.2, b.0, m, m);
    lemma_mul_bound(a.2, b.1, m, m);
    lemma_mul_bound(a.2, b.2, m, m);
    lemma_mul_bound(a.2, b.3, m, m);
    lemma_mul_bound(a.3, b.0, m, m);
    lemma_mul_bound(a.3, b.1, m, m);
    lemma_mul_bound(a.3, b.2, m, m);
    lemma_mul_bound(a.3, b.3, m, m);
    lemma_trunc_div_bound(rotor_product(a, b).0, SCALE as int, 4 * m * m);
    lemma_trunc_div_bound(rotor_product(a, b).1, SCALE as int, 4 * m * m);
    lemma_trunc_div_bound(rotor_product(a, b).2, SCALE as int, 4 * m * m);
    lemma_trunc_div_bound(rotor_product(a, b).3, SCALE as int, 4 * m * m);
}

/// The exact integer dot product of two triples.
pub open spec fn dot3(u: (int, int, int), v: (int, int, int)) -> int {
    u.0 * v.0 + u.1 * v.1 + u.2 * v.2
}

/// Law: a rotor built from a vector and itself is a pure scalar rotor,
/// its scalar the vector's raw squared magnitude — no bivector part, so no
/// rotation.
pub proof fn lemma_rotor_of_aligned(a: (int, int, int))
    ensures
        rotor_of_vectors(a, a) == (dot3(a, a), 0int, 0int, 0int),
{
    assert(a.0 * a.1 == a.1 * a.0) by (nonlinear_arith);
    assert(a.1 * a.2 == a.2 * a.1) by (nonlinear_arith);
    assert(a.2 * a.0 == a.0 * a.2) by (nonlinear_arith);
}

/// Law: a pure scalar rotor scales every vector by the square of its
/// scalar; in particular the identity rotor leaves every vector unchanged.
pub proof fn lemma_scalar_rotor_scales(s: int, v: (int, int, int))
    ensures
        rotor_apply((s, 0, 0, 0), v) == (s * s * v.0, s * s * v.1, s * s * v.2),
{
    let w = rotor_apply((s, 0, 0, 0), v);
    assert(w.0 == s * s * v.0 && w.1 == s * s * v.1 && w.2 == s * s * v.2) by (nonlinear_arith)
        requires
            w == rotor_apply((s, 0, 0, 0), v),
            w.0 == (s * v.0 + 0 * v.1 - 0 * v.2) * s + (s * v.1 - 0 * v.0 + 0 * v.2) * 0 - (s
                * v.2 - 0 * v.1 + 0 * v.0) * 0 + (0 * v.2 + 0 * v.0 + 0 * v.1) * 0,
            w.1 == (s * v.1 - 0 * v.0 + 0 * v.2) * s - (s * v.0 + 0 * v.1 - 0 * v.2) * 0 + (s
                * v.2 - 0 * v.1 + 0 * v.0) * 0 + (0 * v.2 + 0 * v.0 + 0 * v.1) * 0,
            w.2 == (s * v.2 - 0 * v.1 + 0 * v.0) * s + (s * v.0 + 0 * v.1 - 0 * v.2) * 0 - (s
                * v.1 - 0 * v.0 + 0 * v.2) * 0 + (0 * v.2 + 0 * v.0 + 0 * v.1) * 0,
    ;
}

/// Law: the identity round trip. Building a rotor from an exactly unit
/// vector and itself gives exactly the identity rotor, and rotating any
/// vector by the identity rotor returns it exactly unchanged, truncation
/// and all: both equalities are over the very spec functions the
/// constructor's and the rotation's contracts use.
pub proof fn lemma_identity_round_trip(a: Vec3, v: Vec3)
    requires
        a.norm2_raw() == (SCALE as int) * (SCALE as int),
    ensures
        scale4_down(rotor_of_vectors(a.model(), a.model())) == ((SCALE as int, 0int, 0int, 0int)),
        scale3_down2(rotor_apply((SCALE as int, 0, 0, 0), v.model())) == v.model(),
{
    lemma_rotor_of_aligned(a.model());
    assert((SCALE as int) * (SCALE as int) == 1_000_000_000_000int) by (nonlinear_arith)
        requires
            SCALE == 1_000_000i64,
    ;
    crate::fixed::lemma_trunc_div_exact(SCALE as int, SCALE as int);
    crate::fixed::lemma_trunc_div_exact(0, SCALE as int);
    lemma_scalar_rotor_scales(SCALE as int, v.model());
    crate::fixed::lemma_trunc_div_exact(v.x as int, (SCALE as int) * (SCALE as int));
    crate::fixed::lemma_trunc_div_exact(v.y as int, (SCALE as int) * (SCALE as int));
    crate::fixed::lemma_trunc_div_exact(v.z as int, (SCALE as int) * (SCALE as int));
}

/// Law: the identity rotor is a two-sided unit of composition, exactly,
/// rescaling included: composing any rotor with the identity returns that
/// rotor unchanged, over the spec functions the composition contract uses.
pub proof fn lemma_identity_composes(b: (int, int, int, int))
    ensures
        scale4_down(rotor_product((SCALE as int, 0, 0, 0), b)) == b,
        scale4_down(rotor_product(b, (SCALE as int, 0, 0, 0))) == b,
{
    assert((SCALE as int) * b.0 == b.0 * (SCALE as int)) by (nonlinear_arith);
    assert((SCALE as int) * b.1 == b.1 * (SCALE as int)) by (nonlinear_arith);
    assert((SCALE as int) * b.2 == b.2 * (SCALE as int)) by (nonlinear_arith);
    assert((SCALE as int) * b.3 == b.3 * (SCALE as int)) by (nonlinear_arith);
    crate::fixed::lemma_trunc_div_exact(b.0, SCALE as int);
    crate::fixed::lemma_trunc_div_exact(b.1, SCALE as int);
    crate::fixed::lemma_trunc_div_exact(b.2, SCALE as int);
    crate::fixed::lemma_trunc_div_exact(b.3, SCALE as int);
}

/// Law: reversing is an involution, and a rotor and its reverse have the
/// same squared magnitude, so inverting never changes how much a rotor
/// scales what it rotates.
pub proof fn lemma_reverse_involution(r: (int, int, int, int))
    ensures
        rotor_reverse(rotor_reverse(r)) == r,
        rotor_norm2(rotor_reverse(r)) == rotor_norm2(r),
{
    assert((-r.1) * (-r.1) == r.1 * r.1) by (nonlinear_arith);
    assert((-r.2) * (-r.2) == r.2 * r.2) by (nonlinear_arith);
    assert((-r.3) * (-r.3) == r.3 * r.3) by (nonlinear_arith);
}

} // verus!
