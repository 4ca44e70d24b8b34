//! Fixed-point linear algebra primitives: 2/3/4-component vectors, square
//! matrices, and a rotor type (a geometric-algebra representation of 3D
//! rotations) with verified arithmetic.
//!
//! Every quantity is carried as a signed 64-bit count of raw units, with
//! [`fixed::SCALE`] raw units to one whole unit. Every operation's contract
//! states the exact result, including the rounding of the one truncating
//! division that follows a multiplication, and algebraic laws of the vector
//! and rotor calculus are proved over the unbounded integer model of those
//! formulas.

pub mod fixed;
pub mod vec2;
pub mod vec3;
pub mod vec4;
pub mod mat2;
pub mod mat3;
pub mod mat4;
pub mod rotor3;
