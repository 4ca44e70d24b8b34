//! The scalar layer: fixed-point raw values, truncating rescaling division,
//! and the integer square root that magnitudes are built on.

use vstd::arithmetic::div_mod::{
    lemma_div_is_ordered, lemma_div_multiples_vanish, lemma_div_nonincreasing,
    lemma_div_pos_is_pos,
};
use vstd::prelude::*;

verus! {

/// Raw units per whole unit: a value `v` is stored as the `i64` nearest to
/// `v * SCALE`, so the resolution is one millionth.
pub const SCALE: i64 = 1_000_000;

/// Largest coordinate magnitude (in raw units, about 1.1e6 whole units) that
/// the vector and matrix operations accept. The bound leaves enough headroom
/// that every 128-bit product and sum below stays exact.
pub const MAX_COORD: i64 = 1_099_511_627_776;

/// Half the width of the dot-product band around minus one whole unit
/// within which two unit vectors count as antiparallel: one part in a
/// hundred thousand of `SCALE`.
pub const FLIP_TOL: i64 = 10;

/// Largest rotor component magnitude (in raw units, 16 whole units) that the
/// rotor operations accept. Unit rotors have components of at most one whole
/// unit; the headroom covers drift accumulated before a renormalization.
pub const MAX_ROTOR: i64 = 16_000_000;

/// Whether a mathematical integer fits in an `i64`.
pub open spec fn in_i64(n: int) -> bool {
    i64::MIN <= n <= i64::MAX
}

/// The absolute value of a mathematical integer.
pub open spec fn iabs(n: int) -> int {
    if n >= 0 {
        n
    } else {
        -n
    }
}

/// Quotient of `n` by positive `d`, rounded toward zero. This is the rounding
/// every executable rescaling division below performs.
pub open spec fn trunc_div(n: int, d: int) -> int {
    if n >= 0 {
        n / d
    } else {
        -((-n) / d)
    }
}

/// Truncating quotient for a divisor of either sign, as the machine division
/// computes it.
pub open spec fn trunc_div_signed(n: int, d: int) -> int {
    if d >= 0 {
        trunc_div(n, d)
    } else {
        trunc_div(-n, -d)
    }
}

/// A product of two raw values, scaled back down to raw units.
pub open spec fn scale_down(n: int) -> int {
    trunc_div(n, SCALE as int)
}

/// A product of three raw values, scaled back down to raw units.
pub open spec fn scale_down2(n: int) -> int {
    trunc_div(n, SCALE as int * SCALE as int)
}

/// The floor of the square root of `n`: the unique `r >= 0` with
/// `r * r <= n < (r + 1) * (r + 1)` (for `n >= 0`).
pub open spec fn sqrt_floor(n: int) -> int {
    choose|r: int| r >= 0 && #[trigger] (r * r) <= n && n < (r + 1) * (r + 1)
}

/// A witness satisfying the floor-square-root property pins `sqrt_floor`
/// down: the property has exactly one root.
pub proof fn lemma_sqrt_floor_is(n: int, r: int)
    requires
        r >= 0,
        r * r <= n,
        n < (r + 1) * (r + 1),
    ensures
        sqrt_floor(n) == r,
{
    assert(exists|c: int| c >= 0 && #[trigger] (c * c) <= n && n < (c + 1) * (c + 1)) by {
        assert(r >= 0 && r * r <= n && n < (r + 1) * (r + 1));
    }
    let c = sqrt_floor(n);
    assert(c >= 0 && c * c <= n && n < (c + 1) * (c + 1));
    assert(c == r) by (nonlinear_arith)
        requires
            c >= 0,
            r >= 0,
            c * c <= n,
            n < (c + 1) * (c + 1),
            r * r <= n,
            n < (r + 1) * (r + 1),
    ;
}

/// Interval bound on a product from interval bounds on its factors.
pub proof fn lemma_mul_bound(a: int, b: int, ba: int, bb: int)
    by (nonlinear_arith)
    requires
        -ba <= a <= ba,
        -bb <= b <= bb,
    ensures
        -(ba * bb) <= a * b <= ba * bb,
{
}

/// Truncating division is an odd function of the dividend.
pub proof fn lemma_trunc_div_neg(n: int, d: int)
    requires
        d > 0,
    ensures
        trunc_div(-n, d) == -trunc_div(n, d),
{
}

/// A dividend bounded by `b` gives a truncating quotient bounded by `b / d`,
/// and in particular by `b` itself.
pub proof fn lemma_trunc_div_bound(n: int, d: int, b: int)
    requires
        d > 0,
        0 <= b,
        -b <= n <= b,
    ensures
        -(b / d) <= trunc_div(n, d) <= b / d,
        -b <= trunc_div(n, d) <= b,
{
    lemma_div_nonincreasing(b, d);
    lemma_div_pos_is_pos(b, d);
    if n >= 0 {
        lemma_div_pos_is_pos(n, d);
        lemma_div_is_ordered(n, b, d);
    } else {
        lemma_div_pos_is_pos(-n, d);
        lemma_div_is_ordered(-n, b, d);
    }
}

/// A multiple of the divisor divides exactly, with no rounding.
pub proof fn lemma_trunc_div_exact(a: int, d: int)
    requires
        d > 0,
    ensures
        trunc_div(a * d, d) == a,
{
    if a >= 0 {
        assert(a * d >= 0) by (nonlinear_arith)
            requires
                a >= 0,
                d > 0,
        ;
        assert(a * d == d * a) by (nonlinear_arith);
        lemma_div_multiples_vanish(a, d);
    } else {
        assert(a * d < 0) by (nonlinear_arith)
            requires
                a < 0,
                d > 0,
        ;
        assert(-(a * d) == d * (-a)) by (nonlinear_arith);
        lemma_div_multiples_vanish(-a, d);
    }
}

/// Truncating division of a 128-bit accumulator by a positive divisor.
pub(crate) fn div_trunc(n: i128, d: i128) -> (q: i128)
    requires
        0 < d,
        i128::MIN < n,
    ensures
        q == trunc_div(n as int, d as int),
{
    if n >= 0 {
        let uq: u128 = (n as u128) / (d as u128);
        proof {
            lemma_div_nonincreasing(n as int, d as int);
            lemma_div_pos_is_pos(n as int, d as int);
        }
        uq as i128
    } else {
        let uq: u128 = ((-n) as u128) / (d as u128);
        proof {
            lemma_div_nonincreasing(-n as int, d as int);
            lemma_div_pos_is_pos(-n as int, d as int);
        }
        -(uq as i128)
    }
}

/// Truncating division of a 128-bit accumulator by a nonzero divisor of
/// either sign.
pub(crate) fn div_trunc_signed(n: i128, d: i128) -> (q: i128)
    requires
        d != 0,
        i128::MIN < n,
        i128::MIN < d,
    ensures
        q == trunc_div_signed(n as int, d as int),
{
    if d > 0 {
        div_trunc(n, d)
    } else {
        div_trunc(-n, -d)
    }
}

/// Scales a 128-bit accumulator holding one product of raw values back down
/// to a raw value.
pub(crate) fn rescale(n: i128) -> (r: i64)
    requires
        i128::MIN < n,
        in_i64(scale_down(n as int)),
    ensures
        r == scale_down(n as int),
{
    let q = div_trunc(n, SCALE as i128);
    q as i64
}

/// Scales a 128-bit accumulator holding one product of three raw values back
/// down to a raw value.
pub(crate) fn rescale2(n: i128) -> (r: i64)
    requires
        i128::MIN < n,
        in_i64(scale_down2(n as int)),
    ensures
        r == scale_down2(n as int),
{
    let q = div_trunc(n, (SCALE as i128) * (SCALE as i128));
    q as i64
}

/// One coordinate of a normalization: `c * SCALE / m` rounded toward zero,
/// where `m` is the raw magnitude of the whole vector the coordinate belongs
/// to (so the result is within one whole unit).
pub(crate) fn div_component(c: i64, m: i64) -> (r: i64)
    requires
        1 <= m,
        c * c < (m + 1) * (m + 1),
    ensures
        r == trunc_div(c * SCALE, m as int),
        -SCALE <= r <= SCALE,
{
    proof {
        lemma_div_component(c as int, m as int);
        lemma_mul_bound(c as int, SCALE as int, m as int, SCALE as int);
    }
    let q = div_trunc((c as i128) * (SCALE as i128), m as i128);
    q as i64
}

/// A coordinate whose square is below `(m + 1) * (m + 1)` gives a scaled
/// quotient within one whole unit.
proof fn lemma_div_component(c: int, m: int)
    requires
        1 <= m,
        c * c < (m + 1) * (m + 1),
    ensures
        -m <= c <= m,
        -SCALE <= trunc_div(c * SCALE, m) <= SCALE,
{
    assert(-m <= c <= m) by (nonlinear_arith)
        requires
            1 <= m,
            c * c < (m + 1) * (m + 1),
    ;
    assert(-(m * SCALE) <= c * SCALE <= m * SCALE) by (nonlinear_arith)
        requires
            -m <= c <= m,
            0 < SCALE,
    ;
    lemma_trunc_div_bound(c * SCALE, m, m * SCALE);
    lemma_trunc_div_exact(SCALE as int, m);
}

/// One coordinate of a scalar division: `c * SCALE / k` rounded toward zero.
pub(crate) fn div_scaled_by(c: i64, k: i64) -> (r: i64)
    requires
        -MAX_COORD <= c <= MAX_COORD,
        k != 0,
    ensures
        r == trunc_div_signed(c * SCALE, k as int),
{
    proof {
        lemma_mul_bound(c as int, SCALE as int, MAX_COORD as int, SCALE as int);
        if k as int >= 0 {
            lemma_trunc_div_bound(c * SCALE, k as int, (MAX_COORD as int) * (SCALE as int));
        } else {
            lemma_trunc_div_bound(-(c * SCALE), -(k as int), (MAX_COORD as int) * (SCALE as int));
        }
    }
    let q = div_trunc_signed((c as i128) * (SCALE as i128), k as i128);
    q as i64
}

/// Floor of the square root: the unique `r >= 0` with
/// `r * r <= n < (r + 1) * (r + 1)`.
pub fn isqrt(n: u128) -> (r: u128)
    ensures
        r * r <= n < (r + 1) * (r + 1),
        r == sqrt_floor(n as int),
{
    let r = isqrt_search(n);
    proof {
        lemma_sqrt_floor_is(n as int, r as int);
    }
    r
}

/// Binary search for the floor square root.
fn isqrt_search(n: u128) -> (r: u128)
    ensures
        r * r <= n < (r + 1) * (r + 1),
{
    if n == 0 {
        return 0;
    }
    let mut lo: u128 = 0;
    let mut hi: u128 = 18_446_744_073_709_551_616;
    proof {
        assert(n < hi * hi) by (nonlinear_arith)
            requires
                n <= u128::MAX,
                hi == 18_446_744_073_709_551_616u128,
        ;
    }
    while lo + 1 < hi
        invariant
            lo < hi,
            hi <= 18_446_744_073_709_551_616,
            lo * lo <= n,
            n < hi * hi,
        decreases hi - lo,
    {
        let mid = lo + (hi - lo) / 2;
        proof {
            assert(mid * mid <= u128::MAX) by (nonlinear_arith)
                requires
                    mid < 18_446_744_073_709_551_616u128,
            ;
        }
        if mid * mid <= n {
            lo = mid;
        } else {
            hi = mid;
        }
    }
    lo
}

} // verus!
