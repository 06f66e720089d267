//! Fixed-point scalars: an `i64` carries a real number scaled by `FX_ONE`.
//! All rounding in the library is floor rounding, provided by `fxdiv128`.

use vstd::prelude::*;
use vstd::arithmetic::div_mod::{
    lemma_fundamental_div_mod, lemma_fundamental_div_mod_converse, lemma_div_is_ordered,
    lemma_mod_bound,
};

verus! {

/// One unit of the fixed-point scale (16 fractional bits).
pub const FX_ONE: i64 = 65536;

/// Twice the fixed-point unit; divisor of the screen-to-pixel mapping.
pub const FX_TWO: i64 = 131072;

/// Bound on clip-space components accepted by the rasterization stage (2^52).
pub const CLIP_LIM: i64 = 4503599627370496;

/// Saturation bound for mapped pixel coordinates (2^29).
pub const PIX_LIM: i64 = 536870912;

/// Bound on the view and projection matrix entries (2^24, i.e. 256.0).
pub const MAT_IN_LIM: i64 = 16777216;

/// Bound on model vertex components (2^24, i.e. 256.0).
pub const VTX_LIM: i64 = 16777216;

/// Bound on the entries of the combined transform matrix (2^41).
pub const COMB_LIM: i64 = 2199023255552;

/// Far plane of the depth range: interpolated depth is clamped to
/// `[0, DEPTH_FAR_FX]` before scaling to the full `u32` range.
pub const DEPTH_FAR_FX: i64 = 65536000;

/// Screen coordinate assigned to a vertex at or behind the camera plane (2^40).
pub const SCREEN_FAR: i64 = 1099511627776;

/// Largest width or height of a frame buffer.
pub const DIM_MAX: u32 = 16384;

pub open spec fn fx_bounded(v: i64, lim: int) -> bool {
    -lim <= v && v <= lim
}

/// Floor division with a positive divisor, on `i128`.
pub fn fxdiv128(a: i128, b: i128) -> (r: i128)
    requires
        b > 0,
        a > i128::MIN,
    ensures
        r == a as int / b as int,
{
    if a >= 0 {
        let q = (a as u128) / (b as u128);
        q as i128
    } else {
        let na = (-a) as u128;
        let bu = b as u128;
        let q = (na + (bu - 1)) / bu;
        proof {
            lemma_ceil_neg_div(-a as int, b as int);
            // q is at most the magnitude of a, so it fits in i128
            lemma_fundamental_div_mod_converse((-a as int) * b + (b - 1), b as int, -a as int, b - 1);
            assert((-a as int) + (b - 1) <= (-a as int) * b + (b - 1)) by (nonlinear_arith)
                requires -a as int >= 1, b >= 1;
            lemma_div_is_ordered((-a as int) + (b - 1), (-a as int) * b + (b - 1), b as int);
        }
        -(q as i128)
    }
}

/// Floor division of a negative value equals the negated ceiling division
/// of its magnitude: `(-m) / b == -((m + b - 1) / b)` for `m > 0, b > 0`.
proof fn lemma_ceil_neg_div(m: int, b: int)
    requires
        m > 0,
        b > 0,
    ensures
        (-m) / b == -((m + b - 1) / b),
{
    let d = m / b;
    let r = m % b;
    lemma_fundamental_div_mod(m, b);
    lemma_mod_bound(m, b);
    assert(m == d * b + r) by (nonlinear_arith)
        requires m == b * d + r;
    if r == 0 {
        lemma_fundamental_div_mod_converse(m + b - 1, b, d, b - 1);
        assert(-m == (-d) * b + 0) by (nonlinear_arith)
            requires m == d * b;
        lemma_fundamental_div_mod_converse(-m, b, -d, 0);
    } else {
        assert(m + b - 1 == (d + 1) * b + (r - 1)) by (nonlinear_arith)
            requires m == d * b + r;
        lemma_fundamental_div_mod_converse(m + b - 1, b, d + 1, r - 1);
        assert(-m == (-d - 1) * b + (b - r)) by (nonlinear_arith)
            requires m == d * b + r;
        lemma_fundamental_div_mod_converse(-m, b, -d - 1, b - r);
    }
}

/// An exact multiple divides exactly.
pub proof fn lemma_div_exact(k: int, d: int)
    requires
        d > 0,
    ensures
        (k * d) / d == k,
{
    lemma_fundamental_div_mod_converse(k * d, d, k, 0);
}

/// The sum of three floors is at most the floor of the sum.
pub proof fn lemma_div_sum3_le(a: int, b: int, c: int, d: int)
    requires
        d > 0,
        a >= 0,
        b >= 0,
        c >= 0,
    ensures
        a / d + b / d + c / d <= (a + b + c) / d,
{
    lemma_fundamental_div_mod(a, d);
    lemma_fundamental_div_mod(b, d);
    lemma_fundamental_div_mod(c, d);
    lemma_mod_bound(a, d);
    lemma_mod_bound(b, d);
    lemma_mod_bound(c, d);
    let q = a / d + b / d + c / d;
    let s = a % d + b % d + c % d;
    lemma_fundamental_div_mod(s, d);
    lemma_mod_bound(s, d);
    assert(a + b + c == (q + s / d) * d + s % d) by (nonlinear_arith)
        requires
            a == d * (a / d) + a % d,
            b == d * (b / d) + b % d,
            c == d * (c / d) + c % d,
            s == d * (s / d) + s % d,
            q == a / d + b / d + c / d,
            s == a % d + b % d + c % d;
    lemma_fundamental_div_mod_converse(a + b + c, d, q + s / d, s % d);
    assert(s / d >= 0) by {
        lemma_div_is_ordered(0, s, d);
        assert(0int / d == 0) by {
            lemma_fundamental_div_mod_converse(0, d, 0, 0);
        }
    }
}

/// Floor division keeps integer bounds: if `-(m * d) <= a <= m * d` then
/// `-m <= a / d <= m`.
pub proof fn lemma_div_bound(a: int, d: int, m: int)
    requires
        d > 0,
        m >= 0,
        -(m * d) <= a,
        a <= m * d,
    ensures
        -m <= a / d,
        a / d <= m,
{
    lemma_div_is_ordered(a, m * d, d);
    lemma_div_is_ordered(-(m * d), a, d);
    lemma_div_exact(m, d);
    assert((-m) * d == -(m * d)) by (nonlinear_arith);
    lemma_div_exact(-m, d);
}

} // verus!
