//! Vectors and 4x4 matrices over fixed-point scalars.

use vstd::prelude::*;
use crate::fixed::{FX_ONE, fx_bounded, fxdiv128, lemma_div_bound};

verus! {

/// An integer pixel coordinate.
#[derive(Clone, Copy, PartialEq, Eq, Structural, Debug)]
pub struct Vec2i {
    pub x: i32,
    pub y: i32,
}

/// A 2-component fixed-point vector.
#[derive(Clone, Copy, PartialEq, Eq, Structural, Debug)]
pub struct Vec2fx {
    pub x: i64,
    pub y: i64,
}

/// A 3-component fixed-point vector.
#[derive(Clone, Copy, PartialEq, Eq, Structural, Debug)]
pub struct Vec3fx {
    pub x: i64,
    pub y: i64,
    pub z: i64,
}

/// A 4-component fixed-point vector: a homogeneous position or an RGBA color.
#[derive(Clone, Copy, PartialEq, Eq, Structural, Debug)]
pub struct Vec4fx {
    pub x: i64,
    pub y: i64,
    pub z: i64,
    pub w: i64,
}

/// A 4x4 fixed-point matrix, held as four rows.
#[derive(Clone, Copy, PartialEq, Eq, Structural, Debug)]
pub struct Mat4 {
    pub r0: Vec4fx,
    pub r1: Vec4fx,
    pub r2: Vec4fx,
    pub r3: Vec4fx,
}

pub open spec fn vec2_bounded(v: Vec2fx, lim: int) -> bool {
    fx_bounded(v.x, lim) && fx_bounded(v.y, lim)
}

pub open spec fn vec3_bounded(v: Vec3fx, lim: int) -> bool {
    fx_bounded(v.x, lim) && fx_bounded(v.y, lim) && fx_bounded(v.z, lim)
}

pub open spec fn vec4_bounded(v: Vec4fx, lim: int) -> bool {
    fx_bounded(v.x, lim) && fx_bounded(v.y, lim) && fx_bounded(v.z, lim) && fx_bounded(v.w, lim)
}

pub open spec fn mat4_bounded(m: Mat4, lim: int) -> bool {
    vec4_bounded(m.r0, lim) && vec4_bounded(m.r1, lim) && vec4_bounded(m.r2, lim)
        && vec4_bounded(m.r3, lim)
}

/// Fixed-point dot product of a matrix row with a column vector.
pub open spec fn s_fxdot4(r: Vec4fx, x: int, y: int, z: int, w: int) -> int {
    (r.x * x + r.y * y + r.z * z + r.w * w) / (FX_ONE as int)
}

/// Fixed-point matrix-times-column-vector product.
pub open spec fn s_mat4_mul_vec4(m: Mat4, v: Vec4fx) -> Vec4fx {
    Vec4fx {
        x: s_fxdot4(m.r0, v.x as int, v.y as int, v.z as int, v.w as int) as i64,
        y: s_fxdot4(m.r1, v.x as int, v.y as int, v.z as int, v.w as int) as i64,
        z: s_fxdot4(m.r2, v.x as int, v.y as int, v.z as int, v.w as int) as i64,
        w: s_fxdot4(m.r3, v.x as int, v.y as int, v.z as int, v.w as int) as i64,
    }
}

/// Fixed-point matrix product, row by column.
pub open spec fn s_mat4_mul(a: Mat4, b: Mat4) -> Mat4 {
    Mat4 {
        r0: (Vec4fx {
            x: s_fxdot4(a.r0, b.r0.x as int, b.r1.x as int, b.r2.x as int, b.r3.x as int) as i64,
            y: s_fxdot4(a.r0, b.r0.y as int, b.r1.y as int, b.r2.y as int, b.r3.y as int) as i64,
            z: s_fxdot4(a.r0, b.r0.z as int, b.r1.z as int, b.r2.z as int, b.r3.z as int) as i64,
            w: s_fxdot4(a.r0, b.r0.w as int, b.r1.w as int, b.r2.w as int, b.r3.w as int) as i64,
        }),
        r1: (Vec4fx {
            x: s_fxdot4(a.r1, b.r0.x as int, b.r1.x as int, b.r2.x as int, b.r3.x as int) as i64,
            y: s_fxdot4(a.r1, b.r0.y as int, b.r1.y as int, b.r2.y as int, b.r3.y as int) as i64,
            z: s_fxdot4(a.r1, b.r0.z as int, b.r1.z as int, b.r2.z as int, b.r3.z as int) as i64,
            w: s_fxdot4(a.r1, b.r0.w as int, b.r1.w as int, b.r2.w as int, b.r3.w as int) as i64,
        }),
        r2: (Vec4fx {
            x: s_fxdot4(a.r2, b.r0.x as int, b.r1.x as int, b.r2.x as int, b.r3.x as int) as i64,
            y: s_fxdot4(a.r2, b.r0.y as int, b.r1.y as int, b.r2.y as int, b.r3.y as int) as i64,
            z: s_fxdot4(a.r2, b.r0.z as int, b.r1.z as int, b.r2.z as int, b.r3.z as int) as i64,
            w: s_fxdot4(a.r2, b.r0.w as int, b.r1.w as int, b.r2.w as int, b.r3.w as int) as i64,
        }),
        r3: (Vec4fx {
            x: s_fxdot4(a.r3, b.r0.x as int, b.r1.x as int, b.r2.x as int, b.r3.x as int) as i64,
            y: s_fxdot4(a.r3, b.r0.y as int, b.r1.y as int, b.r2.y as int, b.r3.y as int) as i64,
            z: s_fxdot4(a.r3, b.r0.z as int, b.r1.z as int, b.r2.z as int, b.r3.z as int) as i64,
            w: s_fxdot4(a.r3, b.r0.w as int, b.r1.w as int, b.r2.w as int, b.r3.w as int) as i64,
        }),
    }
}

/// Fixed-point dot product of a row with a column, with floor rounding.
fn fxdot4(r: &Vec4fx, x: i64, y: i64, z: i64, w: i64, Ghost(lr): Ghost<int>, Ghost(lv): Ghost<int>) -> (d: i64)
    requires
        0 <= lr,
        0 <= lv,
        lr * lv <= 0x4000_0000_0000_0000_0000,
        vec4_bounded(*r, lr),
        fx_bounded(x, lv),
        fx_bounded(y, lv),
        fx_bounded(z, lv),
        fx_bounded(w, lv),
        4 * lr * lv / (FX_ONE as int) + 1 <= i64::MAX,
    ensures
        d == s_fxdot4(*r, x as int, y as int, z as int, w as int),
        fx_bounded(d, 4 * lr * lv / (FX_ONE as int) + 1),
{
    proof {
        assert(-(lr * lv) <= r.x * x <= lr * lv) by (nonlinear_arith)
            requires -lr <= r.x <= lr, -lv <= x <= lv, 0 <= lr, 0 <= lv;
        assert(-(lr * lv) <= r.y * y <= lr * lv) by (nonlinear_arith)
            requires -lr <= r.y <= lr, -lv <= y <= lv, 0 <= lr, 0 <= lv;
        assert(-(lr * lv) <= r.z * z <= lr * lv) by (nonlinear_arith)
            requires -lr <= r.z <= lr, -lv <= z <= lv, 0 <= lr, 0 <= lv;
        assert(-(lr * lv) <= r.w * w <= lr * lv) by (nonlinear_arith)
            requires -lr <= r.w <= lr, -lv <= w <= lv, 0 <= lr, 0 <= lv;
    }
    let s: i128 = r.x as i128 * x as i128 + r.y as i128 * y as i128 + r.z as i128 * z as i128
        + r.w as i128 * w as i128;
    let q = fxdiv128(s, FX_ONE as i128);
    proof {
        let one = FX_ONE as int;
        let p = lr * lv;
        assert(4 * lr * lv == 4 * p) by (nonlinear_arith)
            requires p == lr * lv;
        let m = 4 * lr * lv / one + 1;
        vstd::arithmetic::div_mod::lemma_fundamental_div_mod(4 * p, one);
        vstd::arithmetic::div_mod::lemma_mod_bound(4 * p, one);
        assert(-(m * one) <= s as int <= m * one) by (nonlinear_arith)
            requires
                -(4 * p) <= s as int <= 4 * p,
                m == 4 * p / one + 1,
                4 * p == one * (4 * p / one) + (4 * p) % one,
                0 <= (4 * p) % one < one;
        lemma_div_bound(s as int, one, m);
    }
    q as i64
}

/// Matrix-times-column-vector product.
pub(crate) fn mat4_mul_vec4(m: &Mat4, v: &Vec4fx, Ghost(lm): Ghost<int>, Ghost(lv): Ghost<int>) -> (r: Vec4fx)
    requires
        0 <= lm,
        0 <= lv,
        lm * lv <= 0x4000_0000_0000_0000_0000,
        mat4_bounded(*m, lm),
        vec4_bounded(*v, lv),
        4 * lm * lv / (FX_ONE as int) + 1 <= i64::MAX,
    ensures
        r == s_mat4_mul_vec4(*m, *v),
        vec4_bounded(r, 4 * lm * lv / (FX_ONE as int) + 1),
{
    Vec4fx {
        x: fxdot4(&m.r0, v.x, v.y, v.z, v.w, Ghost(lm), Ghost(lv)),
        y: fxdot4(&m.r1, v.x, v.y, v.z, v.w, Ghost(lm), Ghost(lv)),
        z: fxdot4(&m.r2, v.x, v.y, v.z, v.w, Ghost(lm), Ghost(lv)),
        w: fxdot4(&m.r3, v.x, v.y, v.z, v.w, Ghost(lm), Ghost(lv)),
    }
}

/// Matrix product.
pub(crate) fn mat4_mul(a: &Mat4, b: &Mat4, Ghost(la): Ghost<int>, Ghost(lb): Ghost<int>) -> (r: Mat4)
    requires
        0 <= la,
        0 <= lb,
        la * lb <= 0x4000_0000_0000_0000_0000,
        mat4_bounded(*a, la),
        mat4_bounded(*b, lb),
        4 * la * lb / (FX_ONE as int) + 1 <= i64::MAX,
    ensures
        r == s_mat4_mul(*a, *b),
        mat4_bounded(r, 4 * la * lb / (FX_ONE as int) + 1),
{
    Mat4 {
        r0: (Vec4fx {
            x: fxdot4(&a.r0, b.r0.x, b.r1.x, b.r2.x, b.r3.x, Ghost(la), Ghost(lb)),
            y: fxdot4(&a.r0, b.r0.y, b.r1.y, b.r2.y, b.r3.y, Ghost(la), Ghost(lb)),
            z: fxdot4(&a.r0, b.r0.z, b.r1.z, b.r2.z, b.r3.z, Ghost(la), Ghost(lb)),
            w: fxdot4(&a.r0, b.r0.w, b.r1.w, b.r2.w, b.r3.w, Ghost(la), Ghost(lb)),
        }),
        r1: (Vec4fx {
            x: fxdot4(&a.r1, b.r0.x, b.r1.x, b.r2.x, b.r3.x, Ghost(la), Ghost(lb)),
            y: fxdot4(&a.r1, b.r0.y, b.r1.y, b.r2.y, b.r3.y, Ghost(la), Ghost(lb)),
            z: fxdot4(&a.r1, b.r0.z, b.r1.z, b.r2.z, b.r3.z, Ghost(la), Ghost(lb)),
            w: fxdot4(&a.r1, b.r0.w, b.r1.w, b.r2.w, b.r3.w, Ghost(la), Ghost(lb)),
        }),
        r2: (Vec4fx {
            x: fxdot4(&a.r2, b.r0.x, b.r1.x, b.r2.x, b.r3.x, Ghost(la), Ghost(lb)),
            y: fxdot4(&a.r2, b.r0.y, b.r1.y, b.r2.y, b.r3.y, Ghost(la), Ghost(lb)),
            z: fxdot4(&a.r2, b.r0.z, b.r1.z, b.r2.z, b.r3.z, Ghost(la), Ghost(lb)),
            w: fxdot4(&a.r2, b.r0.w, b.r1.w, b.r2.w, b.r3.w, Ghost(la), Ghost(lb)),
        }),
        r3: (Vec4fx {
            x: fxdot4(&a.r3, b.r0.x, b.r1.x, b.r2.x, b.r3.x, Ghost(la), Ghost(lb)),
            y: fxdot4(&a.r3, b.r0.y, b.r1.y, b.r2.y, b.r3.y, Ghost(la), Ghost(lb)),
            z: fxdot4(&a.r3, b.r0.z, b.r1.z, b.r2.z, b.r3.z, Ghost(la), Ghost(lb)),
            w: fxdot4(&a.r3, b.r0.w, b.r1.w, b.r2.w, b.r3.w, Ghost(la), Ghost(lb)),
        }),
    }
}

/// The spec-level identity matrix.
pub open spec fn s_mat4_identity() -> Mat4 {
    Mat4 {
        r0: (Vec4fx { x: FX_ONE, y: 0, z: 0, w: 0 }),
        r1: (Vec4fx { x: 0, y: FX_ONE, z: 0, w: 0 }),
        r2: (Vec4fx { x: 0, y: 0, z: FX_ONE, w: 0 }),
        r3: (Vec4fx { x: 0, y: 0, z: 0, w: FX_ONE }),
    }
}

/// The identity matrix.
pub fn mat4_identity() -> (r: Mat4)
    ensures
        r == s_mat4_identity(),
        mat4_bounded(r, FX_ONE as int),
{
    Mat4 {
        r0: (Vec4fx { x: FX_ONE, y: 0, z: 0, w: 0 }),
        r1: (Vec4fx { x: 0, y: FX_ONE, z: 0, w: 0 }),
        r2: (Vec4fx { x: 0, y: 0, z: FX_ONE, w: 0 }),
        r3: (Vec4fx { x: 0, y: 0, z: 0, w: FX_ONE }),
    }
}

/// The spec-level uniform scale matrix: `s` scales x, y and z; w is kept.
pub open spec fn s_mat4_from_scale(s: i64) -> Mat4 {
    Mat4 {
        r0: (Vec4fx { x: s, y: 0, z: 0, w: 0 }),
        r1: (Vec4fx { x: 0, y: s, z: 0, w: 0 }),
        r2: (Vec4fx { x: 0, y: 0, z: s, w: 0 }),
        r3: (Vec4fx { x: 0, y: 0, z: 0, w: FX_ONE }),
    }
}

/// A uniform scale matrix from a fixed-point factor.
pub fn mat4_from_scale(s: i64) -> (r: Mat4)
    ensures
        r == s_mat4_from_scale(s),
{
    Mat4 {
        r0: (Vec4fx { x: s, y: 0, z: 0, w: 0 }),
        r1: (Vec4fx { x: 0, y: s, z: 0, w: 0 }),
        r2: (Vec4fx { x: 0, y: 0, z: s, w: 0 }),
        r3: (Vec4fx { x: 0, y: 0, z: 0, w: FX_ONE }),
    }
}

} // verus!
