//! Laws of the rasterization model, proved over the same spec functions the
//! pipeline's contracts use.

use vstd::prelude::*;
use crate::fixed::{FX_ONE, DEPTH_FAR_FX, lemma_div_exact};
use crate::math::Vec4fx;
use crate::rasterizer::{
    Blend, Shader, Rgba, s_blend_ch, s_tri_area, s_tri_in_box, s_tri_covered, s_tri_depth_at,
    s_tri_writes, s_tri_depth_buf, s_tri_color_buf, s_tri_rgba, s_clamp_depth,
    lemma_pixel_index, Depth,
};
use crate::shaders::{Color, Uv};
use vstd::arithmetic::div_mod::lemma_div_is_ordered;

verus! {

/// A channel blended with a full weight on its first value and zero on the
/// others is returned exactly.
pub proof fn lemma_blend_ch_identity(a: int, b: int, c: int)
    ensures
        s_blend_ch(a, FX_ONE as int, b, 0, c, 0) == a,
{
    assert(a * (FX_ONE as int) + b * 0 + c * 0 == a * (FX_ONE as int)) by (nonlinear_arith);
    lemma_div_exact(a, FX_ONE as int);
}

/// Barycentric identity for texture coordinates:
/// `blend(A, 1.0, B, 0.0, C, 0.0)` equals `A` exactly.
pub proof fn lemma_uv_blend_identity(a: Uv, b: Uv, c: Uv)
    ensures
        Uv::blend_spec(a, FX_ONE, b, 0, c, 0) == a,
{
    lemma_blend_ch_identity(a.0.x as int, b.0.x as int, c.0.x as int);
    lemma_blend_ch_identity(a.0.y as int, b.0.y as int, c.0.y as int);
}

/// Barycentric identity for colors: `blend(A, 1.0, B, 0.0, C, 0.0)` equals
/// `A` exactly.
pub proof fn lemma_color_blend_identity(a: Color, b: Color, c: Color)
    ensures
        Color::blend_spec(a, FX_ONE, b, 0, c, 0) == a,
{
    lemma_blend_ch_identity(a.0.x as int, b.0.x as int, c.0.x as int);
    lemma_blend_ch_identity(a.0.y as int, b.0.y as int, c.0.y as int);
    lemma_blend_ch_identity(a.0.z as int, b.0.z as int, c.0.z as int);
}

/// Barycentric identity for interpolated depths.
pub proof fn lemma_depth_blend_identity(a: Depth, b: Depth, c: Depth)
    ensures
        Depth::blend_spec(a, FX_ONE, b, 0, c, 0) == a,
{
    lemma_blend_ch_identity(a.0 as int, b.0 as int, c.0 as int);
}

/// The depth value of any pixel lies in the `u32` range.
pub proof fn lemma_depth_at_range(a: Vec4fx, b: Vec4fx, c: Vec4fx, w: int, h: int, x: int, y: int)
    ensures
        0 <= s_tri_depth_at(a, b, c, w, h, x, y) <= 0xFFFF_FFFF,
{
    let area = s_tri_area(a, b, c, w, h);
    let dfx = Depth::blend_spec(
        Depth(a.z),
        crate::rasterizer::s_w_fx(crate::rasterizer::s_tri_w2(a, b, c, w, h, x, y), area) as i64,
        Depth(b.z),
        crate::rasterizer::s_w_fx(crate::rasterizer::s_tri_w3(a, b, c, w, h, x, y), area) as i64,
        Depth(c.z),
        crate::rasterizer::s_w_fx(crate::rasterizer::s_tri_w1(a, b, c, w, h, x, y), area) as i64,
    ).0;
    let dc = s_clamp_depth(dfx as int);
    let m = 0xFFFF_FFFFint;
    let far = DEPTH_FAR_FX as int;
    assert(0 <= dc <= far);
    assert(0 * far <= dc * m <= m * far) by (nonlinear_arith)
        requires 0 <= dc <= far, m > 0;
    lemma_div_is_ordered(0, dc * m, far);
    lemma_div_exact(0, far);
    lemma_div_is_ordered(dc * m, m * far, far);
    lemma_div_exact(m, far);
}

/// Depth-test idempotence: filling the same triangle a second time changes
/// neither buffer, because the second pass fails the strict depth test at
/// every pixel it would otherwise write.
pub proof fn lemma_tri_idempotent<S: Shader>(
    shader: S,
    d: Seq<u32>, cb: Seq<Rgba>,
    a: Vec4fx, b: Vec4fx, c: Vec4fx,
    aa: S::A, ab: S::A, ac: S::A,
    w: int, h: int,
)
    requires
        cb.len() == d.len(),
    ensures
        ({
            let d1 = s_tri_depth_buf(d, a, b, c, w, h);
            let c1 = s_tri_color_buf(shader, cb, d, a, b, c, aa, ab, ac, w, h);
            s_tri_depth_buf(d1, a, b, c, w, h) == d1
                && s_tri_color_buf(shader, c1, d1, a, b, c, aa, ab, ac, w, h) == c1
        }),
{
    let d1 = s_tri_depth_buf(d, a, b, c, w, h);
    let c1 = s_tri_color_buf(shader, cb, d, a, b, c, aa, ab, ac, w, h);
    let d2 = s_tri_depth_buf(d1, a, b, c, w, h);
    let c2 = s_tri_color_buf(shader, c1, d1, a, b, c, aa, ab, ac, w, h);
    assert forall|i: int| 0 <= i < d.len() implies d2[i] == d1[i] && c2[i] == c1[i] by {
        let dat = s_tri_depth_at(a, b, c, w, h, i % w, i / w);
        if s_tri_writes(a, b, c, w, h, d[i] as int, i % w, i / w) {
            assert(d1[i] as int == dat);
            assert(!s_tri_writes(a, b, c, w, h, d1[i] as int, i % w, i / w));
        } else {
            assert(d1[i] == d[i]);
        }
    }
    assert(d2 =~= d1);
    assert(c2 =~= c1);
}

/// A degenerate or back-facing triangle (mapped signed area not positive,
/// which covers three collinear corners) produces zero pixel writes.
pub proof fn lemma_degenerate_no_writes<S: Shader>(
    shader: S,
    d: Seq<u32>, cb: Seq<Rgba>,
    a: Vec4fx, b: Vec4fx, c: Vec4fx,
    aa: S::A, ab: S::A, ac: S::A,
    w: int, h: int,
)
    requires
        s_tri_area(a, b, c, w, h) <= 0,
    ensures
        s_tri_depth_buf(d, a, b, c, w, h) == d,
        s_tri_color_buf(shader, cb, d, a, b, c, aa, ab, ac, w, h) == cb,
{
    let d1 = s_tri_depth_buf(d, a, b, c, w, h);
    let c1 = s_tri_color_buf(shader, cb, d, a, b, c, aa, ab, ac, w, h);
    assert forall|i: int| 0 <= i < d.len() implies d1[i] == d[i] by {
        assert(!s_tri_writes(a, b, c, w, h, d[i] as int, i % w, i / w));
    }
    assert forall|i: int| 0 <= i < cb.len() implies c1[i] == cb[i] by {
        assert(!s_tri_writes(a, b, c, w, h, d[i] as int, i % w, i / w));
    }
    assert(d1 =~= d);
    assert(c1 =~= cb);
}

/// Into a cleared depth buffer, a scanned, covered pixel of a front-facing
/// triangle ends with exactly the interpolated depth of the three corners.
pub proof fn lemma_covered_pixel_depth(
    d: Seq<u32>,
    a: Vec4fx, b: Vec4fx, c: Vec4fx,
    w: int, h: int, x: int, y: int,
)
    requires
        0 < w,
        0 < h,
        d.len() == w * h,
        forall|i: int| 0 <= i < d.len() ==> d[i] == u32::MAX,
        s_tri_area(a, b, c, w, h) > 0,
        s_tri_in_box(a, b, c, w, h, x, y),
        s_tri_covered(a, b, c, w, h, x, y),
    ensures
        s_tri_depth_buf(d, a, b, c, w, h)[x + w * y] as int == s_tri_depth_at(a, b, c, w, h, x, y),
{
    assert(0 <= x < w && 0 <= y < h);
    assert(0 <= x + w * y < w * h) by (nonlinear_arith)
        requires 0 <= x < w, 0 <= y < h;
    lemma_pixel_index(w, x, y);
    lemma_depth_at_range(a, b, c, w, h, x, y);
    let i = x + w * y;
    let dat = s_tri_depth_at(a, b, c, w, h, x, y);
    if dat < u32::MAX as int {
        assert(s_tri_writes(a, b, c, w, h, d[i] as int, x, y));
    } else {
        assert(dat == u32::MAX as int);
        assert(s_tri_depth_buf(d, a, b, c, w, h)[i] == d[i]);
    }
}

/// Visibility ordering: with a cleared depth buffer, at a pixel both
/// triangles cover, the final color is the nearer triangle's shading and the
/// final depth its interpolated depth, in either submission order.
pub proof fn lemma_visibility_order<S: Shader>(
    shader: S,
    d: Seq<u32>, cb: Seq<Rgba>,
    a1: Vec4fx, b1: Vec4fx, c1: Vec4fx, q1a: S::A, q1b: S::A, q1c: S::A,
    a2: Vec4fx, b2: Vec4fx, c2: Vec4fx, q2a: S::A, q2b: S::A, q2c: S::A,
    w: int, h: int, x: int, y: int,
)
    requires
        0 < w,
        0 < h,
        d.len() == w * h,
        cb.len() == w * h,
        forall|i: int| 0 <= i < d.len() ==> d[i] == u32::MAX,
        s_tri_area(a1, b1, c1, w, h) > 0,
        s_tri_in_box(a1, b1, c1, w, h, x, y),
        s_tri_covered(a1, b1, c1, w, h, x, y),
        s_tri_area(a2, b2, c2, w, h) > 0,
        s_tri_in_box(a2, b2, c2, w, h, x, y),
        s_tri_covered(a2, b2, c2, w, h, x, y),
        s_tri_depth_at(a1, b1, c1, w, h, x, y) < s_tri_depth_at(a2, b2, c2, w, h, x, y),
    ensures
        ({
            let i = x + w * y;
            let near = s_tri_rgba(shader, a1, b1, c1, q1a, q1b, q1c, w, h, x, y);
            let d1 = s_tri_depth_buf(d, a1, b1, c1, w, h);
            let cb1 = s_tri_color_buf(shader, cb, d, a1, b1, c1, q1a, q1b, q1c, w, h);
            let cb12 = s_tri_color_buf(shader, cb1, d1, a2, b2, c2, q2a, q2b, q2c, w, h);
            let d2 = s_tri_depth_buf(d, a2, b2, c2, w, h);
            let cb2 = s_tri_color_buf(shader, cb, d, a2, b2, c2, q2a, q2b, q2c, w, h);
            let cb21 = s_tri_color_buf(shader, cb2, d2, a1, b1, c1, q1a, q1b, q1c, w, h);
            let d12 = s_tri_depth_buf(d1, a2, b2, c2, w, h);
            let d21 = s_tri_depth_buf(d2, a1, b1, c1, w, h);
            let near_depth = s_tri_depth_at(a1, b1, c1, w, h, x, y);
            cb12[i] == near && cb21[i] == near && d12[i] as int == near_depth && d21[i] as int
                == near_depth
        }),
{
    assert(0 <= x + w * y < w * h) by (nonlinear_arith)
        requires 0 <= x < w, 0 <= y < h;
    lemma_pixel_index(w, x, y);
    lemma_depth_at_range(a1, b1, c1, w, h, x, y);
    lemma_depth_at_range(a2, b2, c2, w, h, x, y);
    let i = x + w * y;
    let dat1 = s_tri_depth_at(a1, b1, c1, w, h, x, y);
    let dat2 = s_tri_depth_at(a2, b2, c2, w, h, x, y);
    // nearer first: the first pass writes, the second fails the depth test
    assert(dat1 < u32::MAX as int);
    assert(s_tri_writes(a1, b1, c1, w, h, d[i] as int, x, y));
    let d1 = s_tri_depth_buf(d, a1, b1, c1, w, h);
    assert(d1[i] as int == dat1);
    assert(!s_tri_writes(a2, b2, c2, w, h, d1[i] as int, x, y));
    // farther first: either it writes and is then overwritten, or it was at
    // the far clamp and never wrote; the nearer triangle writes either way
    let d2 = s_tri_depth_buf(d, a2, b2, c2, w, h);
    if dat2 < u32::MAX as int {
        assert(s_tri_writes(a2, b2, c2, w, h, d[i] as int, x, y));
        assert(d2[i] as int == dat2);
    } else {
        assert(d2[i] == d[i]);
    }
    assert(s_tri_writes(a1, b1, c1, w, h, d2[i] as int, x, y));
}

} // verus!

verus! {

/// Depth-test idempotence at the cache level: when the caches hold the same
/// triangle twice in a row, the buffers after both passes equal the buffers
/// after the first.
pub proof fn lemma_rast_twice<S: Shader>(
    shader: S,
    d: Seq<u32>, cb: Seq<Rgba>,
    tris: Seq<Vec4fx>, attrs: Seq<S::A>,
    w: int, h: int,
)
    requires
        cb.len() == d.len(),
        tris.len() >= 6,
        attrs.len() >= 6,
        tris[3] == tris[0],
        tris[4] == tris[1],
        tris[5] == tris[2],
        attrs[3] == attrs[0],
        attrs[4] == attrs[1],
        attrs[5] == attrs[2],
    ensures
        crate::rasterizer::s_rast(shader, d, cb, tris, attrs, 2, w, h)
            == crate::rasterizer::s_rast(shader, d, cb, tris, attrs, 1, w, h),
{
    lemma_tri_idempotent(
        shader, d, cb, tris[0], tris[1], tris[2], attrs[0], attrs[1], attrs[2], w, h,
    );
    let r0 = crate::rasterizer::s_rast(shader, d, cb, tris, attrs, 0, w, h);
    let r1 = crate::rasterizer::s_rast(shader, d, cb, tris, attrs, 1, w, h);
    let r2 = crate::rasterizer::s_rast(shader, d, cb, tris, attrs, 2, w, h);
    assert(r0 == (d, cb));
    assert(r1.0 == s_tri_depth_buf(d, tris[0], tris[1], tris[2], w, h));
    assert(r1.1 == s_tri_color_buf(shader, cb, d, tris[0], tris[1], tris[2], attrs[0], attrs[1],
        attrs[2], w, h));
    assert(r2.0 == s_tri_depth_buf(r1.0, tris[3], tris[4], tris[5], w, h));
    assert(r2.1 == s_tri_color_buf(shader, r1.1, r1.0, tris[3], tris[4], tris[5], attrs[3],
        attrs[4], attrs[5], w, h));
    assert(r2.0 == r1.0);
    assert(r2.1 == r1.1);
}

} // verus!

verus! {

/// Submission order does not affect the rendered frame: over cleared
/// buffers, two triangles whose interpolated depths differ at every pixel
/// both would write produce identical color and depth buffers whichever
/// comes first.
pub proof fn lemma_order_independent<S: Shader>(
    shader: S,
    d: Seq<u32>, cb: Seq<Rgba>,
    a1: Vec4fx, b1: Vec4fx, c1: Vec4fx, q1a: S::A, q1b: S::A, q1c: S::A,
    a2: Vec4fx, b2: Vec4fx, c2: Vec4fx, q2a: S::A, q2b: S::A, q2c: S::A,
    w: int, h: int,
)
    requires
        cb.len() == d.len(),
        forall|i: int| 0 <= i < d.len() ==> d[i] == u32::MAX,
        forall|x: int, y: int|
            (s_tri_area(a1, b1, c1, w, h) > 0 && s_tri_in_box(a1, b1, c1, w, h, x, y)
                && s_tri_covered(a1, b1, c1, w, h, x, y) && s_tri_area(a2, b2, c2, w, h) > 0
                && s_tri_in_box(a2, b2, c2, w, h, x, y) && s_tri_covered(a2, b2, c2, w, h, x, y))
                ==> #[trigger] s_tri_depth_at(a1, b1, c1, w, h, x, y)
                    != #[trigger] s_tri_depth_at(a2, b2, c2, w, h, x, y),
    ensures
        ({
            let d1 = s_tri_depth_buf(d, a1, b1, c1, w, h);
            let cb1 = s_tri_color_buf(shader, cb, d, a1, b1, c1, q1a, q1b, q1c, w, h);
            let d12 = s_tri_depth_buf(d1, a2, b2, c2, w, h);
            let cb12 = s_tri_color_buf(shader, cb1, d1, a2, b2, c2, q2a, q2b, q2c, w, h);
            let d2 = s_tri_depth_buf(d, a2, b2, c2, w, h);
            let cb2 = s_tri_color_buf(shader, cb, d, a2, b2, c2, q2a, q2b, q2c, w, h);
            let d21 = s_tri_depth_buf(d2, a1, b1, c1, w, h);
            let cb21 = s_tri_color_buf(shader, cb2, d2, a1, b1, c1, q1a, q1b, q1c, w, h);
            d12 == d21 && cb12 == cb21
        }),
{
    let d1 = s_tri_depth_buf(d, a1, b1, c1, w, h);
    let cb1 = s_tri_color_buf(shader, cb, d, a1, b1, c1, q1a, q1b, q1c, w, h);
    let d12 = s_tri_depth_buf(d1, a2, b2, c2, w, h);
    let cb12 = s_tri_color_buf(shader, cb1, d1, a2, b2, c2, q2a, q2b, q2c, w, h);
    let d2 = s_tri_depth_buf(d, a2, b2, c2, w, h);
    let cb2 = s_tri_color_buf(shader, cb, d, a2, b2, c2, q2a, q2b, q2c, w, h);
    let d21 = s_tri_depth_buf(d2, a1, b1, c1, w, h);
    let cb21 = s_tri_color_buf(shader, cb2, d2, a1, b1, c1, q1a, q1b, q1c, w, h);
    assert forall|i: int| 0 <= i < d.len() implies d12[i] == d21[i] && cb12[i] == cb21[i] by {
        let px = i % w;
        let py = i / w;
        let dat1 = s_tri_depth_at(a1, b1, c1, w, h, px, py);
        let dat2 = s_tri_depth_at(a2, b2, c2, w, h, px, py);
        let e1 = s_tri_writes(a1, b1, c1, w, h, d[i] as int, px, py);
        let e2 = s_tri_writes(a2, b2, c2, w, h, d[i] as int, px, py);
        if e1 && e2 {
            assert(dat1 != dat2);
        }
    }
    assert(d12 =~= d21);
    assert(cb12 =~= cb21);
}

} // verus!
