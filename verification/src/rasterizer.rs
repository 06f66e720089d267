//! The rasterization pipeline: screen mapping, bounding-box culling,
//! edge-function inside tests, barycentric interpolation, depth testing and
//! fragment shading, over fixed-point arithmetic.

use vstd::prelude::*;
use crate::fixed::{
    FX_ONE, FX_TWO, CLIP_LIM, PIX_LIM, COMB_LIM, DEPTH_FAR_FX, SCREEN_FAR, DIM_MAX, MAT_IN_LIM,
    fx_bounded, fxdiv128, lemma_div_bound, lemma_div_exact, lemma_div_sum3_le,
};
use crate::math::{Vec2i, Vec4fx, Mat4, vec4_bounded, mat4_bounded, mat4_mul, s_mat4_mul,
    mat4_from_scale, s_mat4_from_scale, mat4_identity, s_mat4_identity};
use vstd::arithmetic::div_mod::{lemma_fundamental_div_mod, lemma_fundamental_div_mod_converse,
    lemma_div_is_ordered, lemma_mod_bound};

verus! {

/// One RGBA8 texel of the color buffer.
#[derive(Clone, Copy, PartialEq, Eq, Structural, Debug)]
pub struct Rgba {
    pub r: u8,
    pub g: u8,
    pub b: u8,
    pub a: u8,
}

/// A weighted 3-way linear combination of fixed-point channels:
/// `(a*aw + b*bw + c*cw) / FX_ONE`, floor-rounded.
pub open spec fn s_blend_ch(a: int, aw: int, b: int, bw: int, c: int, cw: int) -> int {
    (a * aw + b * bw + c * cw) / (FX_ONE as int)
}

/// The capability every interpolable per-vertex attribute provides: a 3-way
/// weighted linear combination. Weights are fixed-point; the rasterization
/// stage supplies barycentric weights that are non-negative and sum to at
/// most one unit. The combination itself does not normalize the weights.
pub trait Blend: Sized {
    /// Values small enough that blending cannot overflow.
    spec fn wf(self) -> bool;

    /// The mathematical value of `blend`.
    spec fn blend_spec(a: Self, aw: i64, b: Self, bw: i64, c: Self, cw: i64) -> Self;

    fn blend(a: Self, aw: i64, b: Self, bw: i64, c: Self, cw: i64) -> (r: Self)
        requires
            a.wf(),
            b.wf(),
            c.wf(),
            0 <= aw,
            0 <= bw,
            0 <= cw,
            aw + bw + cw <= FX_ONE,
        ensures
            r == Self::blend_spec(a, aw, b, bw, c, cw),
            r.wf(),
    ;
}

/// One fixed-point channel of a 3-way blend.
pub fn blend_channel(a: i64, aw: i64, b: i64, bw: i64, c: i64, cw: i64) -> (r: i64)
    requires
        fx_bounded(a, CLIP_LIM as int),
        fx_bounded(b, CLIP_LIM as int),
        fx_bounded(c, CLIP_LIM as int),
        0 <= aw,
        0 <= bw,
        0 <= cw,
        aw + bw + cw <= FX_ONE,
    ensures
        r == s_blend_ch(a as int, aw as int, b as int, bw as int, c as int, cw as int),
        fx_bounded(r, CLIP_LIM as int),
{
    proof {
        let cl = CLIP_LIM as int;
        assert(-(cl * (FX_ONE as int)) <= a as int * (aw as int) <= cl * (FX_ONE as int))
            by (nonlinear_arith)
            requires -cl <= a as int <= cl, 0 <= aw as int <= FX_ONE as int, cl > 0;
        assert(-(cl * (FX_ONE as int)) <= b as int * (bw as int) <= cl * (FX_ONE as int))
            by (nonlinear_arith)
            requires -cl <= b as int <= cl, 0 <= bw as int <= FX_ONE as int, cl > 0;
        assert(-(cl * (FX_ONE as int)) <= c as int * (cw as int) <= cl * (FX_ONE as int))
            by (nonlinear_arith)
            requires -cl <= c as int <= cl, 0 <= cw as int <= FX_ONE as int, cl > 0;
    }
    let s: i128 = a as i128 * aw as i128 + b as i128 * bw as i128 + c as i128 * cw as i128;
    proof {
        let cl = CLIP_LIM as int;
        assert(-(cl * (FX_ONE as int)) <= s as int <= cl * (FX_ONE as int)) by (nonlinear_arith)
            requires
                -cl <= a as int <= cl,
                -cl <= b as int <= cl,
                -cl <= c as int <= cl,
                0 <= aw as int,
                0 <= bw as int,
                0 <= cw as int,
                aw as int + bw as int + cw as int <= FX_ONE as int,
                s as int == a as int * (aw as int) + b as int * (bw as int) + c as int * (cw as int),
                cl > 0;
        lemma_div_bound(s as int, FX_ONE as int, cl);
    }
    let q = fxdiv128(s, FX_ONE as i128);
    q as i64
}

/// The depth component of a transformed triangle, interpolated with the same
/// blend operation as any other attribute.
#[derive(Clone, Copy)]
pub struct Depth(pub i64);

impl Blend for Depth {
    open spec fn wf(self) -> bool {
        fx_bounded(self.0, CLIP_LIM as int)
    }

    open spec fn blend_spec(a: Self, aw: i64, b: Self, bw: i64, c: Self, cw: i64) -> Self {
        Depth(s_blend_ch(a.0 as int, aw as int, b.0 as int, bw as int, c.0 as int, cw as int) as i64)
    }

    fn blend(a: Self, aw: i64, b: Self, bw: i64, c: Self, cw: i64) -> (r: Self) {
        Depth(blend_channel(a.0, aw, b.0, bw, c.0, cw))
    }
}

/// The two shading stages of the pipeline. The vertex stage turns one input
/// vertex and the combined transform matrix into an interpolable attribute
/// and a clip-space position; the fragment stage turns a pixel coordinate and
/// an interpolated attribute into an RGBA color with channels in
/// `[0, FX_ONE]` (values outside are clamped when the texel is written).
pub trait Shader: Sized {
    /// The input vertex type.
    type V: Copy;

    /// The interpolable attribute payload.
    type A: Blend + Copy;

    /// Input vertices the vertex stage accepts.
    spec fn vertex_wf(self, v: Self::V) -> bool;

    /// The mathematical value of `transform`.
    spec fn transform_spec(self, v: Self::V, m: Mat4) -> (Self::A, Vec4fx);

    /// The mathematical value of `shade`.
    spec fn shade_spec(self, p: Vec2i, a: Self::A) -> Vec4fx;

    fn transform(&self, v: &Self::V, m: &Mat4) -> (r: (Self::A, Vec4fx))
        requires
            self.vertex_wf(*v),
            mat4_bounded(*m, COMB_LIM as int),
        ensures
            r == self.transform_spec(*v, *m),
            r.0.wf(),
            vec4_bounded(r.1, CLIP_LIM as int),
    ;

    fn shade(&self, p: Vec2i, a: Self::A) -> (r: Vec4fx)
        requires
            a.wf(),
        ensures
            r == self.shade_spec(p, a),
    ;
}

// ---------------------------------------------------------------------------
// Screen mapping
// ---------------------------------------------------------------------------

/// Perspective divide of one coordinate: `c / -z` in fixed point, floor
/// rounded. A vertex at or behind the camera plane (`-z <= 0`) is sent to
/// `SCREEN_FAR`, far outside any viewport, with the sign of `c`.
pub open spec fn s_screen(c: int, z: int) -> int {
    if -z > 0 {
        (c * (FX_ONE as int)) / -z
    } else if c >= 0 {
        SCREEN_FAR as int
    } else {
        -(SCREEN_FAR as int)
    }
}

/// Saturation of a mapped pixel coordinate to `[-PIX_LIM, PIX_LIM]`.
pub open spec fn s_sat_pix(v: int) -> int {
    if v > PIX_LIM { PIX_LIM as int } else if v < -(PIX_LIM as int) { -(PIX_LIM as int) } else { v }
}

/// Pixel column of a clip-space position: `(screen_x + 1) / 2 * width`.
pub open spec fn s_px(v: Vec4fx, w: int) -> int {
    s_sat_pix(((s_screen(v.x as int, v.z as int) + FX_ONE) * w) / (FX_TWO as int))
}

/// Pixel row of a clip-space position: `(1 - screen_y) / 2 * height`; the
/// vertical flip moves the origin to the top-left corner.
pub open spec fn s_py(v: Vec4fx, h: int) -> int {
    s_sat_pix((((FX_ONE as int) - s_screen(v.y as int, v.z as int)) * h) / (FX_TWO as int))
}

/// Perspective divide of one coordinate pair, executable.
fn screen_coord(c: i64, z: i64) -> (s: i128)
    requires
        fx_bounded(c, CLIP_LIM as int),
        fx_bounded(z, CLIP_LIM as int),
    ensures
        s as int == s_screen(c as int, z as int),
        -(CLIP_LIM as int * FX_ONE as int) <= s as int <= CLIP_LIM as int * FX_ONE as int,
{
    let negz: i128 = -(z as i128);
    if negz > 0 {
        proof {
            assert(-(CLIP_LIM as int * FX_ONE as int) <= c as int * (FX_ONE as int)
                <= CLIP_LIM as int * FX_ONE as int) by (nonlinear_arith)
                requires -(CLIP_LIM as int) <= c as int <= CLIP_LIM as int;
        }
        let num: i128 = c as i128 * FX_ONE as i128;
        proof {
            let m = CLIP_LIM as int * FX_ONE as int;
            assert(-m <= num as int <= m) by (nonlinear_arith)
                requires
                    -(CLIP_LIM as int) <= c as int <= CLIP_LIM as int,
                    num as int == c as int * (FX_ONE as int),
                    m == CLIP_LIM as int * FX_ONE as int;
            assert(-(m * negz as int) <= num as int <= m * negz as int) by (nonlinear_arith)
                requires -m <= num as int <= m, negz as int >= 1, m >= 0;
            lemma_div_bound(num as int, negz as int, m);
        }
        fxdiv128(num, negz)
    } else if c >= 0 {
        SCREEN_FAR as i128
    } else {
        -(SCREEN_FAR as i128)
    }
}

/// Saturating narrowing of a mapped coordinate.
fn sat_pix(v: i128) -> (r: i32)
    ensures
        r as int == s_sat_pix(v as int),
{
    if v > PIX_LIM as i128 {
        PIX_LIM as i32
    } else if v < -(PIX_LIM as i128) {
        -(PIX_LIM as i32)
    } else {
        v as i32
    }
}

/// Screen mapping of one clip-space position to an integer pixel coordinate:
/// perspective divide, viewport scale, vertical flip, saturation.
pub fn map_coord(v: &Vec4fx, width: i32, height: i32) -> (p: Vec2i)
    requires
        vec4_bounded(*v, CLIP_LIM as int),
        0 < width <= DIM_MAX,
        0 < height <= DIM_MAX,
    ensures
        p.x as int == s_px(*v, width as int),
        p.y as int == s_py(*v, height as int),
{
    let sx = screen_coord(v.x, v.z);
    let sy = screen_coord(v.y, v.z);
    proof {
        let sb = CLIP_LIM as int * FX_ONE as int + FX_ONE as int;
        assert(-(sb * 16384) <= (sx as int + FX_ONE as int) * (width as int) <= sb * 16384)
            by (nonlinear_arith)
            requires
                -sb <= sx as int + FX_ONE as int <= sb,
                0 < width as int <= 16384,
                sb > 0;
        assert(-(sb * 16384) <= (FX_ONE as int - sy as int) * (height as int) <= sb * 16384)
            by (nonlinear_arith)
            requires
                -sb <= FX_ONE as int - sy as int <= sb,
                0 < height as int <= 16384,
                sb > 0;
    }
    let tx: i128 = (sx + FX_ONE as i128) * width as i128;
    let ty: i128 = (FX_ONE as i128 - sy) * height as i128;
    let px = sat_pix(fxdiv128(tx, FX_TWO as i128));
    let py = sat_pix(fxdiv128(ty, FX_TWO as i128));
    Vec2i { x: px, y: py }
}

// ---------------------------------------------------------------------------
// Edge function
// ---------------------------------------------------------------------------

/// The edge function: twice the signed area of the triangle `(a, b, c)`;
/// positive when `c` lies to the left of the directed edge `a -> b`.
pub open spec fn s_edge(ax: int, ay: int, bx: int, by: int, cx: int, cy: int) -> int {
    (cx - ax) * (by - ay) - (cy - ay) * (bx - ax)
}

/// Executable edge function on saturated pixel coordinates.
pub fn edge_function(a: Vec2i, b: Vec2i, c: Vec2i) -> (r: i64)
    requires
        -PIX_LIM <= a.x as int <= PIX_LIM,
        -PIX_LIM <= a.y as int <= PIX_LIM,
        -PIX_LIM <= b.x as int <= PIX_LIM,
        -PIX_LIM <= b.y as int <= PIX_LIM,
        -PIX_LIM <= c.x as int <= PIX_LIM,
        -PIX_LIM <= c.y as int <= PIX_LIM,
    ensures
        r as int == s_edge(a.x as int, a.y as int, b.x as int, b.y as int, c.x as int, c.y as int),
        -0x4000_0000_0000_0000 <= r as int <= 0x4000_0000_0000_0000,
{
    let dx1: i64 = c.x as i64 - a.x as i64;
    let dy2: i64 = b.y as i64 - a.y as i64;
    let dy1: i64 = c.y as i64 - a.y as i64;
    let dx2: i64 = b.x as i64 - a.x as i64;
    proof {
        assert(-0x2000_0000_0000_0000 <= dx1 as int * dy2 as int <= 0x2000_0000_0000_0000)
            by (nonlinear_arith)
            requires
                -0x4000_0000 <= dx1 as int <= 0x4000_0000,
                -0x4000_0000 <= dy2 as int <= 0x4000_0000;
        assert(-0x2000_0000_0000_0000 <= dy1 as int * dx2 as int <= 0x2000_0000_0000_0000)
            by (nonlinear_arith)
            requires
                -0x4000_0000 <= dy1 as int <= 0x4000_0000,
                -0x4000_0000 <= dx2 as int <= 0x4000_0000;
    }
    dx1 * dy2 - dy1 * dx2
}

/// The three edge values at a point sum to the triangle's signed area.
pub proof fn lemma_edge_sum(ax: int, ay: int, bx: int, by: int, cx: int, cy: int, px: int, py: int)
    ensures
        s_edge(ax, ay, bx, by, px, py) + s_edge(bx, by, cx, cy, px, py)
            + s_edge(cx, cy, ax, ay, px, py) == s_edge(ax, ay, bx, by, cx, cy),
{
    assert((px - ax) * (by - ay) == ax * ay - ax * by - ay * px + by * px) by (nonlinear_arith);
    assert((py - ay) * (bx - ax) == ax * ay - ax * py - ay * bx + bx * py) by (nonlinear_arith);
    assert((px - bx) * (cy - by) == bx * by - bx * cy - by * px + cy * px) by (nonlinear_arith);
    assert((py - by) * (cx - bx) == bx * by - bx * py - by * cx + cx * py) by (nonlinear_arith);
    assert((px - cx) * (ay - cy) == ay * px - cy * px - ay * cx + cx * cy) by (nonlinear_arith);
    assert((py - cy) * (ax - cx) == ax * py - cx * py - ax * cy + cx * cy) by (nonlinear_arith);
    assert((cx - ax) * (by - ay) == by * cx - ay * cx - ax * by + ax * ay) by (nonlinear_arith);
    assert((cy - ay) * (bx - ax) == bx * cy - ax * cy - ay * bx + ax * ay) by (nonlinear_arith);
}

} // verus!

verus! {

// ---------------------------------------------------------------------------
// Per-pixel rasterization model
// ---------------------------------------------------------------------------

pub open spec fn s_min3(a: int, b: int, c: int) -> int {
    if a <= b && a <= c { a } else if b <= c { b } else { c }
}

pub open spec fn s_max3(a: int, b: int, c: int) -> int {
    if a >= b && a >= c { a } else if b >= c { b } else { c }
}

pub open spec fn s_clamp(v: int, lo: int, hi: int) -> int {
    if v > hi { hi } else if v < lo { lo } else { v }
}

/// A barycentric weight in fixed point: one edge value over the signed area.
pub open spec fn s_w_fx(wi: int, area: int) -> int {
    (wi * (FX_ONE as int)) / area
}

/// Interpolated depth clamped to the depth range `[0, DEPTH_FAR_FX]`.
pub open spec fn s_clamp_depth(d: int) -> int {
    if d > DEPTH_FAR_FX { DEPTH_FAR_FX as int } else if d < 0 { 0 } else { d }
}

/// A clamped fixed-point depth scaled linearly to the full `u32` range.
pub open spec fn s_depth_scale(d: int) -> int {
    (d * 0xFFFF_FFFF) / (DEPTH_FAR_FX as int)
}

/// A color channel in `[0, FX_ONE]` scaled to one byte; values outside the
/// range are clamped.
pub open spec fn s_byte(c: int) -> u8 {
    let t = (c * 255) / (FX_ONE as int);
    if t < 0 { 0u8 } else if t > 255 { 255u8 } else { t as u8 }
}

// The mapped pixel-space corners of the clamped bounding box.

pub open spec fn s_tri_minx(a: Vec4fx, b: Vec4fx, c: Vec4fx, w: int) -> int {
    s_clamp(s_min3(s_px(a, w), s_px(b, w), s_px(c, w)), 0, w)
}

pub open spec fn s_tri_maxx(a: Vec4fx, b: Vec4fx, c: Vec4fx, w: int) -> int {
    s_clamp(s_max3(s_px(a, w), s_px(b, w), s_px(c, w)), 0, w)
}

pub open spec fn s_tri_miny(a: Vec4fx, b: Vec4fx, c: Vec4fx, h: int) -> int {
    s_clamp(s_min3(s_py(a, h), s_py(b, h), s_py(c, h)), 0, h)
}

pub open spec fn s_tri_maxy(a: Vec4fx, b: Vec4fx, c: Vec4fx, h: int) -> int {
    s_clamp(s_max3(s_py(a, h), s_py(b, h), s_py(c, h)), 0, h)
}

/// The signed area of a mapped triangle: the edge function at its own third
/// corner. Positive for the front-facing winding; zero for degenerate input.
pub open spec fn s_tri_area(a: Vec4fx, b: Vec4fx, c: Vec4fx, w: int, h: int) -> int {
    s_edge(s_px(a, w), s_py(a, h), s_px(b, w), s_py(b, h), s_px(c, w), s_py(c, h))
}

/// Edge value of the directed edge `a -> b` at pixel `(x, y)`.
pub open spec fn s_tri_w1(a: Vec4fx, b: Vec4fx, c: Vec4fx, w: int, h: int, x: int, y: int) -> int {
    s_edge(s_px(a, w), s_py(a, h), s_px(b, w), s_py(b, h), x, y)
}

/// Edge value of the directed edge `b -> c` at pixel `(x, y)`.
pub open spec fn s_tri_w2(a: Vec4fx, b: Vec4fx, c: Vec4fx, w: int, h: int, x: int, y: int) -> int {
    s_edge(s_px(b, w), s_py(b, h), s_px(c, w), s_py(c, h), x, y)
}

/// Edge value of the directed edge `c -> a` at pixel `(x, y)`.
pub open spec fn s_tri_w3(a: Vec4fx, b: Vec4fx, c: Vec4fx, w: int, h: int, x: int, y: int) -> int {
    s_edge(s_px(c, w), s_py(c, h), s_px(a, w), s_py(a, h), x, y)
}

/// The half-space inside test: all three edge values non-negative.
pub open spec fn s_tri_covered(a: Vec4fx, b: Vec4fx, c: Vec4fx, w: int, h: int, x: int, y: int) -> bool {
    s_tri_w1(a, b, c, w, h, x, y) >= 0 && s_tri_w2(a, b, c, w, h, x, y) >= 0
        && s_tri_w3(a, b, c, w, h, x, y) >= 0
}

/// Whether pixel `(x, y)` lies in the clamped bounding box that the fill
/// loop scans; the upper edges are exclusive.
pub open spec fn s_tri_in_box(a: Vec4fx, b: Vec4fx, c: Vec4fx, w: int, h: int, x: int, y: int) -> bool {
    s_tri_minx(a, b, c, w) <= x < s_tri_maxx(a, b, c, w)
        && s_tri_miny(a, b, c, h) <= y < s_tri_maxy(a, b, c, h)
}

/// The depth value a covered pixel receives: the three vertex depths blended
/// with the barycentric weights, clamped and scaled to the `u32` range. Each
/// corner is weighted by the value of its opposite edge: `a` by the edge
/// `b -> c`, `b` by `c -> a`, `c` by `a -> b`, so a pixel at a corner gets
/// that corner's own depth.
pub open spec fn s_tri_depth_at(a: Vec4fx, b: Vec4fx, c: Vec4fx, w: int, h: int, x: int, y: int) -> int {
    let area = s_tri_area(a, b, c, w, h);
    let w1f = s_w_fx(s_tri_w1(a, b, c, w, h, x, y), area);
    let w2f = s_w_fx(s_tri_w2(a, b, c, w, h, x, y), area);
    let w3f = s_w_fx(s_tri_w3(a, b, c, w, h, x, y), area);
    let dfx = Depth::blend_spec(
        Depth(a.z), w2f as i64, Depth(b.z), w3f as i64, Depth(c.z), w1f as i64,
    ).0;
    s_depth_scale(s_clamp_depth(dfx as int))
}

/// The texel a covered pixel receives: the attributes blended with the
/// barycentric weights (each corner weighted by its opposite edge, as in
/// `s_tri_depth_at`), shaded by the fragment stage, channels clamped to
/// bytes.
pub open spec fn s_tri_rgba<S: Shader>(
    shader: S,
    a: Vec4fx, b: Vec4fx, c: Vec4fx,
    aa: S::A, ab: S::A, ac: S::A,
    w: int, h: int, x: int, y: int,
) -> Rgba {
    let area = s_tri_area(a, b, c, w, h);
    let w1f = s_w_fx(s_tri_w1(a, b, c, w, h, x, y), area);
    let w2f = s_w_fx(s_tri_w2(a, b, c, w, h, x, y), area);
    let w3f = s_w_fx(s_tri_w3(a, b, c, w, h, x, y), area);
    let o = shader.shade_spec(
        (Vec2i { x: x as i32, y: y as i32 }),
        S::A::blend_spec(aa, w2f as i64, ab, w3f as i64, ac, w1f as i64),
    );
    Rgba { r: s_byte(o.x as int), g: s_byte(o.y as int), b: s_byte(o.z as int), a: s_byte(o.w as int) }
}

/// Whether the fill loop writes pixel `(x, y)`, given the depth value `dcur`
/// stored there: the triangle faces forward, the pixel is scanned and
/// covered, and the new depth is strictly nearer.
pub open spec fn s_tri_writes(
    a: Vec4fx, b: Vec4fx, c: Vec4fx,
    w: int, h: int, dcur: int, x: int, y: int,
) -> bool {
    s_tri_area(a, b, c, w, h) > 0 && s_tri_in_box(a, b, c, w, h, x, y)
        && s_tri_covered(a, b, c, w, h, x, y) && s_tri_depth_at(a, b, c, w, h, x, y) < dcur
}

/// The depth buffer after one triangle: row-major, pixel `i` is column
/// `i % w` of row `i / w`.
pub open spec fn s_tri_depth_buf(d: Seq<u32>, a: Vec4fx, b: Vec4fx, c: Vec4fx, w: int, h: int) -> Seq<u32> {
    Seq::new(d.len(), |i: int|
        if s_tri_writes(a, b, c, w, h, d[i] as int, i % w, i / w) {
            s_tri_depth_at(a, b, c, w, h, i % w, i / w) as u32
        } else {
            d[i]
        })
}

/// The color buffer after one triangle, `d` being the depth buffer the
/// triangle was tested against.
pub open spec fn s_tri_color_buf<S: Shader>(
    shader: S,
    cb: Seq<Rgba>, d: Seq<u32>,
    a: Vec4fx, b: Vec4fx, c: Vec4fx,
    aa: S::A, ab: S::A, ac: S::A,
    w: int, h: int,
) -> Seq<Rgba> {
    Seq::new(cb.len(), |i: int|
        if s_tri_writes(a, b, c, w, h, d[i] as int, i % w, i / w) {
            s_tri_rgba(shader, a, b, c, aa, ab, ac, w, h, i % w, i / w)
        } else {
            cb[i]
        })
}

/// Both buffers after the first `n` triangles of the caches, in submission
/// order.
pub open spec fn s_rast<S: Shader>(
    shader: S,
    d: Seq<u32>, cb: Seq<Rgba>,
    tris: Seq<Vec4fx>, attrs: Seq<S::A>,
    n: int, w: int, h: int,
) -> (Seq<u32>, Seq<Rgba>)
    decreases n,
{
    if n <= 0 {
        (d, cb)
    } else {
        let prev = s_rast(shader, d, cb, tris, attrs, n - 1, w, h);
        (
            s_tri_depth_buf(prev.0, tris[3 * n - 3], tris[3 * n - 2], tris[3 * n - 1], w, h),
            s_tri_color_buf(
                shader, prev.1, prev.0,
                tris[3 * n - 3], tris[3 * n - 2], tris[3 * n - 1],
                attrs[3 * n - 3], attrs[3 * n - 2], attrs[3 * n - 1],
                w, h,
            ),
        )
    }
}

// ---------------------------------------------------------------------------
// Executable helpers of the fill loop
// ---------------------------------------------------------------------------

/// One barycentric weight in fixed point.
fn weight_fx(wi: i64, area: i64) -> (r: i64)
    requires
        0 < area,
        0 <= wi <= area,
    ensures
        r as int == s_w_fx(wi as int, area as int),
        0 <= r <= FX_ONE,
{
    proof {
        assert(0 <= wi as int * (FX_ONE as int) <= 0x7FFF_FFFF_FFFF_FFFF * 65536)
            by (nonlinear_arith)
            requires 0 <= wi as int <= 0x7FFF_FFFF_FFFF_FFFF;
    }
    let q = fxdiv128(wi as i128 * FX_ONE as i128, area as i128);
    proof {
        let one = FX_ONE as int;
        lemma_div_is_ordered(0, wi as int * one, area as int);
        lemma_div_exact(0, area as int);
        assert(0 * (area as int) == 0) by (nonlinear_arith);
        assert(wi as int * one <= one * (area as int)) by (nonlinear_arith)
            requires 0 <= wi as int <= area as int, one > 0;
        lemma_div_is_ordered(wi as int * one, one * (area as int), area as int);
        lemma_div_exact(one, area as int);
    }
    q as i64
}

/// A clamped depth scaled to the `u32` range.
fn depth_scale(d: i64) -> (r: u32)
    requires
        0 <= d <= DEPTH_FAR_FX,
    ensures
        r as int == s_depth_scale(d as int),
{
    let t: u64 = (d as u64) * 4294967295u64 / (DEPTH_FAR_FX as u64);
    proof {
        let m = 0xFFFF_FFFFint;
        let far = DEPTH_FAR_FX as int;
        assert(d as int * m <= m * far) by (nonlinear_arith)
            requires 0 <= d as int <= far, m > 0;
        lemma_div_is_ordered(d as int * m, m * far, far);
        lemma_div_exact(m, far);
    }
    t as u32
}

/// One color channel scaled to a byte.
fn byte_of(c: i64) -> (r: u8)
    ensures
        r == s_byte(c as int),
{
    let t = fxdiv128(c as i128 * 255, FX_ONE as i128);
    if t < 0 {
        0
    } else if t > 255 {
        255
    } else {
        t as u8
    }
}

/// Row-major pixel indexing is injective: index `x + w * y` has column `x`
/// and row `y`.
pub proof fn lemma_pixel_index(w: int, x: int, y: int)
    requires
        0 < w,
        0 <= x < w,
        0 <= y,
    ensures
        (x + w * y) % w == x,
        (x + w * y) / w == y,
{
    assert(x + w * y == y * w + x) by (nonlinear_arith);
    lemma_fundamental_div_mod_converse(x + w * y, w, y, x);
}

} // verus!

use vstd::pervasive::VecAdditionalExecFns;

verus! {

/// Fills one transformed triangle into the buffers: screen mapping, clamped
/// bounding-box scan, edge-function inside test, depth test, fragment
/// shading. The contract gives the exact per-pixel result; a triangle whose
/// mapped signed area is not positive (back-facing or degenerate) writes
/// nothing.
#[verifier::loop_isolation(false)]
#[verifier::rlimit(100)]
fn raster_tri<S: Shader>(
    shader: &S,
    a: Vec4fx,
    b: Vec4fx,
    c: Vec4fx,
    aa: S::A,
    ab: S::A,
    ac: S::A,
    width: u32,
    height: u32,
    backbuffer: &mut Vec<Rgba>,
    depth: &mut Vec<u32>,
)
    requires
        vec4_bounded(a, CLIP_LIM as int),
        vec4_bounded(b, CLIP_LIM as int),
        vec4_bounded(c, CLIP_LIM as int),
        aa.wf(),
        ab.wf(),
        ac.wf(),
        0 < width <= DIM_MAX,
        0 < height <= DIM_MAX,
        old(depth)@.len() == width as int * height as int,
        old(backbuffer)@.len() == width as int * height as int,
    ensures
        final(depth)@ == s_tri_depth_buf(old(depth)@, a, b, c, width as int, height as int),
        final(backbuffer)@ == s_tri_color_buf(
            *shader, old(backbuffer)@, old(depth)@, a, b, c, aa, ab, ac,
            width as int, height as int,
        ),
{
    let ghost w = width as int;
    let ghost h = height as int;
    let ghost n = w * h;
    let ghost d0 = old(depth)@;
    let ghost c0 = old(backbuffer)@;
    let ghost tgt_d = s_tri_depth_buf(d0, a, b, c, w, h);
    let ghost tgt_c = s_tri_color_buf(*shader, c0, d0, a, b, c, aa, ab, ac, w, h);

    let wi32 = width as i32;
    let hi32 = height as i32;
    let p1 = map_coord(&a, wi32, hi32);
    let p2 = map_coord(&b, wi32, hi32);
    let p3 = map_coord(&c, wi32, hi32);
    let area = edge_function(p1, p2, p3);

    if area <= 0 {
        proof {
            assert forall|i: int| 0 <= i < n implies tgt_d[i] == d0[i] by {
                assert(!s_tri_writes(a, b, c, w, h, d0[i] as int, i % w, i / w));
            }
            assert forall|i: int| 0 <= i < n implies tgt_c[i] == c0[i] by {
                assert(!s_tri_writes(a, b, c, w, h, d0[i] as int, i % w, i / w));
            }
            assert(tgt_d =~= d0);
            assert(tgt_c =~= c0);
        }
        return;
    }

    let mut minx = p1.x;
    if p2.x < minx { minx = p2.x; }
    if p3.x < minx { minx = p3.x; }
    let mut miny = p1.y;
    if p2.y < miny { miny = p2.y; }
    if p3.y < miny { miny = p3.y; }
    let mut maxx = p1.x;
    if p2.x > maxx { maxx = p2.x; }
    if p3.x > maxx { maxx = p3.x; }
    let mut maxy = p1.y;
    if p2.y > maxy { maxy = p2.y; }
    if p3.y > maxy { maxy = p3.y; }

    if maxx > wi32 { maxx = wi32; }
    if maxy > hi32 { maxy = hi32; }
    if minx > wi32 { minx = wi32; }
    if miny > hi32 { miny = hi32; }
    if maxx < 0 { maxx = 0; }
    if maxy < 0 { maxy = 0; }
    if minx < 0 { minx = 0; }
    if miny < 0 { miny = 0; }

    proof {
        assert(minx as int == s_tri_minx(a, b, c, w));
        assert(maxx as int == s_tri_maxx(a, b, c, w));
        assert(miny as int == s_tri_miny(a, b, c, h));
        assert(maxy as int == s_tri_maxy(a, b, c, h));
    }

    let mut x = minx;
    while x < maxx
        invariant
            minx <= x <= maxx,
            depth@.len() == n,
            backbuffer@.len() == n,
            forall|i: int| 0 <= i < n ==> #[trigger] depth@[i] == (
                if s_tri_in_box(a, b, c, w, h, i % w, i / w) && i % w < x as int {
                    tgt_d[i]
                } else {
                    d0[i]
                }),
            forall|i: int| 0 <= i < n ==> #[trigger] backbuffer@[i] == (
                if s_tri_in_box(a, b, c, w, h, i % w, i / w) && i % w < x as int {
                    tgt_c[i]
                } else {
                    c0[i]
                }),
        decreases maxx - x,
    {
        let mut y = miny;
        while y < maxy
            invariant
                miny <= y <= maxy,
                minx <= x < maxx,
                depth@.len() == n,
                backbuffer@.len() == n,
                forall|i: int| 0 <= i < n ==> #[trigger] depth@[i] == (
                    if s_tri_in_box(a, b, c, w, h, i % w, i / w)
                        && (i % w < x as int || (i % w == x as int && i / w < y as int)) {
                        tgt_d[i]
                    } else {
                        d0[i]
                    }),
                forall|i: int| 0 <= i < n ==> #[trigger] backbuffer@[i] == (
                    if s_tri_in_box(a, b, c, w, h, i % w, i / w)
                        && (i % w < x as int || (i % w == x as int && i / w < y as int)) {
                        tgt_c[i]
                    } else {
                        c0[i]
                    }),
            decreases maxy - y,
        {
            let pt = Vec2i { x, y };
            let w1 = edge_function(p1, p2, pt);
            let w2 = edge_function(p2, p3, pt);
            let w3 = edge_function(p3, p1, pt);
            proof {
                assert(0 <= x as int + w * (y as int) < n && n <= 268435456) by (nonlinear_arith)
                    requires
                        0 <= (x as int) && (x as int) < w,
                        0 <= (y as int) && (y as int) < h,
                        0 < w <= 16384,
                        0 < h <= 16384,
                        n == w * h;
                lemma_pixel_index(w, x as int, y as int);
            }
            let ghost ii = x as int + w * (y as int);
            let idx = (x + wi32 * y) as usize;
            proof {
                assert(depth@[ii] == d0[ii]);
                assert(backbuffer@[ii] == c0[ii]);
            }
            if w1 >= 0 && w2 >= 0 && w3 >= 0 {
                proof {
                    lemma_edge_sum(
                        p1.x as int, p1.y as int, p2.x as int, p2.y as int,
                        p3.x as int, p3.y as int, x as int, y as int,
                    );
                }
                let w1f = weight_fx(w1, area);
                let w2f = weight_fx(w2, area);
                let w3f = weight_fx(w3, area);
                proof {
                    let one = FX_ONE as int;
                    lemma_div_sum3_le(
                        w1 as int * one, w2 as int * one, w3 as int * one, area as int,
                    );
                    assert(w1 as int * one + w2 as int * one + w3 as int * one
                        == one * (area as int)) by (nonlinear_arith)
                        requires w1 as int + w2 as int + w3 as int == area as int;
                    lemma_div_exact(one, area as int);
                }
                let dz = Blend::blend(Depth(a.z), w2f, Depth(b.z), w3f, Depth(c.z), w1f);
                let dcl = if dz.0 > DEPTH_FAR_FX {
                    DEPTH_FAR_FX
                } else if dz.0 < 0 {
                    0
                } else {
                    dz.0
                };
                let du = depth_scale(dcl);
                proof {
                    assert(du as int == s_tri_depth_at(a, b, c, w, h, x as int, y as int));
                }
                if du < depth[idx] {
                    depth.set(idx, du);
                    let o = Blend::blend(aa, w2f, ab, w3f, ac, w1f);
                    let col = shader.shade(pt, o);
                    let texel = Rgba {
                        r: byte_of(col.x),
                        g: byte_of(col.y),
                        b: byte_of(col.z),
                        a: byte_of(col.w),
                    };
                    backbuffer.set(idx, texel);
                    proof {
                        assert(s_tri_writes(a, b, c, w, h, d0[ii] as int, x as int, y as int));
                        assert(depth@[ii] == tgt_d[ii]);
                        assert(backbuffer@[ii] == tgt_c[ii]);
                    }
                } else {
                    proof {
                        assert(!s_tri_writes(a, b, c, w, h, d0[ii] as int, x as int, y as int));
                        assert(tgt_d[ii] == d0[ii]);
                        assert(tgt_c[ii] == c0[ii]);
                    }
                }
            } else {
                proof {
                    assert(!s_tri_covered(a, b, c, w, h, x as int, y as int));
                    assert(tgt_d[ii] == d0[ii]);
                    assert(tgt_c[ii] == c0[ii]);
                }
            }
            proof {
                assert forall|i: int| 0 <= i < n implies #[trigger] depth@[i] == (
                    if s_tri_in_box(a, b, c, w, h, i % w, i / w)
                        && (i % w < x as int || (i % w == x as int && i / w < y as int + 1)) {
                        tgt_d[i]
                    } else {
                        d0[i]
                    }) by {
                    lemma_fundamental_div_mod(i, w);
                    lemma_mod_bound(i, w);
                    if i != ii && i % w == x as int && i / w == y as int {
                        assert(i == ii);
                    }
                }
                assert forall|i: int| 0 <= i < n implies #[trigger] backbuffer@[i] == (
                    if s_tri_in_box(a, b, c, w, h, i % w, i / w)
                        && (i % w < x as int || (i % w == x as int && i / w < y as int + 1)) {
                        tgt_c[i]
                    } else {
                        c0[i]
                    }) by {
                    lemma_fundamental_div_mod(i, w);
                    lemma_mod_bound(i, w);
                    if i != ii && i % w == x as int && i / w == y as int {
                        assert(i == ii);
                    }
                }
            }
            y = y + 1;
        }
        x = x + 1;
    }
    proof {
        assert forall|i: int| 0 <= i < n implies depth@[i] == tgt_d[i] && backbuffer@[i]
            == tgt_c[i] by {
            lemma_mod_bound(i, w);
            if !s_tri_in_box(a, b, c, w, h, i % w, i / w) {
                assert(!s_tri_writes(a, b, c, w, h, d0[i] as int, i % w, i / w));
            }
        }
        assert(depth@ =~= tgt_d);
        assert(backbuffer@ =~= tgt_c);
    }
}

} // verus!

verus! {

// ---------------------------------------------------------------------------
// Pipeline orchestration
// ---------------------------------------------------------------------------

/// The world/model scale applied to every draw, in fixed point.
pub const MODEL_SCALE_FX: i64 = 983040;

/// The combined transform handed to the vertex stage:
/// `proj * view * scale(MODEL_SCALE_FX)`.
pub open spec fn s_combined(proj: Mat4, view: Mat4) -> Mat4 {
    s_mat4_mul(s_mat4_mul(proj, view), s_mat4_from_scale(MODEL_SCALE_FX))
}

/// The clip-space positions the vertex stage appends, in input order.
pub open spec fn s_positions<S: Shader>(shader: S, vs: Seq<S::V>, m: Mat4) -> Seq<Vec4fx> {
    Seq::new(vs.len(), |i: int| shader.transform_spec(vs[i], m).1)
}

/// The attribute payloads the vertex stage appends, in input order.
pub open spec fn s_attrs<S: Shader>(shader: S, vs: Seq<S::V>, m: Mat4) -> Seq<S::A> {
    Seq::new(vs.len(), |i: int| shader.transform_spec(vs[i], m).0)
}

/// `s_rast` never changes the lengths of the buffers.
pub proof fn lemma_s_rast_len<S: Shader>(
    shader: S,
    d: Seq<u32>, cb: Seq<Rgba>,
    tris: Seq<Vec4fx>, attrs: Seq<S::A>,
    n: int, w: int, h: int,
)
    ensures
        s_rast(shader, d, cb, tris, attrs, n, w, h).0.len() == d.len(),
        s_rast(shader, d, cb, tris, attrs, n, w, h).1.len() == cb.len(),
    decreases n,
{
    if n > 0 {
        lemma_s_rast_len(shader, d, cb, tris, attrs, n - 1, w, h);
    }
}

/// The pipeline: the shading stages plus the two per-frame caches, which are
/// populated and drained within a single draw.
pub struct Pipeline<S: Shader> {
    shader: S,
    frag_cache: Vec<S::A>,
    vertex_cache: Vec<Vec4fx>,
}

impl<S: Shader> Pipeline<S> {
    /// The shader the pipeline runs.
    pub closed spec fn shader(self) -> S {
        self.shader
    }

    /// Both per-frame caches are drained between draws.
    pub closed spec fn wf(self) -> bool {
        self.frag_cache@.len() == 0 && self.vertex_cache@.len() == 0
    }

    pub fn new(shader: S) -> (r: Self)
        ensures
            r.wf(),
            r.shader() == shader,
    {
        Pipeline { shader, frag_cache: Vec::new(), vertex_cache: Vec::new() }
    }

    /// The rasterization stage: consumes the caches in consecutive triples,
    /// one triangle each; a trailing group of fewer than three entries is
    /// ignored.
    #[verifier::loop_isolation(false)]
    fn rasterize(
        width: u32,
        height: u32,
        triangles: &Vec<Vec4fx>,
        attributes: &Vec<S::A>,
        backbuffer: &mut Vec<Rgba>,
        depth: &mut Vec<u32>,
        shader: &S,
    )
        requires
            0 < width <= DIM_MAX,
            0 < height <= DIM_MAX,
            old(depth)@.len() == width as int * height as int,
            old(backbuffer)@.len() == width as int * height as int,
            triangles@.len() == attributes@.len(),
            forall|i: int| 0 <= i < triangles@.len()
                ==> vec4_bounded(#[trigger] triangles@[i], CLIP_LIM as int),
            forall|i: int| 0 <= i < attributes@.len() ==> (#[trigger] attributes@[i]).wf(),
        ensures
            ({
                let res = s_rast(
                    *shader, old(depth)@, old(backbuffer)@, triangles@, attributes@,
                    triangles@.len() as int / 3, width as int, height as int,
                );
                final(depth)@ == res.0 && final(backbuffer)@ == res.1
            }),
    {
        let ghost w = width as int;
        let ghost h = height as int;
        let ghost d0 = old(depth)@;
        let ghost c0 = old(backbuffer)@;
        let ntri = triangles.len() / 3;
        proof {
            lemma_fundamental_div_mod(triangles@.len() as int, 3);
            lemma_mod_bound(triangles@.len() as int, 3);
        }
        let mut t: usize = 0;
        while t < ntri
            invariant
                t <= ntri,
                depth@.len() == w * h,
                backbuffer@.len() == w * h,
                ({
                    let res = s_rast(*shader, d0, c0, triangles@, attributes@, t as int, w, h);
                    depth@ == res.0 && backbuffer@ == res.1
                }),
            decreases ntri - t,
        {
            let a = triangles[3 * t];
            let b = triangles[3 * t + 1];
            let cc = triangles[3 * t + 2];
            let qa = attributes[3 * t];
            let qb = attributes[3 * t + 1];
            let qc = attributes[3 * t + 2];
            raster_tri(shader, a, b, cc, qa, qb, qc, width, height, backbuffer, depth);
            proof {
                let res_t = s_rast(*shader, d0, c0, triangles@, attributes@, t as int, w, h);
                let res_n = s_rast(*shader, d0, c0, triangles@, attributes@, t as int + 1, w, h);
                assert(res_n.0 == s_tri_depth_buf(res_t.0, triangles@[3 * t as int],
                    triangles@[3 * t as int + 1], triangles@[3 * t as int + 2], w, h));
            }
            t = t + 1;
        }
    }

    /// One full frame: the vertex stage fills the caches in input order, the
    /// rasterization stage consumes them in triples, and both caches are
    /// drained again.
    #[verifier::loop_isolation(false)]
    pub fn process(
        &mut self,
        width: u32,
        height: u32,
        vertices: &[S::V],
        view: Mat4,
        proj: Mat4,
        backbuffer: &mut Vec<Rgba>,
        depth: &mut Vec<u32>,
    )
        requires
            old(self).wf(),
            mat4_bounded(view, MAT_IN_LIM as int),
            mat4_bounded(proj, MAT_IN_LIM as int),
            0 < width <= DIM_MAX,
            0 < height <= DIM_MAX,
            old(depth)@.len() == width as int * height as int,
            old(backbuffer)@.len() == width as int * height as int,
            forall|i: int| 0 <= i < vertices@.len()
                ==> old(self).shader().vertex_wf(#[trigger] vertices@[i]),
        ensures
            final(self).wf(),
            final(self).shader() == old(self).shader(),
            ({
                let comb = s_combined(proj, view);
                let res = s_rast(
                    old(self).shader(), old(depth)@, old(backbuffer)@,
                    s_positions(old(self).shader(), vertices@, comb),
                    s_attrs(old(self).shader(), vertices@, comb),
                    vertices@.len() as int / 3, width as int, height as int,
                );
                final(depth)@ == res.0 && final(backbuffer)@ == res.1
            }),
    {
        let ghost shader0 = self.shader;
        let pv = mat4_mul(&proj, &view, Ghost(MAT_IN_LIM as int), Ghost(MAT_IN_LIM as int));
        let sc = mat4_from_scale(MODEL_SCALE_FX);
        let comb = mat4_mul(
            &pv, &sc,
            Ghost(4 * (MAT_IN_LIM as int) * (MAT_IN_LIM as int) / (FX_ONE as int) + 1),
            Ghost(1048576),
        );
        proof {
            assert(mat4_bounded(comb, COMB_LIM as int));
            assert(comb == s_combined(proj, view));
        }
        let ghost combg = comb;
        let mut i: usize = 0;
        while i < vertices.len()
            invariant
                i <= vertices@.len(),
                self.shader == shader0,
                self.frag_cache@.len() == i as int,
                self.vertex_cache@.len() == i as int,
                forall|j: int| 0 <= j < i as int
                    ==> #[trigger] self.vertex_cache@[j]
                        == shader0.transform_spec(vertices@[j], combg).1
                    && vec4_bounded(self.vertex_cache@[j], CLIP_LIM as int),
                forall|j: int| 0 <= j < i as int
                    ==> #[trigger] self.frag_cache@[j]
                        == shader0.transform_spec(vertices@[j], combg).0
                    && self.frag_cache@[j].wf(),
            decreases vertices@.len() - i,
        {
            let (o, pos) = self.shader.transform(&vertices[i], &comb);
            self.frag_cache.push(o);
            self.vertex_cache.push(pos);
            i = i + 1;
        }
        proof {
            assert(self.vertex_cache@ =~= s_positions(shader0, vertices@, combg));
            assert(self.frag_cache@ =~= s_attrs(shader0, vertices@, combg));
        }
        Self::rasterize(
            width, height, &self.vertex_cache, &self.frag_cache, backbuffer, depth, &self.shader,
        );
        self.frag_cache.clear();
        self.vertex_cache.clear();
    }
}

} // verus!

verus! {

/// A texel with every channel zero: the cleared color.
pub open spec fn s_rgba_clear() -> Rgba {
    Rgba { r: 0, g: 0, b: 0, a: 0 }
}

/// The RGBA rendering of one depth cell for debug visualization: the four
/// little-endian bytes of the `u32` value.
pub open spec fn s_depth_rgba(d: u32) -> Rgba {
    Rgba {
        r: (d as int % 256) as u8,
        g: (d as int / 256 % 256) as u8,
        b: (d as int / 65536 % 256) as u8,
        a: (d as int / 16777216 % 256) as u8,
    }
}

/// A vector of `n` copies of one value.
#[verifier::loop_isolation(false)]
fn fill_vec<T: Copy>(n: usize, v: T) -> (r: Vec<T>)
    ensures
        r@.len() == n as int,
        forall|i: int| 0 <= i < n as int ==> r@[i] == v,
{
    let mut r: Vec<T> = Vec::new();
    let mut k: usize = 0;
    while k < n
        invariant
            k <= n,
            r@.len() == k as int,
            forall|i: int| 0 <= i < k as int ==> r@[i] == v,
        decreases n - k,
    {
        r.push(v);
        k = k + 1;
    }
    r
}

/// The renderer: owns the color and depth buffers and the view and
/// projection matrices. The two buffers always have length width * height;
/// in the depth buffer smaller is nearer, and the sentinel `u32::MAX`
/// marks a cell nothing was drawn to yet. Fresh buffers and cleared buffers
/// alike hold the default values: transparent black texels and the sentinel.
pub struct Rasterizer {
    width: u32,
    height: u32,
    backbuffer: Vec<Rgba>,
    depthbuffer: Vec<u32>,
    view: Mat4,
    proj: Mat4,
}

impl Rasterizer {
    pub closed spec fn spec_width(self) -> u32 {
        self.width
    }

    pub closed spec fn spec_height(self) -> u32 {
        self.height
    }

    /// The color buffer's contents.
    pub closed spec fn colors(self) -> Seq<Rgba> {
        self.backbuffer@
    }

    /// The depth buffer's contents.
    pub closed spec fn depths(self) -> Seq<u32> {
        self.depthbuffer@
    }

    pub closed spec fn view_mat(self) -> Mat4 {
        self.view
    }

    pub closed spec fn proj_mat(self) -> Mat4 {
        self.proj
    }

    /// Both buffers have length width * height; dimensions and matrices are
    /// within the library's fixed-point bounds.
    pub closed spec fn wf(self) -> bool {
        &&& 0 < self.width <= DIM_MAX
        &&& 0 < self.height <= DIM_MAX
        &&& self.backbuffer@.len() == self.width as int * self.height as int
        &&& self.depthbuffer@.len() == self.width as int * self.height as int
        &&& mat4_bounded(self.view, MAT_IN_LIM as int)
        &&& mat4_bounded(self.proj, MAT_IN_LIM as int)
    }

    /// A well-formed renderer's buffers both have length width * height.
    pub proof fn lemma_wf_buffer_lens(self)
        requires
            self.wf(),
        ensures
            self.colors().len() == self.spec_width() as int * self.spec_height() as int,
            self.depths().len() == self.spec_width() as int * self.spec_height() as int,
            0 < self.spec_width() <= DIM_MAX,
            0 < self.spec_height() <= DIM_MAX,
    {
    }

    /// A renderer with both buffers allocated at their default sentinel
    /// values — every color texel (0,0,0,0), every depth cell `u32::MAX` —
    /// and identity matrices. Empty or over-`DIM_MAX` dimensions would
    /// break the fixed-point screen mapping's overflow budget and are
    /// rejected at construction time, as construction-time contract
    /// violations.
    pub fn new(width: u32, height: u32) -> (r: Self)
        requires
            0 < width <= DIM_MAX,
            0 < height <= DIM_MAX,
        ensures
            r.wf(),
            r.spec_width() == width,
            r.spec_height() == height,
            r.colors().len() == width as int * height as int,
            r.depths().len() == width as int * height as int,
            r.view_mat() == s_mat4_identity(),
            r.proj_mat() == s_mat4_identity(),
            forall|i: int| 0 <= i < r.colors().len() ==> r.colors()[i] == s_rgba_clear(),
            forall|i: int| 0 <= i < r.depths().len() ==> r.depths()[i] == u32::MAX,
    {
        proof {
            assert(width as int * height as int <= 268435456) by (nonlinear_arith)
                requires 0 < width as int <= 16384, 0 < height as int <= 16384;
        }
        let n = (width as usize) * (height as usize);
        Rasterizer {
            width,
            height,
            backbuffer: fill_vec(n, Rgba { r: 0, g: 0, b: 0, a: 0 }),
            depthbuffer: fill_vec(n, u32::MAX),
            view: mat4_identity(),
            proj: mat4_identity(),
        }
    }

    /// Replaces the view matrix used by the next draw; plain assignment.
    pub fn set_view(&mut self, mat: Mat4)
        requires
            old(self).wf(),
            mat4_bounded(mat, MAT_IN_LIM as int),
        ensures
            final(self).wf(),
            final(self).view_mat() == mat,
            final(self).proj_mat() == old(self).proj_mat(),
            final(self).spec_width() == old(self).spec_width(),
            final(self).spec_height() == old(self).spec_height(),
            final(self).colors() == old(self).colors(),
            final(self).depths() == old(self).depths(),
    {
        self.view = mat;
    }

    /// Replaces the projection matrix used by the next draw; plain assignment.
    pub fn set_proj(&mut self, mat: Mat4)
        requires
            old(self).wf(),
            mat4_bounded(mat, MAT_IN_LIM as int),
        ensures
            final(self).wf(),
            final(self).proj_mat() == mat,
            final(self).view_mat() == old(self).view_mat(),
            final(self).spec_width() == old(self).spec_width(),
            final(self).spec_height() == old(self).spec_height(),
            final(self).colors() == old(self).colors(),
            final(self).depths() == old(self).depths(),
    {
        self.proj = mat;
    }

    /// Resets every color texel to (0,0,0,0) and every depth cell to
    /// `u32::MAX`, the farthest possible value. Always succeeds.
    #[verifier::loop_isolation(false)]
    pub fn clear(&mut self)
        requires
            old(self).wf(),
        ensures
            final(self).wf(),
            final(self).spec_width() == old(self).spec_width(),
            final(self).spec_height() == old(self).spec_height(),
            final(self).view_mat() == old(self).view_mat(),
            final(self).proj_mat() == old(self).proj_mat(),
            final(self).colors().len() == old(self).colors().len(),
            final(self).depths().len() == old(self).depths().len(),
            forall|i: int| 0 <= i < final(self).colors().len()
                ==> final(self).colors()[i] == s_rgba_clear(),
            forall|i: int| 0 <= i < final(self).depths().len()
                ==> final(self).depths()[i] == u32::MAX,
    {
        let nc = self.backbuffer.len();
        let mut k: usize = 0;
        while k < nc
            invariant
                k <= nc,
                self.backbuffer@.len() == nc as int,
                self.width == old(self).width,
                self.height == old(self).height,
                self.view == old(self).view,
                self.proj == old(self).proj,
                self.depthbuffer == old(self).depthbuffer,
                forall|i: int| 0 <= i < k as int ==> self.backbuffer@[i] == s_rgba_clear(),
            decreases nc - k,
        {
            self.backbuffer.set(k, Rgba { r: 0, g: 0, b: 0, a: 0 });
            k = k + 1;
        }
        let nd = self.depthbuffer.len();
        let mut k2: usize = 0;
        while k2 < nd
            invariant
                k2 <= nd,
                self.depthbuffer@.len() == nd as int,
                self.width == old(self).width,
                self.height == old(self).height,
                self.view == old(self).view,
                self.proj == old(self).proj,
                forall|i: int| 0 <= i < self.backbuffer@.len()
                    ==> self.backbuffer@[i] == s_rgba_clear(),
                self.backbuffer@.len() == old(self).backbuffer@.len(),
                forall|i: int| 0 <= i < k2 as int ==> self.depthbuffer@[i] == u32::MAX,
            decreases nd - k2,
        {
            self.depthbuffer.set(k2, u32::MAX);
            k2 = k2 + 1;
        }
    }

    /// Runs one full frame through the pipeline: vertex stage over all input
    /// vertices, then the rasterization stage into this renderer's buffers.
    pub fn draw<S: Shader>(&mut self, pipeline: &mut Pipeline<S>, vertices: &[S::V])
        requires
            old(self).wf(),
            old(pipeline).wf(),
            forall|i: int| 0 <= i < vertices@.len()
                ==> old(pipeline).shader().vertex_wf(#[trigger] vertices@[i]),
        ensures
            final(self).wf(),
            final(pipeline).wf(),
            final(pipeline).shader() == old(pipeline).shader(),
            final(self).spec_width() == old(self).spec_width(),
            final(self).spec_height() == old(self).spec_height(),
            final(self).view_mat() == old(self).view_mat(),
            final(self).proj_mat() == old(self).proj_mat(),
            final(self).colors().len() == old(self).colors().len(),
            final(self).depths().len() == old(self).depths().len(),
            ({
                let comb = s_combined(old(self).proj_mat(), old(self).view_mat());
                let res = s_rast(
                    old(pipeline).shader(), old(self).depths(), old(self).colors(),
                    s_positions(old(pipeline).shader(), vertices@, comb),
                    s_attrs(old(pipeline).shader(), vertices@, comb),
                    vertices@.len() as int / 3,
                    old(self).spec_width() as int, old(self).spec_height() as int,
                );
                final(self).depths() == res.0 && final(self).colors() == res.1
            }),
    {
        pipeline.process(
            self.width, self.height, vertices, self.view, self.proj,
            &mut self.backbuffer, &mut self.depthbuffer,
        );
        proof {
            lemma_s_rast_len(
                old(pipeline).shader(), old(self).depths(), old(self).colors(),
                s_positions(old(pipeline).shader(), vertices@,
                    s_combined(old(self).proj_mat(), old(self).view_mat())),
                s_attrs(old(pipeline).shader(), vertices@,
                    s_combined(old(self).proj_mat(), old(self).view_mat())),
                vertices@.len() as int / 3,
                old(self).spec_width() as int, old(self).spec_height() as int,
            );
        }
    }

    /// A read-only view of the color buffer for presentation.
    pub fn backbuffer(&self) -> (r: &Vec<Rgba>)
        ensures
            r@ == self.colors(),
    {
        &self.backbuffer
    }

    /// The depth buffer rendered to RGBA texels for debug visualization: each
    /// cell becomes the four little-endian bytes of its `u32` value.
    #[verifier::loop_isolation(false)]
    pub fn depthbuffer(&self) -> (r: Vec<Rgba>)
        ensures
            r@.len() == self.depths().len(),
            forall|i: int| 0 <= i < r@.len() ==> r@[i] == s_depth_rgba(self.depths()[i]),
    {
        let n = self.depthbuffer.len();
        let mut r: Vec<Rgba> = Vec::new();
        let mut k: usize = 0;
        while k < n
            invariant
                k <= n,
                r@.len() == k as int,
                forall|i: int| 0 <= i < k as int ==> r@[i] == s_depth_rgba(self.depthbuffer@[i]),
            decreases n - k,
        {
            let d = self.depthbuffer[k];
            r.push(Rgba {
                r: (d % 256) as u8,
                g: (d / 256 % 256) as u8,
                b: (d / 65536 % 256) as u8,
                a: (d / 16777216 % 256) as u8,
            });
            k = k + 1;
        }
        r
    }
}

} // verus!
