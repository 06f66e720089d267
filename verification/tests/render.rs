//! End-to-end frames through the pipeline: one scenario per rendering rule.

use sw_rast::fixed::FX_ONE;
use sw_rast::math::{Vec2fx, Vec3fx, mat4_identity};
use sw_rast::rasterizer::{Pipeline, Rasterizer, Rgba};
use sw_rast::shaders::{UvShader, Vertex};

// A vertex whose screen coordinates are given directly in fixed point, one
// unit in front of the camera: with identity matrices the model scale and
// the perspective divide cancel exactly, so `sx`/`sy` are the screen
// coordinates the pixel mapping sees.
fn screen_vertex(sx: i64, sy: i64, u: i64, v: i64) -> Vertex {
    Vertex {
        pos: Vec3fx { x: sx, y: sy, z: -FX_ONE },
        uv: Vec2fx { x: u, y: v },
    }
}

// Screen coordinates that map exactly to the pixels (100,100), (150,200)
// and (200,100) of an 854x640 buffer.
const SX_100: i64 = 15349 - 65536;
const SX_150: i64 = 23023 - 65536;
const SX_200: i64 = 30697 - 65536;
const SY_100: i64 = 65536 - 20480;
const SY_200: i64 = 65536 - 40960;

const W: u32 = 854;
const H: u32 = 640;

fn centroid_idx() -> usize {
    133 * 854 + 150
}

fn draw_frame(vertices: &[Vertex]) -> Rasterizer {
    let mut r = Rasterizer::new(W, H);
    let mut p = Pipeline::new(UvShader);
    r.set_view(mat4_identity());
    r.set_proj(mat4_identity());
    r.clear();
    r.draw(&mut p, vertices);
    r
}

#[test]
fn centroid_of_uniform_triangle_shades_and_writes_depth() {
    // A triangle with pixel-space corners (100,100), (150,200), (200,100)
    // and the uniform attribute (0.5, 0.5) at all three corners: the pixel
    // at the centroid (150,133) shades to the fragment stage's color for
    // that attribute, and its depth cell is no longer the cleared maximum.
    let u = FX_ONE / 2;
    let tri = [
        screen_vertex(SX_100, SY_100, u, u),
        screen_vertex(SX_150, SY_200, u, u),
        screen_vertex(SX_200, SY_100, u, u),
    ];
    let r = draw_frame(&tri);
    let idx = centroid_idx();
    let texel = r.backbuffer()[idx];
    assert_eq!(texel, Rgba { r: 127, g: 127, b: 255, a: 255 });
    let dvis = r.depthbuffer();
    assert_ne!(dvis[idx], Rgba { r: 255, g: 255, b: 255, a: 255 });
    // the interpolated clip depth is negative here, so it clamps to zero
    assert_eq!(dvis[idx], Rgba { r: 0, g: 0, b: 0, a: 0 });
    // a pixel outside the triangle keeps the cleared values
    let outside: usize = 10 * 854 + 10;
    assert_eq!(r.backbuffer()[outside], Rgba { r: 0, g: 0, b: 0, a: 0 });
    assert_eq!(dvis[outside], Rgba { r: 255, g: 255, b: 255, a: 255 });
}

#[test]
fn drawing_twice_equals_drawing_once() {
    // Depth-test idempotence: the second pass fails the strict depth test
    // at every pixel it would write.
    let u = FX_ONE / 2;
    let tri = [
        screen_vertex(SX_100, SY_100, u, u),
        screen_vertex(SX_150, SY_200, u, u),
        screen_vertex(SX_200, SY_100, u, u),
    ];
    let once = draw_frame(&tri);
    let mut twice = Rasterizer::new(W, H);
    let mut p = Pipeline::new(UvShader);
    twice.clear();
    twice.draw(&mut p, &tri);
    twice.draw(&mut p, &tri);
    assert_eq!(once.backbuffer(), twice.backbuffer());
    assert_eq!(once.depthbuffer(), twice.depthbuffer());
}

#[test]
fn collinear_triangle_writes_nothing() {
    // Three distinct collinear corners, mapping to the pixels (100,100),
    // (150,133), (200,166): signed area zero, so not one pixel is written.
    let u = FX_ONE;
    let tri = [
        screen_vertex(SX_100, SY_100, u, u),
        screen_vertex(SX_150, 65536 - 27239, u, u),
        screen_vertex(SX_200, 65536 - 33997, u, u),
    ];
    let r = draw_frame(&tri);
    let back = r.backbuffer();
    let dvis = r.depthbuffer();
    for i in 0..(W as usize * H as usize) {
        assert_eq!(back[i], Rgba { r: 0, g: 0, b: 0, a: 0 });
        assert_eq!(dvis[i], Rgba { r: 255, g: 255, b: 255, a: 255 });
    }
}

#[test]
fn negative_winding_is_culled() {
    // The same triangle with its corners submitted in the opposite order has
    // negative signed area and is dropped silently.
    let u = FX_ONE;
    let tri = [
        screen_vertex(SX_100, SY_100, u, u),
        screen_vertex(SX_200, SY_100, u, u),
        screen_vertex(SX_150, SY_200, u, u),
    ];
    let r = draw_frame(&tri);
    assert_eq!(r.backbuffer()[centroid_idx()], Rgba { r: 0, g: 0, b: 0, a: 0 });
}

#[test]
fn nearer_triangle_wins_either_order() {
    // Two overlapping triangles at different depths at the probe pixel
    // (140,150): the near one (all corners one unit in front, interpolated
    // depth clamps to zero) shades (127,127,255,255); the far one has all
    // three corners behind the camera plane, so they saturate to the
    // corners of the guard band and its interpolated depth at every covered
    // viewport pixel is positive. Whichever is submitted first, the near
    // triangle's shading remains.
    let un = FX_ONE / 2;
    let near = [
        screen_vertex(SX_100, SY_100, un, un),
        screen_vertex(SX_150, SY_200, un, un),
        screen_vertex(SX_200, SY_100, un, un),
    ];
    let far = [
        Vertex { pos: Vec3fx { x: -FX_ONE, y: FX_ONE, z: FX_ONE }, uv: Vec2fx { x: 0, y: 0 } },
        Vertex { pos: Vec3fx { x: -FX_ONE, y: -FX_ONE, z: FX_ONE }, uv: Vec2fx { x: 0, y: 0 } },
        Vertex { pos: Vec3fx { x: FX_ONE, y: -FX_ONE, z: FX_ONE }, uv: Vec2fx { x: 0, y: 0 } },
    ];
    let mut near_first: Vec<Vertex> = Vec::new();
    near_first.extend_from_slice(&near);
    near_first.extend_from_slice(&far);
    let mut far_first: Vec<Vertex> = Vec::new();
    far_first.extend_from_slice(&far);
    far_first.extend_from_slice(&near);
    let a = draw_frame(&near_first);
    let b = draw_frame(&far_first);
    let idx: usize = 150 * 854 + 140;
    let expected = Rgba { r: 127, g: 127, b: 255, a: 255 };
    // the far triangle alone does write the probe pixel
    let f = draw_frame(&far);
    assert_eq!(f.backbuffer()[idx], Rgba { r: 0, g: 0, b: 255, a: 255 });
    assert_ne!(f.depthbuffer()[idx], Rgba { r: 255, g: 255, b: 255, a: 255 });
    assert_eq!(a.backbuffer()[idx], expected);
    assert_eq!(b.backbuffer()[idx], expected);
    // and the final depth is the near triangle's in both orders
    assert_eq!(a.depthbuffer()[idx], Rgba { r: 0, g: 0, b: 0, a: 0 });
    assert_eq!(b.depthbuffer()[idx], Rgba { r: 0, g: 0, b: 0, a: 0 });
}

#[test]
fn clear_resets_color_and_depth() {
    // After a draw has dirtied the buffers, `clear` sets every color texel
    // to (0,0,0,0) and every depth cell to u32::MAX.
    let u = FX_ONE;
    let tri = [
        screen_vertex(SX_100, SY_100, u, u),
        screen_vertex(SX_150, SY_200, u, u),
        screen_vertex(SX_200, SY_100, u, u),
    ];
    let mut r = draw_frame(&tri);
    assert_ne!(r.backbuffer()[centroid_idx()], Rgba { r: 0, g: 0, b: 0, a: 0 });
    r.clear();
    let back = r.backbuffer();
    let dvis = r.depthbuffer();
    for i in 0..(W as usize * H as usize) {
        assert_eq!(back[i], Rgba { r: 0, g: 0, b: 0, a: 0 });
        assert_eq!(dvis[i], Rgba { r: 255, g: 255, b: 255, a: 255 });
    }
}

#[test]
fn trailing_vertices_short_of_a_triangle_are_ignored() {
    let u = FX_ONE / 2;
    let tri = [
        screen_vertex(SX_100, SY_100, u, u),
        screen_vertex(SX_150, SY_200, u, u),
        screen_vertex(SX_200, SY_100, u, u),
    ];
    let mut four: Vec<Vertex> = Vec::new();
    four.extend_from_slice(&tri);
    four.push(screen_vertex(SX_100, SY_200, u, u));
    let a = draw_frame(&tri);
    let b = draw_frame(&four);
    assert_eq!(a.backbuffer(), b.backbuffer());
    assert_eq!(a.depthbuffer(), b.depthbuffer());
}

#[test]
fn empty_vertex_list_draws_nothing() {
    let r = draw_frame(&[]);
    assert_eq!(r.backbuffer()[0], Rgba { r: 0, g: 0, b: 0, a: 0 });
    assert_eq!(r.depthbuffer()[0], Rgba { r: 255, g: 255, b: 255, a: 255 });
}
