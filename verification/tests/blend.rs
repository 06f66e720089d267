//! The blend capability on concrete values.

use sw_rast::fixed::FX_ONE;
use sw_rast::math::{Vec2fx, Vec3fx, Vec2i, mat4_identity};
use sw_rast::rasterizer::Blend;
use sw_rast::shaders::{Color, Uv, Vertex, vertex_shader, fragment_shader};

#[test]
fn uv_blend_full_weight_on_first_is_identity() {
    // blend(A, 1.0, B, 0.0, C, 0.0) == A, exactly.
    let a = Uv(Vec2fx { x: 12345, y: -777 });
    let b = Uv(Vec2fx { x: 99999, y: 1 });
    let c = Uv(Vec2fx { x: -4, y: 65536 });
    let r = Uv::blend(a, FX_ONE, b, 0, c, 0);
    assert_eq!(r.0, a.0);
}

#[test]
fn color_blend_full_weight_on_first_is_identity() {
    let a = Color(Vec3fx { x: 1, y: 2, z: -65536 });
    let b = Color(Vec3fx { x: 7, y: 8, z: 9 });
    let c = Color(Vec3fx { x: -7, y: -8, z: -9 });
    let r = Color::blend(a, FX_ONE, b, 0, c, 0);
    assert_eq!(r.0, a.0);
}

#[test]
fn uv_blend_even_thirds() {
    // Weights of roughly one third each: (1.5 * 21845) / 65536 floors to
    // 32767 in fixed point.
    let a = Uv(Vec2fx { x: FX_ONE, y: 0 });
    let b = Uv(Vec2fx { x: FX_ONE, y: 0 });
    let c = Uv(Vec2fx { x: FX_ONE / 2, y: 0 });
    let w: i64 = 21845;
    let r = Uv::blend(a, w, b, w, c, w);
    assert_eq!(r.0.x, (65536 * 21845 + 65536 * 21845 + 32768 * 21845) / 65536);
    assert_eq!(r.0.y, 0);
}

#[test]
fn vertex_shader_passes_uv_and_transforms_position() {
    let v = Vertex {
        pos: Vec3fx { x: 100, y: -200, z: 300 },
        uv: Vec2fx { x: 11, y: 22 },
    };
    let m = mat4_identity();
    let (uv, clip) = vertex_shader(v, &m);
    assert_eq!(uv.0, v.uv);
    assert_eq!(clip.x, 100);
    assert_eq!(clip.y, -200);
    assert_eq!(clip.z, 300);
    assert_eq!(clip.w, FX_ONE);
}

#[test]
fn fragment_shader_maps_uv_to_red_green() {
    let uv = Uv(Vec2fx { x: 123, y: 456 });
    let c = fragment_shader(Vec2i { x: 5, y: 6 }, uv);
    assert_eq!(c.x, 123);
    assert_eq!(c.y, 456);
    assert_eq!(c.z, FX_ONE);
    assert_eq!(c.w, FX_ONE);
}
