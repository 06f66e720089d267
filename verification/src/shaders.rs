//! The sample material: interpolable color and texture-coordinate attributes
//! and the two shading stages that render interpolated texture coordinates as
//! color channels.

use vstd::prelude::*;
use crate::fixed::{FX_ONE, CLIP_LIM, VTX_LIM, COMB_LIM, fx_bounded};
use crate::math::{
    Vec2i, Vec2fx, Vec3fx, Vec4fx, Mat4, vec2_bounded, vec3_bounded, vec4_bounded, mat4_bounded,
    mat4_mul_vec4, s_mat4_mul_vec4,
};
use crate::rasterizer::{Blend, Shader, blend_channel, s_blend_ch};

verus! {

/// An RGB color attribute.
#[derive(Clone, Copy)]
pub struct Color(pub Vec3fx);

impl Blend for Color {
    open spec fn wf(self) -> bool {
        vec3_bounded(self.0, CLIP_LIM as int)
    }

    open spec fn blend_spec(a: Self, aw: i64, b: Self, bw: i64, c: Self, cw: i64) -> Self {
        Color(Vec3fx {
            x: s_blend_ch(a.0.x as int, aw as int, b.0.x as int, bw as int, c.0.x as int,
                cw as int) as i64,
            y: s_blend_ch(a.0.y as int, aw as int, b.0.y as int, bw as int, c.0.y as int,
                cw as int) as i64,
            z: s_blend_ch(a.0.z as int, aw as int, b.0.z as int, bw as int, c.0.z as int,
                cw as int) as i64,
        })
    }

    fn blend(a: Self, aw: i64, b: Self, bw: i64, c: Self, cw: i64) -> (r: Self) {
        Color(Vec3fx {
            x: blend_channel(a.0.x, aw, b.0.x, bw, c.0.x, cw),
            y: blend_channel(a.0.y, aw, b.0.y, bw, c.0.y, cw),
            z: blend_channel(a.0.z, aw, b.0.z, bw, c.0.z, cw),
        })
    }
}

/// A texture-coordinate attribute.
#[derive(Clone, Copy)]
pub struct Uv(pub Vec2fx);

impl Blend for Uv {
    open spec fn wf(self) -> bool {
        vec2_bounded(self.0, CLIP_LIM as int)
    }

    open spec fn blend_spec(a: Self, aw: i64, b: Self, bw: i64, c: Self, cw: i64) -> Self {
        Uv(Vec2fx {
            x: s_blend_ch(a.0.x as int, aw as int, b.0.x as int, bw as int, c.0.x as int,
                cw as int) as i64,
            y: s_blend_ch(a.0.y as int, aw as int, b.0.y as int, bw as int, c.0.y as int,
                cw as int) as i64,
        })
    }

    fn blend(a: Self, aw: i64, b: Self, bw: i64, c: Self, cw: i64) -> (r: Self) {
        Uv(Vec2fx {
            x: blend_channel(a.0.x, aw, b.0.x, bw, c.0.x, cw),
            y: blend_channel(a.0.y, aw, b.0.y, bw, c.0.y, cw),
        })
    }
}

/// An input vertex: a model-space position and a texture coordinate.
#[derive(Clone, Copy)]
pub struct Vertex {
    pub pos: Vec3fx,
    pub uv: Vec2fx,
}

/// Vertices the sample vertex stage accepts: components within `VTX_LIM`.
pub open spec fn vertex_bounded(v: Vertex) -> bool {
    vec3_bounded(v.pos, VTX_LIM as int) && vec2_bounded(v.uv, VTX_LIM as int)
}

/// The sample vertex stage, mathematically: pass the texture coordinate
/// through and transform the homogeneous position by the combined matrix.
pub open spec fn s_vertex_shader(input: Vertex, mat: Mat4) -> (Uv, Vec4fx) {
    (
        Uv(input.uv),
        s_mat4_mul_vec4(
            mat,
            (Vec4fx { x: input.pos.x, y: input.pos.y, z: input.pos.z, w: FX_ONE }),
        ),
    )
}

/// The sample vertex stage.
pub fn vertex_shader(input: Vertex, mat: &Mat4) -> (r: (Uv, Vec4fx))
    requires
        vertex_bounded(input),
        mat4_bounded(*mat, COMB_LIM as int),
    ensures
        r == s_vertex_shader(input, *mat),
        r.0.wf(),
        vec4_bounded(r.1, CLIP_LIM as int),
{
    let hp = Vec4fx { x: input.pos.x, y: input.pos.y, z: input.pos.z, w: FX_ONE };
    let out = mat4_mul_vec4(mat, &hp, Ghost(COMB_LIM as int), Ghost(VTX_LIM as int));
    (Uv(input.uv), out)
}

/// The sample fragment stage, mathematically: the texture coordinate becomes
/// the red and green channels; blue and alpha are full.
pub open spec fn s_fragment_shader(fragment: Vec2i, input: Uv) -> Vec4fx {
    Vec4fx { x: input.0.x, y: input.0.y, z: FX_ONE, w: FX_ONE }
}

/// The sample fragment stage.
pub fn fragment_shader(fragment: Vec2i, input: Uv) -> (r: Vec4fx)
    ensures
        r == s_fragment_shader(fragment, input),
{
    Vec4fx { x: input.0.x, y: input.0.y, z: FX_ONE, w: FX_ONE }
}

/// The sample material, wiring the two stages into the pipeline.
#[derive(Clone, Copy)]
pub struct UvShader;

impl Shader for UvShader {
    type V = Vertex;

    type A = Uv;

    open spec fn vertex_wf(self, v: Vertex) -> bool {
        vertex_bounded(v)
    }

    open spec fn transform_spec(self, v: Vertex, m: Mat4) -> (Uv, Vec4fx) {
        s_vertex_shader(v, m)
    }

    open spec fn shade_spec(self, p: Vec2i, a: Uv) -> Vec4fx {
        s_fragment_shader(p, a)
    }

    fn transform(&self, v: &Vertex, m: &Mat4) -> (r: (Uv, Vec4fx)) {
        vertex_shader(*v, m)
    }

    fn shade(&self, p: Vec2i, a: Uv) -> (r: Vec4fx) {
        fragment_shader(p, a)
    }
}

} // verus!
