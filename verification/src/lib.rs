//! A software rasterizer: a two-stage shading pipeline (vertex transform and
//! per-pixel fragment shading) over a triangle-filling core with bounding-box
//! culling, edge-function inside tests, barycentric interpolation and
//! depth-buffered visibility, all in fixed-point arithmetic.

pub mod fixed;
pub mod laws;
pub mod math;
pub mod rasterizer;
pub mod shaders;

pub use fixed::FX_ONE;
