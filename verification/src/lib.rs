//! A CPU-only triangle rasterizer over 16.16 fixed-point arithmetic.
//!
//! Triangle meshes in clip space are culled against the view frustum,
//! clipped against the near plane, perspective-divided, scan-converted
//! inside their screen bounding box, depth-tested and shaded into a
//! packed-color buffer plus a depth buffer.
//!
//! - [`fixed`]: the saturating fixed-point scalar layer every other
//!   module computes with.
//! - [`vectors`]: componentwise vector and matrix arithmetic.
//! - [`utils`]: the edge function, the barycentric-coordinate solver,
//!   linear remapping, interpolation, color packing and pixel indexing.
//! - [`geometry`]: vertices, triangles, indexed meshes, bounding boxes.
//! - [`texture`]: packed texels and wrapping texture sampling.
//! - [`clip`]: view-frustum rejection and near-plane clipping.
//! - [`raster`]: the per-pixel scan-conversion loops and mesh drivers.

pub mod fixed;
pub mod vectors;
pub mod utils;
pub mod geometry;
pub mod texture;
pub mod clip;
pub mod raster;
