//! A minimal immediate-mode 2D drawing core.
//!
//! Application code issues per-frame shape and texture draw calls against a
//! [`render::DrawContext`]; the core converts that stream into a small number
//! of GPU-ready draw-call batches, each respecting hard capacity limits and
//! texture locality. Geometry is held in integer pixel coordinates and 8-bit
//! color components; the unverified rendering layer around this crate turns
//! them into the floating-point vertex format its GPU backend expects, and
//! performs every backend call (buffers, textures, pipelines, passes).

use vstd::prelude::*;

pub mod color;
pub mod conf;
pub mod error;
pub mod laws;
pub mod render;
pub mod texture;

verus! {

/// A position in integer pixel coordinates, y growing downward.
#[derive(Clone, Copy, PartialEq, Eq, Structural, Debug)]
pub struct Point {
    pub x: i32,
    pub y: i32,
}

impl Point {
    pub fn new(x: i32, y: i32) -> (p: Point)
        ensures
            p == (Point { x, y }),
    {
        Point { x, y }
    }
}

} // verus!
