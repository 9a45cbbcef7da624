//! The error taxonomy of the drawing core.

use vstd::prelude::*;

verus! {

/// An error of the drawing core. Every variant reports a programmer or
/// configuration mistake, never a transient condition, so no caller retries:
/// each one propagates to the application code that caused it.
#[derive(Clone, Copy, PartialEq, Eq, Structural, Debug)]
pub enum RenderError {
    /// A per-draw-call capacity limit is zero, or the vertex limit is above
    /// what 16-bit indices can address. Fatal at startup, before the event
    /// loop runs.
    InvalidConfiguration,
    /// A shape parameter outside its domain: a polygon fan with fewer than
    /// three perimeter points, or an arc fan with fewer than two.
    InvalidArgument,
    /// A single shape submission's vertex or index count exceeds the
    /// configured per-call maximum, so it can never fit in one draw call.
    CapacityExceeded,
    /// A pixel buffer's length does not match the declared
    /// width * height * bytes-per-pixel; no texture is registered.
    TextureSizeMismatch,
}

} // verus!
