//! Startup configuration for the window and the batching capacity limits.

use vstd::prelude::*;

verus! {

/// Configuration fixed once at startup: window parameters for the host
/// event loop, and the per-draw-call capacity limits that the batching
/// engine enforces for the lifetime of the process.
#[derive(Clone, Debug)]
pub struct WindowConfig {
    pub window_title: String,
    pub window_width: i32,
    pub window_height: i32,
    pub high_dpi: bool,
    pub fullscreen: bool,
    pub resizable: bool,

    pub max_vertices_per_draw: usize,
    pub max_indices_per_draw: usize,
}

impl WindowConfig {
    /// Whether the capacity limits admit a draw context: both nonzero, and
    /// the vertex limit addressable by the 16-bit indices of the index arena.
    pub open spec fn spec_limits_valid(self) -> bool {
        &&& 1 <= self.max_vertices_per_draw <= 0x10000
        &&& 1 <= self.max_indices_per_draw
    }

    /// Checks the capacity limits; a `false` here is the fatal configuration
    /// error that must keep the process from entering the event loop.
    pub fn limits_valid(&self) -> (ok: bool)
        ensures
            ok == self.spec_limits_valid(),
    {
        1 <= self.max_vertices_per_draw && self.max_vertices_per_draw <= 0x10000
            && 1 <= self.max_indices_per_draw
    }
}

impl Default for WindowConfig {
    /// An 800x600 fixed-size window with room for 10000 vertices and 30000
    /// indices per draw call.
    fn default() -> (c: Self)
        ensures
            c.window_title@ == "Porcelain App"@,
            c.window_width == 800,
            c.window_height == 600,
            !c.high_dpi,
            !c.fullscreen,
            !c.resizable,
            c.max_vertices_per_draw == 10000,
            c.max_indices_per_draw == 30000,
            c.spec_limits_valid(),
    {
        WindowConfig {
            window_title: "Porcelain App".to_owned(),
            window_width: 800,
            window_height: 600,
            high_dpi: false,
            fullscreen: false,
            resizable: false,
            max_vertices_per_draw: 10000,
            max_indices_per_draw: 30000,
        }
    }
}

} // verus!
