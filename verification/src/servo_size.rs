//! Edge-triggered resize request for one surface.

use vstd::prelude::*;

verus! {

/// Host-facing resize request: the dimensions a surface should take on the
/// next driver tick. `dirty` is the edge trigger: the host sets it together
/// with new dimensions, the driver applies the resize exactly once and
/// clears it.
///
/// Dimensions are always positive: an allocation of a zero-sized render
/// target can never succeed, and a pending resize is signaled by `dirty`,
/// never by a sentinel dimension value.
pub struct ServoSize {
    pub width: u32,
    pub height: u32,
    pub dirty: bool,
}

impl ServoSize {
    /// The request holds dimensions a framebuffer allocation can use.
    pub open spec fn wf(self) -> bool {
        self.width > 0 && self.height > 0
    }

    /// A fresh resize request; it starts dirty so the next tick applies it.
    pub fn new(width: u32, height: u32) -> (r: Self)
        requires
            width > 0,
            height > 0,
        ensures
            r == (ServoSize { width, height, dirty: true }),
    {
        Self { width, height, dirty: true }
    }
}

impl From<(u32, u32)> for ServoSize {
    fn from(dim: (u32, u32)) -> (r: Self)
        ensures
            r == (ServoSize { width: dim.0, height: dim.1, dirty: true }),
    {
        Self { width: dim.0, height: dim.1, dirty: true }
    }
}

impl vstd::std_specs::convert::FromSpecImpl<(u32, u32)> for ServoSize {
    open spec fn obeys_from_spec() -> bool {
        true
    }

    open spec fn from_spec(dim: (u32, u32)) -> Self {
        ServoSize { width: dim.0, height: dim.1, dirty: true }
    }
}

} // verus!
