//! Two-dimensional pixel extents of the drawable surface and the swapchain.

use vstd::prelude::*;

verus! {

/// A width and height in pixels. An extent with zero area means the surface
/// is not presentable (the window is minimized) and rendering must pause.
#[derive(Clone, Copy, Debug, PartialEq, Eq, Structural)]
pub struct Extent {
    pub width: u32,
    pub height: u32,
}

impl Extent {
    /// True when both sides are nonzero, so the surface can be rendered to.
    pub open spec fn spec_has_area(self) -> bool {
        self.width > 0 && self.height > 0
    }

    /// Executable test for a nonzero drawable area.
    pub fn has_area(&self) -> (r: bool)
        ensures
            r == self.spec_has_area(),
    {
        self.width > 0 && self.height > 0
    }
}

} // verus!
