//! Drawable sizes and the range of sizes a surface accepts.

use vstd::prelude::*;

verus! {

/// A drawable size in pixels, as the surface reports it.
#[derive(Clone, Copy, Debug, PartialEq, Eq, Structural)]
pub struct Extent {
    pub width: u32,
    pub height: u32,
}

impl Extent {
    /// An extent can back presentable images only if it has nonzero area;
    /// a minimized window typically reports `0 x 0`.
    pub open spec fn spec_usable(self) -> bool {
        self.width > 0 && self.height > 0
    }

    pub fn new(width: u32, height: u32) -> (e: Extent)
        ensures
            e == (Extent { width, height }),
    {
        Extent { width, height }
    }

    pub fn usable(&self) -> (r: bool)
        ensures
            r == self.spec_usable(),
    {
        self.width > 0 && self.height > 0
    }
}

/// The inclusive range of image extents the presentation engine accepts
/// for a surface, as its capabilities report it.
#[derive(Clone, Copy, Debug, PartialEq, Eq, Structural)]
pub struct ExtentBounds {
    pub min: Extent,
    pub max: Extent,
}

impl ExtentBounds {
    /// Whether the presentation engine accepts `e` as an image extent.
    pub open spec fn spec_supports(self, e: Extent) -> bool {
        &&& self.min.width <= e.width <= self.max.width
        &&& self.min.height <= e.height <= self.max.height
    }

    pub fn supports(&self, e: &Extent) -> (r: bool)
        ensures
            r == self.spec_supports(*e),
    {
        self.min.width <= e.width && e.width <= self.max.width
            && self.min.height <= e.height && e.height <= self.max.height
    }
}

} // verus!
