use vstd::prelude::*;

verus! {

/// The size in pixels of a surface, a swapchain image or a viewport.
#[derive(Clone, Copy, Debug, PartialEq, Eq, Structural)]
pub struct Extent {
    pub width: u32,
    pub height: u32,
}

impl Extent {
    /// A degenerate extent has no area: a minimised window reports one.
    pub open spec fn degenerate(self) -> bool {
        self.width == 0 || self.height == 0
    }

    pub fn new(width: u32, height: u32) -> (r: Extent)
        ensures
            r.width == width,
            r.height == height,
    {
        Extent { width, height }
    }

    /// Whether no swapchain can be built at this extent.
    pub fn is_degenerate(&self) -> (r: bool)
        ensures
            r == self.degenerate(),
    {
        self.width == 0 || self.height == 0
    }
}

} // verus!
