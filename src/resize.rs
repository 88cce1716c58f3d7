use vstd::prelude::*;

use crate::extent::Extent;

verus! {

/// What has to be rebuilt before the next image is acquired.
#[derive(Clone, Copy, Debug, PartialEq, Eq, Structural)]
pub enum Rebuild {
    /// The swapchain still matches the surface.
    Nothing,
    /// A rebuild is due but the extent is degenerate: skip this tick and
    /// retry on a later one.
    Deferred,
    /// The surface went stale without a size change: recreate the
    /// swapchain, keep the pipeline.
    Swapchain,
    /// The window was resized: recreate the swapchain and rebuild the
    /// viewport-dependent pipeline state.
    SwapchainAndPipeline,
}

/// The values of the two rebuild flags.
#[derive(Clone, Copy, Debug, PartialEq, Eq, Structural)]
pub struct ResizeFlags {
    pub pending_resize: bool,
    pub pending_recreate: bool,
}

impl ResizeFlags {
    pub open spec fn resized(self) -> ResizeFlags {
        ResizeFlags { pending_resize: true, ..self }
    }

    pub open spec fn stale(self) -> ResizeFlags {
        ResizeFlags { pending_recreate: true, ..self }
    }

    pub open spec fn swapchain_done(self) -> ResizeFlags {
        ResizeFlags { pending_recreate: false, ..self }
    }

    pub open spec fn pipeline_done(self) -> ResizeFlags {
        ResizeFlags { pending_resize: false, ..self }
    }

    pub open spec fn rebuild_for(self, extent: Extent) -> Rebuild {
        if !self.pending_resize && !self.pending_recreate {
            Rebuild::Nothing
        } else if extent.degenerate() {
            Rebuild::Deferred
        } else if self.pending_resize {
            Rebuild::SwapchainAndPipeline
        } else {
            Rebuild::Swapchain
        }
    }
}

/// The two sticky flags that ask for a rebuild.
///
/// Any code may set them; only the completion of the matching rebuild step
/// clears them, so a failed rebuild is retried on the next tick.
#[derive(Clone, Copy, Debug, PartialEq, Eq)]
pub struct ResizeCoordinator {
    /// Set by the windowing side when the window changed size.
    pending_resize: bool,
    /// Set when acquire or present reported the surface out of date or
    /// suboptimal.
    pending_recreate: bool,
}

impl View for ResizeCoordinator {
    type V = ResizeFlags;

    closed spec fn view(&self) -> ResizeFlags {
        ResizeFlags { pending_resize: self.pending_resize, pending_recreate: self.pending_recreate }
    }
}

impl ResizeCoordinator {
    pub fn new() -> (r: ResizeCoordinator)
        ensures
            r@ == (ResizeFlags { pending_resize: false, pending_recreate: false }),
    {
        ResizeCoordinator { pending_resize: false, pending_recreate: false }
    }

    pub fn pending_resize(&self) -> (r: bool)
        ensures
            r == self@.pending_resize,
    {
        self.pending_resize
    }

    pub fn pending_recreate(&self) -> (r: bool)
        ensures
            r == self@.pending_recreate,
    {
        self.pending_recreate
    }

    /// The window changed size.
    pub fn notify_resize(&mut self)
        ensures
            final(self)@ == old(self)@.resized(),
    {
        self.pending_resize = true;
    }

    /// The surface no longer matches the swapchain, or matches it poorly.
    pub fn notify_stale(&mut self)
        ensures
            final(self)@ == old(self)@.stale(),
    {
        self.pending_recreate = true;
    }

    /// Decides, once per tick, what has to be rebuilt at `extent`.
    pub fn maybe_rebuild(&self, extent: Extent) -> (r: Rebuild)
        ensures
            r == self@.rebuild_for(extent),
    {
        if !self.pending_resize && !self.pending_recreate {
            Rebuild::Nothing
        } else if extent.is_degenerate() {
            Rebuild::Deferred
        } else if self.pending_resize {
            Rebuild::SwapchainAndPipeline
        } else {
            Rebuild::Swapchain
        }
    }

    /// The swapchain was recreated: a stale surface is dealt with.
    pub fn swapchain_rebuilt(&mut self)
        ensures
            final(self)@ == old(self)@.swapchain_done(),
    {
        self.pending_recreate = false;
    }

    /// The pipeline was rebuilt for the new extent: the resize is dealt with.
    pub fn pipeline_rebuilt(&mut self)
        ensures
            final(self)@ == old(self)@.pipeline_done(),
    {
        self.pending_resize = false;
    }
}

} // verus!
