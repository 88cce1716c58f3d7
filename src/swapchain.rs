use vstd::prelude::*;

use crate::extent::Extent;

verus! {

/// How presented images are queued for display.
#[derive(Clone, Copy, Debug, PartialEq, Eq, Structural)]
pub enum PresentMode {
    Immediate,
    Mailbox,
    Fifo,
    FifoRelaxed,
}

/// What a surface reports it can take.
#[derive(Clone, Debug)]
pub struct SurfaceCaps {
    pub min_image_count: u32,
    /// No upper bound where `None`.
    pub max_image_count: Option<u32>,
    /// How many pixel formats the surface offers, in its order of preference.
    pub format_count: usize,
    pub present_modes: Vec<PresentMode>,
}

/// The parameters to create or recreate a swapchain with.
#[derive(Clone, Copy, Debug, PartialEq, Eq, Structural)]
pub struct SwapchainPlan {
    pub image_count: u32,
    /// Index into the surface's list of formats.
    pub format_index: usize,
    pub present_mode: PresentMode,
    pub extent: Extent,
}

#[derive(Clone, Copy, Debug, PartialEq, Eq, Structural)]
pub enum SwapchainError {
    /// The surface offers no format, no mailbox presentation, or cannot hold
    /// one image more than its minimum.
    SurfaceUnsupported,
    /// The extent has no area: skip this tick and retry later.
    EmptyExtent,
}

/// One image more than the surface's minimum, so that one image can be
/// rendered while the others wait for display; `None` where the surface's
/// maximum (zero for none) does not allow that many.
pub open spec fn image_count_for(min: u32, max: Option<u32>) -> Option<u32> {
    if min == u32::MAX {
        None
    } else {
        match max {
            Some(m) => if m > 0 && m < min + 1 {
                None
            } else {
                Some((min + 1) as u32)
            },
            None => Some((min + 1) as u32),
        }
    }
}

/// A surface can take the swapchain when it offers a format, mailbox
/// presentation and enough images.
pub open spec fn supported(caps: SurfaceCaps) -> bool {
    &&& caps.format_count > 0
    &&& caps.present_modes@.contains(PresentMode::Mailbox)
    &&& image_count_for(caps.min_image_count, caps.max_image_count).is_some()
}

pub open spec fn plan_for(caps: SurfaceCaps, extent: Extent) -> Result<SwapchainPlan, SwapchainError> {
    if !supported(caps) {
        Err(SwapchainError::SurfaceUnsupported)
    } else if extent.degenerate() {
        Err(SwapchainError::EmptyExtent)
    } else {
        Ok(
            SwapchainPlan {
                image_count: image_count_for(caps.min_image_count, caps.max_image_count).unwrap(),
                format_index: 0,
                present_mode: PresentMode::Mailbox,
                extent,
            },
        )
    }
}

fn offers(modes: &Vec<PresentMode>, mode: PresentMode) -> (r: bool)
    ensures
        r == modes@.contains(mode),
{
    let mut i: usize = 0;
    while i < modes.len()
        invariant
            i <= modes@.len(),
            forall|j: int| 0 <= j < i ==> modes@[j] != mode,
        decreases modes.len() - i,
    {
        if modes[i] == mode {
            assert(modes@[i as int] == mode);
            return true;
        }
        i = i + 1;
    }
    false
}

/// The swapchain to build on a surface with `caps` at `extent`, used both
/// at creation and at every recreation: mailbox presentation, the
/// surface's first format, and one image more than its minimum.
pub fn plan_swapchain(caps: &SurfaceCaps, extent: Extent) -> (r: Result<SwapchainPlan, SwapchainError>)
    ensures
        r == plan_for(*caps, extent),
{
    if caps.format_count == 0 || !offers(&caps.present_modes, PresentMode::Mailbox) {
        return Err(SwapchainError::SurfaceUnsupported);
    }
    if caps.min_image_count == u32::MAX {
        return Err(SwapchainError::SurfaceUnsupported);
    }
    let image_count = caps.min_image_count + 1;
    if let Some(m) = caps.max_image_count {
        if m > 0 && m < image_count {
            return Err(SwapchainError::SurfaceUnsupported);
        }
    }
    if extent.is_degenerate() {
        return Err(SwapchainError::EmptyExtent);
    }
    Ok(SwapchainPlan { image_count, format_index: 0, present_mode: PresentMode::Mailbox, extent })
}

} // verus!
