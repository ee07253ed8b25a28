//! The swapchain manager: the core's record of the chain of presentable
//! images, and the decisions behind creating and recreating it.
//!
//! The chain itself lives in the graphics driver; this module keeps the
//! plain facts the present loop reasons about — the image format and
//! presentation mode chosen at creation, the current extent, and how many
//! images the chain holds — and decides, from the surface's reported
//! capabilities, whether a requested size can back a chain at all.

use vstd::prelude::*;
use crate::extent::{Extent, ExtentBounds};

verus! {

/// Why creating or recreating a swapchain failed.
///
/// `UnsupportedExtent` is transient: the surface rejected the requested
/// size (a minimized window, say), and the caller may simply try again
/// later. `DeviceError` stands for any other presentation-engine failure
/// and is fatal to the caller's current attempt.
#[derive(Clone, Copy, Debug, PartialEq, Eq, Structural)]
pub enum SwapchainError {
    UnsupportedExtent,
    DeviceError,
}

/// What the surface reports about itself, reduced to plain values: the
/// fewest images a chain on it may hold, the extents it accepts, and its
/// supported image formats in the engine's order of preference.
#[derive(Debug, PartialEq, Eq)]
pub struct SurfaceCaps {
    pub min_image_count: usize,
    pub bounds: ExtentBounds,
    pub formats: Vec<u32>,
}

/// The core's record of one swapchain generation. Never mutated in
/// place: a resize or an out-of-date report replaces it wholesale.
#[derive(Clone, Copy, Debug, PartialEq, Eq, Structural)]
pub struct SwapchainState {
    /// Numeric identifier of the image format chosen at creation.
    pub format: u32,
    /// Numeric identifier of the presentation mode chosen at creation.
    pub present_mode: u32,
    /// The extent the images were created with.
    pub extent: Extent,
    /// How many presentable images the chain holds.
    pub image_count: usize,
}

impl SwapchainState {
    /// Double buffering is the floor: a chain with fewer than two images
    /// cannot overlap rendering with presentation.
    pub open spec fn spec_wf(self) -> bool {
        self.image_count >= 2
    }

    /// How many images to request: the surface's minimum, raised to two
    /// where the surface would allow fewer.
    pub open spec fn spec_planned_count(caps: SurfaceCaps) -> usize {
        if caps.min_image_count >= 2 {
            caps.min_image_count
        } else {
            2
        }
    }

    /// Plan a new swapchain for a surface.
    ///
    /// Succeeds exactly when the surface accepts `requested` and reports
    /// at least one image format; the chain then uses the surface's
    /// preferred (first) format, the planned image count, and the
    /// requested extent. Fails with `UnsupportedExtent` exactly when the
    /// surface rejects the size, and with `DeviceError` when the surface
    /// reports no format at all.
    pub fn create(caps: &SurfaceCaps, requested: Extent, present_mode: u32) -> (r: Result<
        SwapchainState,
        SwapchainError,
    >)
        ensures
            r matches Ok(s) ==> {
                &&& caps.bounds.spec_supports(requested)
                &&& caps.formats.len() > 0
                &&& s == (SwapchainState {
                    format: caps.formats[0],
                    present_mode,
                    extent: requested,
                    image_count: SwapchainState::spec_planned_count(*caps),
                })
                &&& s.spec_wf()
            },
            r == Err::<SwapchainState, SwapchainError>(SwapchainError::UnsupportedExtent)
                <==> !caps.bounds.spec_supports(requested),
            r == Err::<SwapchainState, SwapchainError>(SwapchainError::DeviceError)
                <==> caps.bounds.spec_supports(requested) && caps.formats.len() == 0,
            r is Ok <==> caps.bounds.spec_supports(requested) && caps.formats.len() > 0,
    {
        if !caps.bounds.supports(&requested) {
            Err(SwapchainError::UnsupportedExtent)
        } else if caps.formats.len() == 0 {
            Err(SwapchainError::DeviceError)
        } else {
            let image_count: usize = if caps.min_image_count >= 2 {
                caps.min_image_count
            } else {
                2
            };
            Ok(
                SwapchainState {
                    format: caps.formats[0],
                    present_mode,
                    extent: requested,
                    image_count,
                },
            )
        }
    }

    /// Plan the replacement of this chain at a new size.
    ///
    /// The format, presentation mode and image count carry over from the
    /// existing chain; only the extent changes. Succeeds exactly when the
    /// surface accepts `new_extent`, and fails with `UnsupportedExtent`
    /// otherwise. The old images are not referenced by the result; the
    /// caller must have drained in-flight work before tearing them down.
    pub fn recreate(&self, bounds: &ExtentBounds, new_extent: Extent) -> (r: Result<
        SwapchainState,
        SwapchainError,
    >)
        ensures
            r is Ok <==> bounds.spec_supports(new_extent),
            r matches Ok(s) ==> s == (SwapchainState { extent: new_extent, ..*self }),
            r is Err ==> r == Err::<SwapchainState, SwapchainError>(
                SwapchainError::UnsupportedExtent,
            ),
    {
        if bounds.supports(&new_extent) {
            Ok(SwapchainState { extent: new_extent, ..*self })
        } else {
            Err(SwapchainError::UnsupportedExtent)
        }
    }
}

} // verus!
