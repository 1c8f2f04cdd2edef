//! Swapchain manager: the presentable image chain and its framebuffers.
//!
//! A swapchain is described by the plain values the engine decides on —
//! extent, image count, surface format and composite alpha — while the
//! window-system edge realizes them as actual images.  The swapchain is
//! replaced wholesale, never mutated in place: recreation keeps every
//! creation parameter except the extent, which is taken from the current
//! window size.  Framebuffers are one-to-one with swapchain images, each
//! wrapping the default view of its image with no further attachments.

use vstd::prelude::*;

verus! {

/// A width and height in pixels.
#[derive(Clone, Copy, Debug, PartialEq, Eq, Structural)]
pub struct Extent {
    pub width: u32,
    pub height: u32,
}

/// What the platform reports the surface supports.  The format and
/// composite-alpha lists are opaque platform tokens in the order reported;
/// the engine's only policy is to take the first supported value of each.
#[derive(Debug)]
pub struct SurfaceCapabilities {
    /// The smallest image count the presentation engine accepts.
    pub min_image_count: u32,
    /// Supported composite-alpha modes, first reported first.
    pub supported_composite_alpha: Vec<u32>,
    /// Supported surface formats, first reported first.
    pub supported_formats: Vec<u32>,
}

/// The creation parameters of a live swapchain.
#[derive(Clone, Copy, Debug, PartialEq, Eq, Structural)]
pub struct SwapchainDesc {
    pub extent: Extent,
    pub image_count: u32,
    pub format: u32,
    pub composite_alpha: u32,
}

/// A framebuffer: binds the default view of one swapchain image to the
/// render pass, with no additional attachments.
#[derive(Clone, Copy, Debug, PartialEq, Eq, Structural)]
pub struct FramebufferDesc {
    /// Index of the swapchain image this framebuffer wraps.
    pub image_index: u32,
}

/// The swapchain the engine creates over the given capabilities and window
/// size: one image more than the reported minimum, to avoid blocking on the
/// presentation engine, and the first supported format and composite-alpha
/// mode.
pub open spec fn created_swapchain(caps: SurfaceCapabilities, window_size: Extent) -> SwapchainDesc {
    SwapchainDesc {
        extent: window_size,
        image_count: (caps.min_image_count + 1) as u32,
        format: caps.supported_formats@[0],
        composite_alpha: caps.supported_composite_alpha@[0],
    }
}

/// The swapchain after recreation at a new window size: every creation
/// parameter is kept except the extent.
pub open spec fn recreated_swapchain(sc: SwapchainDesc, window_size: Extent) -> SwapchainDesc {
    SwapchainDesc { extent: window_size, ..sc }
}

/// Creates the swapchain description for the given surface capabilities and
/// window size: image count is the capability-reported minimum plus one,
/// and the surface format and composite alpha are the first values the
/// platform reports as supported.  The capability lists must be non-empty
/// and the minimum image count leave room for one more: a platform
/// violating that is a fatal startup precondition the caller checks.
pub fn create_swapchain(caps: &SurfaceCapabilities, window_size: Extent) -> (sc: SwapchainDesc)
    requires
        caps.min_image_count < u32::MAX,
        caps.supported_composite_alpha@.len() > 0,
        caps.supported_formats@.len() > 0,
    ensures
        sc == created_swapchain(*caps, window_size),
        sc.image_count == caps.min_image_count + 1,
        sc.extent == window_size,
{
    SwapchainDesc {
        extent: window_size,
        image_count: caps.min_image_count + 1,
        format: caps.supported_formats[0],
        composite_alpha: caps.supported_composite_alpha[0],
    }
}

/// Recreates the swapchain at a new window size, keeping all other creation
/// parameters.  Recreating twice with the same size yields the same
/// swapchain as recreating once.
pub fn recreate_swapchain_desc(sc: &SwapchainDesc, window_size: Extent) -> (r: SwapchainDesc)
    ensures
        r == recreated_swapchain(*sc, window_size),
        r.image_count == sc.image_count,
        r.format == sc.format,
        r.composite_alpha == sc.composite_alpha,
        r.extent == window_size,
{
    SwapchainDesc { extent: window_size, ..*sc }
}

/// Recreation is idempotent: recreating at the same window size a second
/// time changes nothing, so repeated resize notifications with no
/// intervening size change are safe.
pub proof fn lemma_recreate_idempotent(sc: SwapchainDesc, window_size: Extent)
    ensures
        recreated_swapchain(recreated_swapchain(sc, window_size), window_size)
            == recreated_swapchain(sc, window_size),
{
}

/// Builds the framebuffer descriptions for a swapchain of `image_count`
/// images: exactly one per image, in image order, the `i`-th wrapping the
/// default view of image `i`.
pub fn get_framebuffers(image_count: u32) -> (fbs: Vec<FramebufferDesc>)
    ensures
        fbs@.len() == image_count,
        forall|i: int| 0 <= i < image_count ==> (#[trigger] fbs@[i]).image_index == i,
{
    let mut fbs: Vec<FramebufferDesc> = Vec::new();
    let mut i: u32 = 0;
    while i < image_count
        invariant
            i <= image_count,
            fbs@.len() == i,
            forall|j: int| 0 <= j < i ==> (#[trigger] fbs@[j]).image_index == j,
        decreases image_count - i,
    {
        fbs.push(FramebufferDesc { image_index: i });
        i += 1;
    }
    fbs
}

} // verus!
