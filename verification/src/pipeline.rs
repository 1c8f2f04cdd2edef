//! Pipeline builder: the render pass and the graphics pipeline.
//!
//! The engine draws with one minimal 2D rasterization pipeline: a vertex
//! stage consuming a single two-component position attribute in NDC, a
//! fragment stage emitting a constant solid color, no depth or stencil
//! test, default multisampling, and one color attachment with
//! clear-then-store semantics.  The pipeline is immutable once built and
//! has its viewport baked in: any change of window extent requires building
//! a brand-new pipeline, which is acceptable because resizes are rare
//! relative to the frame rate.

use vstd::prelude::*;
use crate::swapchain::Extent;

verus! {

/// The single-subpass render pass the engine draws with: one color
/// attachment in the swapchain's format, single-sampled, cleared on load
/// and stored on end, and no depth or stencil attachment.
#[derive(Clone, Copy, Debug, PartialEq, Eq, Structural)]
pub struct RenderPassDesc {
    /// Format of the color attachment; must match the swapchain's.
    pub format: u32,
    pub samples: u32,
    /// The attachment is cleared when the pass begins.
    pub clear_on_load: bool,
    /// The attachment is stored when the pass ends.
    pub store_on_end: bool,
}

/// The viewport a pipeline is bound to: the full window, from the origin,
/// with the default unit depth range.
#[derive(Clone, Copy, Debug, PartialEq, Eq, Structural)]
pub struct Viewport {
    pub extent: Extent,
}

/// The graphics pipeline's configuration.  The two shader stages, vertex
/// layout, rasterization and blend state are fixed assets of the engine;
/// the viewport is the only varying parameter and is baked in, not dynamic
/// state.
#[derive(Clone, Copy, Debug, PartialEq, Eq, Structural)]
pub struct PipelineDesc {
    pub viewport: Viewport,
}

/// The render pass for a swapchain of the given format.
pub open spec fn render_pass_for(format: u32) -> RenderPassDesc {
    RenderPassDesc { format, samples: 1, clear_on_load: true, store_on_end: true }
}

/// The pipeline bound to the given viewport.
pub open spec fn pipeline_for(viewport: Viewport) -> PipelineDesc {
    PipelineDesc { viewport }
}

/// Builds the render pass description: a single pass over one
/// single-sampled color attachment in the swapchain's format, with
/// clear-then-store semantics and no depth or stencil attachment.
pub fn get_render_pass(format: u32) -> (rp: RenderPassDesc)
    ensures
        rp == render_pass_for(format),
        rp.format == format,
        rp.samples == 1,
        rp.clear_on_load,
        rp.store_on_end,
{
    RenderPassDesc { format, samples: 1, clear_on_load: true, store_on_end: true }
}

/// Builds the graphics pipeline description bound to the given viewport.
/// The pipeline is rebuilt — never mutated — whenever the viewport
/// changes.
pub fn get_pipeline(viewport: Viewport) -> (p: PipelineDesc)
    ensures
        p == pipeline_for(viewport),
        p.viewport == viewport,
{
    PipelineDesc { viewport }
}

} // verus!
