//! The render engine: frame submission and the swapchain validity state
//! machine.
//!
//! The engine is single-threaded and synchronous: one frame is fully
//! retired before the next begins.  Its swapchain is always in exactly one
//! of two states, [`SwapchainStatus::Valid`] or [`SwapchainStatus::Stale`].
//! A resize notification or an out-of-date / suboptimal report from the
//! presentation engine moves it to `Stale`; recreation — unconditional and
//! total, always rebuilding swapchain and framebuffers together — moves it
//! back to `Valid`.
//!
//! The GPU and window-system calls themselves happen outside the library:
//! each frame, the caller recreates, uploads, records, submits and presents
//! as this model directs, and feeds back the outcome of the acquisition and
//! of the completion wait as plain values.  [`RenderEngine::draw`] is the
//! whole per-frame protocol over those outcomes; the step methods it is
//! built from are public so the caller can interleave the real calls.

use vstd::prelude::*;
use crate::command_buffer::{frame_commands, record_commands, RenderCommand};
use crate::geometry::{get_square_buffers, indices_of, vertices_of, Rect, Vertex};
use crate::pipeline::{
    get_pipeline, get_render_pass, pipeline_for, render_pass_for, PipelineDesc, RenderPassDesc,
    Viewport,
};
use crate::swapchain::{
    create_swapchain, created_swapchain, recreate_swapchain_desc, recreated_swapchain, Extent,
    SurfaceCapabilities, SwapchainDesc,
};

verus! {

/// Validity of the swapchain: the presentable images either match the
/// surface, or are stale and must be recreated before the next acquisition.
#[derive(Clone, Copy, Debug, PartialEq, Eq, Structural)]
pub enum SwapchainStatus {
    Valid,
    Stale,
}

/// What acquiring the next presentable image reported.  Any other
/// acquisition error is fatal and never reaches the engine.
#[derive(Clone, Copy, Debug, PartialEq, Eq, Structural)]
pub enum AcquireOutcome {
    /// An image was acquired.  `suboptimal` means it is still usable but no
    /// longer an exact match for the surface, e.g. mid-resize.
    Acquired { image_index: u32, suboptimal: bool },
    /// The swapchain no longer matches the surface; nothing was acquired.
    OutOfDate,
}

/// What waiting on the frame's completion signal reported.
#[derive(Clone, Copy, Debug, PartialEq, Eq, Structural)]
pub enum PresentOutcome {
    Completed,
    /// The presentation engine reported the swapchain out-of-date.
    OutOfDate,
    /// Any other completion failure: diagnosed and absorbed, never
    /// propagated to the caller.
    Failure,
}

/// Everything one `draw` call decided and produced: whether the swapchain
/// was recreated first, the uploaded geometry, the recorded command buffer
/// (empty when the frame was dropped), and whether the frame was submitted
/// and presented.
#[derive(Debug)]
pub struct FrameOutput {
    pub recreated: bool,
    pub vertices: Vec<Vertex>,
    pub indices: Vec<u32>,
    pub commands: Vec<RenderCommand>,
    pub presented: bool,
}

/// The render engine's state: the current window extent, the live
/// swapchain and its framebuffer count, the render pass, the pipeline with
/// its baked-in viewport, and the swapchain validity status.
#[derive(Clone, Copy, Debug, PartialEq, Eq, Structural)]
pub struct RenderEngine {
    pub window_extent: Extent,
    pub swapchain: SwapchainDesc,
    /// Number of framebuffers; always one per swapchain image.
    pub framebuffer_count: u32,
    pub render_pass: RenderPassDesc,
    pub pipeline: PipelineDesc,
    pub status: SwapchainStatus,
}

/// The engine with only its swapchain status replaced.
pub open spec fn with_status(e: RenderEngine, status: SwapchainStatus) -> RenderEngine {
    RenderEngine { status, ..e }
}

/// The engine after swapchain recreation: the swapchain is rebuilt at the
/// current window extent keeping all other creation parameters, the
/// framebuffers are rebuilt one per image, and the swapchain is valid
/// again.  The pipeline is untouched; only resize handling rebuilds it.
pub open spec fn recreated_engine(e: RenderEngine) -> RenderEngine {
    RenderEngine {
        swapchain: recreated_swapchain(e.swapchain, e.window_extent),
        framebuffer_count: e.swapchain.image_count,
        status: SwapchainStatus::Valid,
        ..e
    }
}

/// The engine at the moment of acquisition: recreated first when and only
/// when it was stale.
pub open spec fn after_begin_frame(e: RenderEngine) -> RenderEngine {
    if e.status is Stale {
        recreated_engine(e)
    } else {
        e
    }
}

/// The engine after the acquisition outcome is applied: out-of-date or a
/// suboptimal image marks the swapchain stale for the next frame.
pub open spec fn after_acquire(e: RenderEngine, acquire: AcquireOutcome) -> RenderEngine {
    match acquire {
        AcquireOutcome::OutOfDate => with_status(e, SwapchainStatus::Stale),
        AcquireOutcome::Acquired { suboptimal, .. } => if suboptimal {
            with_status(e, SwapchainStatus::Stale)
        } else {
            e
        },
    }
}

/// The engine after the completion wait: an out-of-date report marks the
/// swapchain stale; any other failure is absorbed with no state change.
pub open spec fn after_present_wait(e: RenderEngine, present: PresentOutcome) -> RenderEngine {
    match present {
        PresentOutcome::OutOfDate => with_status(e, SwapchainStatus::Stale),
        _ => e,
    }
}

/// One whole frame of the validity state machine: recreation when stale,
/// then the acquisition outcome; the completion outcome applies only when
/// an image was acquired, since an out-of-date acquisition aborts the frame
/// before anything is submitted.
pub open spec fn frame_step(
    e: RenderEngine,
    acquire: AcquireOutcome,
    present: PresentOutcome,
) -> RenderEngine {
    let at_acquire = after_begin_frame(e);
    match acquire {
        AcquireOutcome::OutOfDate => after_acquire(at_acquire, acquire),
        AcquireOutcome::Acquired { .. } => after_present_wait(
            after_acquire(at_acquire, acquire),
            present,
        ),
    }
}

/// The engine after a resize notification: window extent updated, swapchain
/// and framebuffers rebuilt at the new extent, and a brand-new pipeline
/// bound to a viewport of the new extent.
pub open spec fn resized_engine(e: RenderEngine, window_size: Extent) -> RenderEngine {
    let moved = RenderEngine { window_extent: window_size, ..e };
    RenderEngine {
        pipeline: pipeline_for(Viewport { extent: window_size }),
        ..recreated_engine(moved)
    }
}

impl RenderEngine {
    /// Internal consistency of the engine: framebuffers are one-to-one with
    /// swapchain images, there is at least one image, the render pass
    /// matches the swapchain's format, the pipeline's viewport covers the
    /// window, and a valid swapchain matches the window extent — a resize
    /// is fully handled before the next frame is submitted.
    pub open spec fn well_formed(self) -> bool {
        &&& self.framebuffer_count == self.swapchain.image_count
        &&& self.swapchain.image_count >= 1
        &&& self.render_pass == render_pass_for(self.swapchain.format)
        &&& self.pipeline == pipeline_for(Viewport { extent: self.window_extent })
        &&& self.status is Valid ==> self.swapchain.extent == self.window_extent
    }

    /// Builds the engine for a fresh window: swapchain created from the
    /// surface capabilities at the window size, framebuffers one per
    /// image, the render pass in the swapchain's format, and the pipeline
    /// bound to the full-window viewport.  The capability lists must be
    /// non-empty and leave room for one image above the reported minimum;
    /// a platform where they do not is a fatal startup precondition the
    /// caller checks.
    pub fn new(window_size: Extent, caps: &SurfaceCapabilities) -> (e: RenderEngine)
        requires
            caps.min_image_count < u32::MAX,
            caps.supported_composite_alpha@.len() > 0,
            caps.supported_formats@.len() > 0,
        ensures
            e.window_extent == window_size,
            e.swapchain == created_swapchain(*caps, window_size),
            e.framebuffer_count == e.swapchain.image_count,
            e.render_pass == render_pass_for(e.swapchain.format),
            e.pipeline == pipeline_for(Viewport { extent: window_size }),
            e.status is Valid,
            e.well_formed(),
    {
        let swapchain = create_swapchain(caps, window_size);
        let render_pass = get_render_pass(swapchain.format);
        let pipeline = get_pipeline(Viewport { extent: window_size });
        RenderEngine {
            window_extent: window_size,
            swapchain,
            framebuffer_count: swapchain.image_count,
            render_pass,
            pipeline,
            status: SwapchainStatus::Valid,
        }
    }

    /// Recreates the swapchain and its framebuffers at the current window
    /// extent and marks the swapchain valid.  The previous generation is
    /// discarded wholesale; the pipeline is not rebuilt here.
    pub fn recreate_swapchain(&mut self)
        ensures
            *final(self) == recreated_engine(*old(self)),
            final(self).status is Valid,
            final(self).swapchain.extent == old(self).window_extent,
            final(self).framebuffer_count == final(self).swapchain.image_count,
    {
        let swapchain = recreate_swapchain_desc(&self.swapchain, self.window_extent);
        self.swapchain = swapchain;
        self.framebuffer_count = swapchain.image_count;
        self.status = SwapchainStatus::Valid;
    }

    /// Handles a window-resize notification: recreates the swapchain and
    /// framebuffers at the new window size and rebuilds the pipeline with
    /// a viewport of that size, in dependency order.  Calling this twice
    /// in succession with the same size yields the same engine as calling
    /// it once (see [`lemma_on_window_resized_idempotent`]).
    pub fn on_window_resized(&mut self, window_size: Extent)
        ensures
            *final(self) == resized_engine(*old(self), window_size),
            final(self).window_extent == window_size,
            final(self).swapchain == recreated_swapchain(old(self).swapchain, window_size),
            final(self).framebuffer_count == final(self).swapchain.image_count,
            final(self).pipeline == pipeline_for(Viewport { extent: window_size }),
            final(self).status is Valid,
            old(self).well_formed() ==> final(self).well_formed(),
    {
        self.window_extent = window_size;
        self.recreate_swapchain();
        self.pipeline = get_pipeline(Viewport { extent: window_size });
    }

    /// Applies an acquisition outcome to the validity status: out-of-date
    /// or a suboptimal image marks the swapchain stale for the next frame.
    /// Returns whether the frame goes on to be drawn: an out-of-date
    /// acquisition aborts it, a suboptimal image is still drawn.
    pub fn handle_acquire(&mut self, acquire: AcquireOutcome) -> (proceed: bool)
        ensures
            *final(self) == after_acquire(*old(self), acquire),
            proceed == (acquire is Acquired),
    {
        match acquire {
            AcquireOutcome::OutOfDate => {
                self.status = SwapchainStatus::Stale;
                false
            },
            AcquireOutcome::Acquired { suboptimal, .. } => {
                if suboptimal {
                    self.status = SwapchainStatus::Stale;
                }
                true
            },
        }
    }

    /// Applies the completion-wait outcome: an out-of-date report marks the
    /// swapchain stale for the next frame; any other failure drops the
    /// frame's confirmation but changes nothing.
    pub fn handle_present_wait(&mut self, present: PresentOutcome)
        ensures
            *final(self) == after_present_wait(*old(self), present),
    {
        match present {
            PresentOutcome::OutOfDate => {
                self.status = SwapchainStatus::Stale;
            },
            _ => {},
        }
    }

    /// One whole frame, strictly ordered: recreate the swapchain and
    /// framebuffers first if the swapchain is stale; upload the frame's
    /// geometry; then, against the acquisition outcome the caller obtained,
    /// either abort the frame (out-of-date: nothing is drawn or presented,
    /// and the next frame recreates first) or record the frame's command
    /// buffer on the framebuffer at the acquired index, submit, present,
    /// and apply the completion outcome.  The caller performs the actual
    /// GPU calls in this same order and passes in what they reported.
    pub fn draw(
        &mut self,
        rects: &Vec<Rect>,
        acquire: AcquireOutcome,
        present: PresentOutcome,
    ) -> (out: FrameOutput)
        requires
            old(self).well_formed(),
            rects@.len() * 6 <= u32::MAX,
            acquire matches AcquireOutcome::Acquired { image_index, .. } ==> image_index < old(
                self,
            ).swapchain.image_count,
        ensures
            *final(self) == frame_step(*old(self), acquire, present),
            final(self).well_formed(),
            out.recreated == (old(self).status is Stale),
            out.vertices@ == vertices_of(rects@),
            out.indices@ == indices_of(rects@),
            out.presented == (acquire is Acquired),
            acquire matches AcquireOutcome::Acquired { image_index, .. } ==> {
                &&& out.commands@ == frame_commands(image_index, rects@.len() as int)
                &&& image_index < after_begin_frame(*old(self)).framebuffer_count
            },
            acquire is OutOfDate ==> out.commands@.len() == 0 && final(self).status is Stale,
    {
        let recreated = match self.status {
            SwapchainStatus::Stale => true,
            SwapchainStatus::Valid => false,
        };
        if recreated {
            self.recreate_swapchain();
        }
        let (vertices, indices) = get_square_buffers(rects);
        match acquire {
            AcquireOutcome::OutOfDate => {
                self.status = SwapchainStatus::Stale;
                FrameOutput { recreated, vertices, indices, commands: Vec::new(), presented: false }
            },
            AcquireOutcome::Acquired { image_index, suboptimal } => {
                if suboptimal {
                    self.status = SwapchainStatus::Stale;
                }
                let commands = record_commands(image_index, rects.len());
                match present {
                    PresentOutcome::OutOfDate => {
                        self.status = SwapchainStatus::Stale;
                    },
                    _ => {},
                }
                FrameOutput { recreated, vertices, indices, commands, presented: true }
            },
        }
    }
}

/// Handling a resize notification is idempotent: with no intervening size
/// change, resizing twice in succession yields an engine — swapchain,
/// framebuffers and pipeline included — equal to resizing once.
pub proof fn lemma_on_window_resized_idempotent(e: RenderEngine, window_size: Extent)
    ensures
        resized_engine(resized_engine(e, window_size), window_size) == resized_engine(
            e,
            window_size,
        ),
{
}

/// The swapchain validity state machine: a frame beginning on a stale
/// engine performs exactly one recreation and acquires only afterwards, on
/// a valid swapchain matching the window; a frame beginning on a valid
/// engine acquires immediately, with no recreation; and a whole frame
/// preserves the engine's well-formedness.
pub proof fn lemma_swapchain_state_machine(
    e: RenderEngine,
    acquire: AcquireOutcome,
    present: PresentOutcome,
)
    requires
        e.well_formed(),
    ensures
        after_begin_frame(e).status is Valid,
        after_begin_frame(e).well_formed(),
        after_begin_frame(e).swapchain.extent == e.window_extent,
        e.status is Stale ==> after_begin_frame(e) == recreated_engine(e),
        e.status is Valid ==> after_begin_frame(e) == e,
        frame_step(e, acquire, present).well_formed(),
{
}

/// The engine after a whole sequence of frames, given the acquisition and
/// completion outcomes of each.
pub open spec fn run_frames(
    e: RenderEngine,
    outcomes: Seq<(AcquireOutcome, PresentOutcome)>,
) -> RenderEngine
    decreases outcomes.len(),
{
    if outcomes.len() == 0 {
        e
    } else {
        frame_step(run_frames(e, outcomes.drop_last()), outcomes.last().0, outcomes.last().1)
    }
}

/// After any sequence of acquire/present outcomes the engine is still
/// well-formed: framebuffers stay one-to-one with swapchain images, and
/// the swapchain — always in exactly one of the two states valid or stale
/// — matches the window extent whenever it is valid.
pub proof fn lemma_well_formed_after_any_frames(
    e: RenderEngine,
    outcomes: Seq<(AcquireOutcome, PresentOutcome)>,
)
    requires
        e.well_formed(),
    ensures
        run_frames(e, outcomes).well_formed(),
    decreases outcomes.len(),
{
    if outcomes.len() > 0 {
        lemma_well_formed_after_any_frames(e, outcomes.drop_last());
        lemma_swapchain_state_machine(
            run_frames(e, outcomes.drop_last()),
            outcomes.last().0,
            outcomes.last().1,
        );
    }
}

} // verus!
