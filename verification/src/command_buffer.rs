//! Frame command recording.
//!
//! Each presented frame is driven by one command buffer, recorded after an
//! image has been acquired: begin the render pass on the framebuffer at the
//! acquired index with a fixed opaque-black clear color, bind the pipeline,
//! bind the vertex and index buffers, issue one indexed draw covering all
//! rectangles' indices, and end the render pass.  An empty rectangle list
//! still clears and presents, but issues no draw call.  The commands are
//! modeled as data; the GPU edge replays them in order.

use vstd::prelude::*;

verus! {

/// A color with channels in 1/255 units: 255 is full intensity.
#[derive(Clone, Copy, Debug, PartialEq, Eq, Structural)]
pub struct ClearColor {
    pub red: u8,
    pub green: u8,
    pub blue: u8,
    pub alpha: u8,
}

/// The fixed clear color of every frame: opaque black.
pub open spec fn opaque_black() -> ClearColor {
    ClearColor { red: 0, green: 0, blue: 0, alpha: 255 }
}

/// One recorded command of a frame's command buffer.
#[derive(Clone, Copy, Debug, PartialEq, Eq, Structural)]
pub enum RenderCommand {
    /// Begin the render pass on the framebuffer at `framebuffer_index`,
    /// clearing the color attachment to `clear`.
    BeginRenderPass { framebuffer_index: u32, clear: ClearColor },
    /// Bind the engine's graphics pipeline.
    BindPipeline,
    /// Bind the frame's vertex buffer.
    BindVertexBuffer,
    /// Bind the frame's index buffer.
    BindIndexBuffer,
    /// Issue one indexed draw of `index_count` indices.
    DrawIndexed { index_count: u32 },
    /// End the render pass.
    EndRenderPass,
}

/// The command buffer recorded for a frame: render pass begun on the
/// framebuffer at the acquired image index with an opaque-black clear,
/// pipeline and both geometry buffers bound, one indexed draw covering all
/// `6 * rect_count` indices when there is anything to draw, and the pass
/// ended.
pub open spec fn frame_commands(framebuffer_index: u32, rect_count: int) -> Seq<RenderCommand> {
    seq![
        RenderCommand::BeginRenderPass { framebuffer_index, clear: opaque_black() },
        RenderCommand::BindPipeline,
        RenderCommand::BindVertexBuffer,
        RenderCommand::BindIndexBuffer,
    ] + (if rect_count > 0 {
        seq![RenderCommand::DrawIndexed { index_count: (6 * rect_count) as u32 }]
    } else {
        Seq::empty()
    }) + seq![RenderCommand::EndRenderPass]
}

/// Records the command buffer for one frame over `rect_count` rectangles,
/// targeting the framebuffer at the acquired image index.  Exactly one
/// indexed draw with index count `6 * rect_count` is issued when the
/// rectangle list is non-empty; an empty list records no draw call, so the
/// frame only clears.
pub fn record_commands(framebuffer_index: u32, rect_count: usize) -> (cmds: Vec<RenderCommand>)
    requires
        rect_count * 6 <= u32::MAX,
    ensures
        cmds@ == frame_commands(framebuffer_index, rect_count as int),
{
    let mut cmds: Vec<RenderCommand> = Vec::new();
    cmds.push(
        RenderCommand::BeginRenderPass {
            framebuffer_index,
            clear: ClearColor { red: 0, green: 0, blue: 0, alpha: 255 },
        },
    );
    cmds.push(RenderCommand::BindPipeline);
    cmds.push(RenderCommand::BindVertexBuffer);
    cmds.push(RenderCommand::BindIndexBuffer);
    if rect_count > 0 {
        cmds.push(RenderCommand::DrawIndexed { index_count: (rect_count * 6) as u32 });
    }
    cmds.push(RenderCommand::EndRenderPass);
    proof {
        assert(cmds@ =~= frame_commands(framebuffer_index, rect_count as int));
    }
    cmds
}

} // verus!
