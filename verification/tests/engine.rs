use pong::command_buffer::{ClearColor, RenderCommand};
use pong::engine::{AcquireOutcome, PresentOutcome, RenderEngine, SwapchainStatus};
use pong::geometry::Rect;
use pong::swapchain::{Extent, SurfaceCapabilities};

fn caps() -> SurfaceCapabilities {
    SurfaceCapabilities {
        min_image_count: 2,
        supported_composite_alpha: vec![1],
        supported_formats: vec![37, 44],
    }
}

fn extent(width: u32, height: u32) -> Extent {
    Extent { width, height }
}

fn engine_800_600() -> RenderEngine {
    RenderEngine::new(extent(800, 600), &caps())
}

fn acquired(image_index: u32) -> AcquireOutcome {
    AcquireOutcome::Acquired { image_index, suboptimal: false }
}

#[test]
fn new_engine_picks_first_supported_values() {
    let e = engine_800_600();
    assert_eq!(e.window_extent, extent(800, 600));
    assert_eq!(e.swapchain.extent, extent(800, 600));
    // One image above the reported minimum.
    assert_eq!(e.swapchain.image_count, 3);
    assert_eq!(e.framebuffer_count, 3);
    // First supported format and composite alpha.
    assert_eq!(e.swapchain.format, 37);
    assert_eq!(e.swapchain.composite_alpha, 1);
    assert_eq!(e.render_pass.format, 37);
    assert_eq!(e.render_pass.samples, 1);
    assert!(e.render_pass.clear_on_load);
    assert!(e.render_pass.store_on_end);
    assert_eq!(e.pipeline.viewport.extent, extent(800, 600));
    assert_eq!(e.status, SwapchainStatus::Valid);
}

#[test]
fn empty_draw_presents_clear_frame_without_draw_call() {
    // Construct at 800x600, draw no rectangles: one frame is presented
    // with only the clear color and no draw call is issued.
    let mut e = engine_800_600();
    let out = e.draw(&Vec::new(), acquired(0), PresentOutcome::Completed);
    assert!(out.presented);
    assert!(!out.recreated);
    assert_eq!(out.vertices.len(), 0);
    assert_eq!(out.indices.len(), 0);
    assert_eq!(
        out.commands,
        vec![
            RenderCommand::BeginRenderPass {
                framebuffer_index: 0,
                clear: ClearColor { red: 0, green: 0, blue: 0, alpha: 255 },
            },
            RenderCommand::BindPipeline,
            RenderCommand::BindVertexBuffer,
            RenderCommand::BindIndexBuffer,
            RenderCommand::EndRenderPass,
        ]
    );
    assert_eq!(e.status, SwapchainStatus::Valid);
}

#[test]
fn one_rectangle_draws_six_indices() {
    let mut e = engine_800_600();
    let rects = vec![Rect { x: 0, y: 0, width: 10, height: 10 }];
    let out = e.draw(&rects, acquired(1), PresentOutcome::Completed);
    assert_eq!(out.vertices.len(), 4);
    assert_eq!(out.indices.len(), 6);
    let draws: Vec<&RenderCommand> = out
        .commands
        .iter()
        .filter(|c| matches!(c, RenderCommand::DrawIndexed { .. }))
        .collect();
    assert_eq!(draws.len(), 1);
    assert!(matches!(draws[0], RenderCommand::DrawIndexed { index_count: 6 }));
    assert!(matches!(
        out.commands[0],
        RenderCommand::BeginRenderPass { framebuffer_index: 1, .. }
    ));
}

#[test]
fn resize_rebuilds_swapchain_and_pipeline_before_next_draw() {
    // Resize notification from 800x600 to 1024x768 followed by a draw:
    // swapchain, framebuffers and pipeline viewport are at 1024x768 before
    // the draw's command buffer is recorded.
    let mut e = engine_800_600();
    e.on_window_resized(extent(1024, 768));
    assert_eq!(e.window_extent, extent(1024, 768));
    assert_eq!(e.swapchain.extent, extent(1024, 768));
    assert_eq!(e.framebuffer_count, e.swapchain.image_count);
    assert_eq!(e.pipeline.viewport.extent, extent(1024, 768));
    let before = e;
    let rects = vec![Rect { x: 10, y: 10, width: 5, height: 5 }];
    let out = e.draw(&rects, acquired(0), PresentOutcome::Completed);
    assert!(out.presented);
    assert!(!out.recreated);
    assert_eq!(e.swapchain.extent, extent(1024, 768));
    assert_eq!(e.pipeline, before.pipeline);
}

#[test]
fn resize_twice_with_same_size_is_idempotent() {
    let mut once = engine_800_600();
    once.on_window_resized(extent(640, 480));
    let mut twice = engine_800_600();
    twice.on_window_resized(extent(640, 480));
    twice.on_window_resized(extent(640, 480));
    assert_eq!(once, twice);
}

#[test]
fn resize_keeps_image_count_and_format() {
    let mut e = engine_800_600();
    let before = e.swapchain;
    e.on_window_resized(extent(300, 200));
    assert_eq!(e.swapchain.image_count, before.image_count);
    assert_eq!(e.swapchain.format, before.format);
    assert_eq!(e.swapchain.composite_alpha, before.composite_alpha);
}

#[test]
fn out_of_date_acquire_drops_frame_and_next_draw_recreates() {
    // Acquisition reports out-of-date on frame k: frame k is dropped with
    // no presentation and the swapchain marked stale; frame k+1 performs
    // recreation before acquiring again.
    let mut e = engine_800_600();
    e.on_window_resized(extent(1000, 1000));
    let rects = vec![Rect { x: 0, y: 0, width: 10, height: 10 }];
    let dropped = e.draw(&rects, AcquireOutcome::OutOfDate, PresentOutcome::Completed);
    assert!(!dropped.presented);
    assert_eq!(dropped.commands.len(), 0);
    assert_eq!(e.status, SwapchainStatus::Stale);
    // Geometry was still uploaded before the acquisition failed.
    assert_eq!(dropped.vertices.len(), 4);
    let next = e.draw(&rects, acquired(0), PresentOutcome::Completed);
    assert!(next.recreated);
    assert!(next.presented);
    assert_eq!(e.status, SwapchainStatus::Valid);
}

#[test]
fn suboptimal_acquire_still_presents_but_marks_stale() {
    let mut e = engine_800_600();
    let out = e.draw(
        &Vec::new(),
        AcquireOutcome::Acquired { image_index: 0, suboptimal: true },
        PresentOutcome::Completed,
    );
    assert!(out.presented);
    assert_eq!(e.status, SwapchainStatus::Stale);
    let next = e.draw(&Vec::new(), acquired(0), PresentOutcome::Completed);
    assert!(next.recreated);
    assert_eq!(e.status, SwapchainStatus::Valid);
}

#[test]
fn out_of_date_completion_marks_stale_for_next_frame() {
    let mut e = engine_800_600();
    let out = e.draw(&Vec::new(), acquired(0), PresentOutcome::OutOfDate);
    // The frame itself was presented; staleness applies to the next one.
    assert!(out.presented);
    assert_eq!(e.status, SwapchainStatus::Stale);
}

#[test]
fn soft_completion_failure_drops_frame_quietly() {
    let mut e = engine_800_600();
    let out = e.draw(&Vec::new(), acquired(0), PresentOutcome::Failure);
    assert!(out.presented);
    // No state change: the next frame proceeds normally.
    assert_eq!(e.status, SwapchainStatus::Valid);
    let next = e.draw(&Vec::new(), acquired(0), PresentOutcome::Completed);
    assert!(!next.recreated);
}

#[test]
fn swapchain_is_always_valid_or_stale_under_any_outcome_sequence() {
    let mut e = engine_800_600();
    let outcomes = [
        (acquired(0), PresentOutcome::Completed),
        (AcquireOutcome::OutOfDate, PresentOutcome::Completed),
        (acquired(1), PresentOutcome::OutOfDate),
        (AcquireOutcome::Acquired { image_index: 2, suboptimal: true }, PresentOutcome::Failure),
        (acquired(0), PresentOutcome::Completed),
    ];
    let mut stale = false;
    for (acquire, present) in outcomes {
        let out = e.draw(&Vec::new(), acquire, present);
        // A draw observing a stale swapchain recreates exactly once, first.
        assert_eq!(out.recreated, stale);
        assert!(matches!(e.status, SwapchainStatus::Valid | SwapchainStatus::Stale));
        stale = e.status == SwapchainStatus::Stale;
        // Well-formedness holds after every frame.
        assert_eq!(e.framebuffer_count, e.swapchain.image_count);
        if e.status == SwapchainStatus::Valid {
            assert_eq!(e.swapchain.extent, e.window_extent);
        }
    }
}
