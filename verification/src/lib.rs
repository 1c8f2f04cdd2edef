//! A verified model of a small 2D rectangle-rendering engine.
//!
//! The engine renders a handful of axis-aligned rectangles (paddles, a ball)
//! to a window every frame through an explicit low-level graphics API.  This
//! crate verifies the engine's logic: the game-space to normalized-device
//! coordinate transform and per-frame geometry tessellation, physical-device
//! selection, swapchain and framebuffer lifecycle (including resize and
//! staleness recovery), pipeline configuration, command recording, and the
//! frame submission state machine.  The unverifiable edge — the actual GPU
//! and window-system calls — lives outside the library and drives this model
//! with plain values, handing back the outcome of each acquisition and
//! presentation.

pub mod command_buffer;
pub mod device;
pub mod engine;
pub mod game_object;
pub mod geometry;
pub mod pipeline;
pub mod swapchain;

pub use engine::RenderEngine;
pub use game_object::MoveCommand;
pub use game_object::PaddleType;
