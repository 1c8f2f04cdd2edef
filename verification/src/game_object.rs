//! The engine's boundary to the game-object model.
//!
//! The game model — paddle and ball positions, velocity, collision and AI
//! logic — is an external collaborator of the render engine: it supplies a
//! fresh rectangle list every frame and reacts to player input.  The engine
//! makes no assumption about what the rectangles represent.  Only the plain
//! vocabulary the two sides share is defined here.

use vstd::prelude::*;

verus! {

/// A queued movement of a paddle, one game step per command.
#[derive(Clone, Copy, Debug, PartialEq, Eq, Structural)]
pub enum MoveCommand {
    UP,
    DOWN,
}

/// Who steers a paddle.
#[derive(Clone, Copy, Debug, PartialEq, Eq, Structural)]
pub enum PaddleType {
    PLAYER,
    AI,
}

} // verus!
