//! Grid movement intents: what an entity asks the move resolver to do on a
//! frame.
use vstd::prelude::*;

verus! {

/// One orthogonal grid step.
#[derive(Clone, Copy, PartialEq, Eq, Debug, Structural)]
pub enum Direction {
    Up,
    Down,
    Left,
    Right,
}

/// What an entity wants to do this frame.
#[derive(Clone, Copy, PartialEq, Eq, Debug, Structural)]
pub enum MoveIntent {
    Stay,
    Move(Direction),
}

} // verus!
