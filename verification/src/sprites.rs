//! Sprite-side data: facing directions, the outfit palette, attract beacons.
pub mod attract;
pub mod player;

use vstd::prelude::*;

verus! {

/// Facing direction of a sprite.
#[derive(Clone, Copy, PartialEq, Eq, Debug, Structural)]
pub enum Dir {
    Up,
    Down,
    Left,
    Right,
}

/// The legacy byte encoding of a facing direction (0 up, 1 down, 2 left,
/// anything else right).
pub open spec fn dir_of_u8(v: u8) -> Dir {
    if v == 0 {
        Dir::Up
    } else if v == 1 {
        Dir::Down
    } else if v == 2 {
        Dir::Left
    } else {
        Dir::Right
    }
}

impl Dir {
    /// Convert from the legacy u8 (0=up, 1=down, 2=left, 3=right) used by old saves.
    pub fn from_u8(v: u8) -> (d: Dir)
        ensures
            d == dir_of_u8(v),
    {
        match v {
            0 => Dir::Up,
            1 => Dir::Down,
            2 => Dir::Left,
            _ => Dir::Right,
        }
    }
}

} // verus!
