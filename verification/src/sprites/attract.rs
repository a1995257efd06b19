//! Attract beacons: the marker drawn over a minigame host.
use vstd::prelude::*;

verus! {

/// Which game a host's beacon advertises.
#[derive(Debug, Clone, Copy, PartialEq, Eq, Structural)]
pub enum Beacon {
    /// Shelly's Pearl Hop.
    Pearl,
    /// Inkwell's dive.
    Dive,
}

} // verus!
