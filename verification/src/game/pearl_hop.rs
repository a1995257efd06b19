//! Shelly's Pearl Hop: what a find is worth where she lives, and the steps
//! of her first-time show-off.
use crate::chars::{decimal, push_decimal, push_str, str_eq};
use vstd::prelude::*;

verus! {

/// The key Shelly's first-time show-off is remembered under.
pub const PEARL_HOP_DEMO: &'static str = "pearl_hop";

/// The steps of Shelly's first-time demo.
#[derive(Clone, Copy, PartialEq, Eq, Debug, Structural)]
pub enum DemoStep {
    /// Shelly scrunches herself back, counting, and lets go.
    SelfToss,
    /// Her toss plays out (it misses).
    Watching,
    /// A hand grabs her and shows the pull, without letting go.
    HandShows,
}

/// Pearls one find is worth where this Shelly lives: the trench Shelly pays
/// double, every other one pays one.
pub open spec fn pearl_hop_base_spec(home_map: Seq<char>) -> u32 {
    if home_map == "trench"@ {
        2
    } else {
        1
    }
}

/// What a find is worth where this Shelly lives.
pub fn pearl_hop_base(home_map: &str) -> (b: u32)
    ensures
        b == pearl_hop_base_spec(home_map@),
{
    if str_eq(home_map, "trench") {
        2
    } else {
        1
    }
}

/// The stage of a Pearl Hop round: what the kid is asked to work out.
#[derive(Clone, Copy, PartialEq, Eq, Debug, Structural)]
pub enum HopStage {
    /// Count the stones to the pearl.
    Count,
    /// Shelly always hops the same size.
    SkipCount,
    /// Reach the pearl in a given number of hops.
    Hops,
    /// Estimate where the pearl sank on an unmarked line.
    Estimate,
}

/// What Shelly's opener needs of a round: its stage, the pearl's stone, the
/// number of hops asked for, and the far rock's number.
#[derive(Clone, Copy, PartialEq, Eq, Debug, Structural)]
pub struct HopCall {
    pub stage: HopStage,
    pub pearl: u32,
    pub hops: u32,
    pub span: u32,
}

/// Shelly's opener for a round.
pub open spec fn opening_text(c: HopCall) -> Seq<char> {
    match c.stage {
        HopStage::Count => "My pearl is on stone "@ + decimal(c.pearl as nat) + "! Fling me there!"@,
        HopStage::SkipCount => "I always hop the same size! Get me to my pearl on "@ + decimal(
            c.pearl as nat,
        ) + "!"@,
        HopStage::Hops => "Get me to my pearl on "@ + decimal(c.pearl as nat) + " in "@ + decimal(
            c.hops as nat,
        ) + " hops!"@,
        HopStage::Estimate => "My pearl sank at "@ + decimal(c.pearl as nat) + "! The far rock is "@
            + decimal(c.span as nat) + "."@,
    }
}

/// Shelly's opener: where the pearl is and, past the first stage, the one
/// rule of the round.
pub fn opening_line(c: &HopCall) -> (s: String)
    ensures
        s@ == opening_text(*c),
{
    let mut s = String::new();
    match c.stage {
        HopStage::Count => {
            push_str(&mut s, "My pearl is on stone ");
            push_decimal(&mut s, c.pearl as u64);
            push_str(&mut s, "! Fling me there!");
        },
        HopStage::SkipCount => {
            push_str(&mut s, "I always hop the same size! Get me to my pearl on ");
            push_decimal(&mut s, c.pearl as u64);
            push_str(&mut s, "!");
        },
        HopStage::Hops => {
            push_str(&mut s, "Get me to my pearl on ");
            push_decimal(&mut s, c.pearl as u64);
            push_str(&mut s, " in ");
            push_decimal(&mut s, c.hops as u64);
            push_str(&mut s, " hops!");
        },
        HopStage::Estimate => {
            push_str(&mut s, "My pearl sank at ");
            push_decimal(&mut s, c.pearl as u64);
            push_str(&mut s, "! The far rock is ");
            push_decimal(&mut s, c.span as u64);
            push_str(&mut s, ".");
        },
    }
    s
}

} // verus!
