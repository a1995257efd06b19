//! Shelly's pearl leaps: the call she makes naming her pearl's stone and
//! the one clue she gives.
use crate::chars::{decimal, push_decimal, push_str};
use vstd::prelude::*;

verus! {

/// The one clue Shelly gives: the leap size (younger kids skip-count it
/// out), or the number of leaps (older kids work the size out).
#[derive(Clone, Copy, PartialEq, Eq, Debug, Structural)]
pub enum LeapClue {
    Size { n: u32 },
    Count { n: u32 },
}

/// A leap round: the stone the pearl is under, and the clue.
#[derive(Clone, Copy, PartialEq, Eq, Debug, Structural)]
pub struct LeapPuzzle {
    pub pearl: u32,
    pub clue: LeapClue,
}

/// What Shelly says for a round.
pub open spec fn leap_call_spec(p: LeapPuzzle) -> Seq<char> {
    match p.clue {
        LeapClue::Size { n } => "My pearl's under stone "@ + decimal(p.pearl as nat) + "! Leap by "@
            + decimal(n as nat) + "s to reach it!"@,
        LeapClue::Count { n } => "My pearl's under stone "@ + decimal(p.pearl as nat)
            + "! You get there in "@ + decimal(n as nat)
            + " leaps \u{2014} how big is each one?"@,
    }
}

/// Shelly's call: the stone her pearl is under, plus the clue.
pub fn leap_call(puzzle: &LeapPuzzle) -> (s: String)
    ensures
        s@ == leap_call_spec(*puzzle),
{
    let mut s = String::new();
    push_str(&mut s, "My pearl's under stone ");
    push_decimal(&mut s, puzzle.pearl as u64);
    match puzzle.clue {
        LeapClue::Size { n } => {
            push_str(&mut s, "! Leap by ");
            push_decimal(&mut s, n as u64);
            push_str(&mut s, "s to reach it!");
        },
        LeapClue::Count { n } => {
            push_str(&mut s, "! You get there in ");
            push_decimal(&mut s, n as u64);
            push_str(&mut s, " leaps \u{2014} how big is each one?");
        },
    }
    s
}

} // verus!
