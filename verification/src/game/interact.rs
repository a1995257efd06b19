//! Pressing interact: what is in front of the kid decides what happens. A
//! locked chest and the special NPCs (dev knobs, gate guardians, fuel
//! depots, the arcade operator) skip the menu; anyone else gets a chat,
//! through the interaction menu when there is more than talking to offer.
use crate::game::{line_view, say, DialogueLine};
use crate::npc::{is_dev_control_spec, npc_display_name, NpcKind};
use vstd::prelude::*;

verus! {

/// The buddy the kid rides, as far as pressing interact cares.
#[derive(Clone, Copy, PartialEq, Eq, Debug, Structural)]
pub struct Mount {
    pub kind: NpcKind,
    pub never_challenge: bool,
}

/// What the kid faces, as far as pressing interact cares.
#[derive(Clone, Copy, PartialEq, Eq, Debug, Structural)]
pub struct FacedNpc {
    pub kind: NpcKind,
    /// A guardian still blocking its gate.
    pub gate: bool,
    /// A fuel depot.
    pub refuel: bool,
    /// The arcade operator, who launches the shooter.
    pub launch_shooter: bool,
    /// Never poses a surprise challenge after a chat.
    pub never_challenge: bool,
}

/// What pressing interact does.
#[derive(Clone, Copy, PartialEq, Eq, Debug, Structural)]
pub enum Interaction {
    /// A locked chest: the buddy points out the lock and a challenge opens it.
    Chest,
    /// A dev-zone knob: turn it (see `dev_control_step`).
    DevKnob(NpcKind),
    /// A closed gate: its guardian asks for a puzzle, then steps aside.
    Gate,
    /// A fuel depot: a puzzle, then a full tank.
    Refuel,
    /// The arcade operator: straight into the shooter.
    Shooter,
    /// Anyone else: chat, and maybe a challenge after it where allowed.
    Chat { can_challenge: bool },
    /// Sparky, faced where he stands: a chat that may always end in a
    /// challenge.
    ChatSparky,
    /// The buddy the kid is riding, reached over its nose: a chat, never
    /// followed by a surprise challenge when it is only talk.
    ChatMount { kind: NpcKind, can_challenge: bool },
    /// Nothing there.
    Nothing,
}

/// The interaction for a chest in front of the kid (`facing_chest`), the
/// NPC faced, if any, Sparky faced where he stands (`facing_sparky`), or the
/// buddy ridden (`mount`). The chest comes first; then the NPC faced (knobs,
/// gates, depots and the operator, in that order, anyone else a chat); then
/// Sparky; then the mount.
pub open spec fn interaction_spec(
    facing_chest: bool,
    faced: Option<FacedNpc>,
    facing_sparky: bool,
    mount: Option<Mount>,
) -> Interaction {
    if facing_chest {
        Interaction::Chest
    } else {
        match faced {
            None => if facing_sparky {
                Interaction::ChatSparky
            } else {
                match mount {
                    Some(m) => Interaction::ChatMount { kind: m.kind, can_challenge: !m.never_challenge },
                    None => Interaction::Nothing,
                }
            },
            Some(n) => if is_dev_control_spec(n.kind) {
                Interaction::DevKnob(n.kind)
            } else if n.gate {
                Interaction::Gate
            } else if n.refuel {
                Interaction::Refuel
            } else if n.launch_shooter {
                Interaction::Shooter
            } else {
                Interaction::Chat { can_challenge: !n.never_challenge }
            },
        }
    }
}

/// Decide what pressing interact does.
pub fn interaction_for(facing_chest: bool, faced: Option<FacedNpc>, facing_sparky: bool, mount: Option<Mount>) -> (i: Interaction)
    ensures
        i == interaction_spec(facing_chest, faced, facing_sparky, mount),
{
    if facing_chest {
        return Interaction::Chest;
    }
    match faced {
        None => if facing_sparky {
            Interaction::ChatSparky
        } else {
            match mount {
                Some(m) => Interaction::ChatMount { kind: m.kind, can_challenge: !m.never_challenge },
                None => Interaction::Nothing,
            }
        },
        Some(n) => if n.kind.is_dev_control() {
            Interaction::DevKnob(n.kind)
        } else if n.gate {
            Interaction::Gate
        } else if n.refuel {
            Interaction::Refuel
        } else if n.launch_shooter {
            Interaction::Shooter
        } else {
            Interaction::Chat { can_challenge: !n.never_challenge }
        },
    }
}

/// The chance, in percent, that a chat with only talking to offer ends in
/// a challenge: two in five with an NPC that allows it, half the time with
/// Sparky, never with the mount or where challenges are off.
pub open spec fn talk_only_challenge_percent_spec(i: Interaction) -> u32 {
    match i {
        Interaction::Chat { can_challenge } => if can_challenge {
            40
        } else {
            0
        },
        Interaction::ChatSparky => 50,
        _ => 0,
    }
}

pub fn talk_only_challenge_percent(i: Interaction) -> (p: u32)
    ensures
        p == talk_only_challenge_percent_spec(i),
{
    match i {
        Interaction::Chat { can_challenge } => if can_challenge {
            40
        } else {
            0
        },
        Interaction::ChatSparky => 50,
        _ => 0,
    }
}

/// The line that opens a chest, gate or depot interaction: the buddy on a
/// chest, the faced NPC (by display name) on a gate or depot.
pub open spec fn opening_line(i: Interaction, buddy: Seq<char>, faced: NpcKind) -> Option<(Seq<char>, Seq<char>)> {
    match i {
        Interaction::Chest => Some(
            (buddy, "OOOOH a treasure chest! But it has a LOCK! We need to solve the puzzle to open it!"@),
        ),
        Interaction::Gate => Some(
            (
                npc_display_name(faced),
                "*yaaawn* Oh, hello! I'm napping right across the path. Solve a little number puzzle for me and I'll scooch aside, deal?"@,
            ),
        ),
        Interaction::Refuel => Some(
            (npc_display_name(faced), "BEEP BOOP! Solve a number puzzle and I'll fill the rocket right up to the top!"@),
        ),
        _ => None,
    }
}

/// The opening line of interaction `i`, if it has one; `buddy` is the
/// current buddy's name and `faced` the NPC in front of the kid.
pub fn interaction_line(i: Interaction, buddy: &str, faced: NpcKind) -> (l: Option<DialogueLine>)
    ensures
        match l {
            Some(d) => opening_line(i, buddy@, faced) == Some(line_view(d)),
            None => opening_line(i, buddy@, faced) is None,
        },
{
    match i {
        Interaction::Chest => Some(
            say(buddy, "OOOOH a treasure chest! But it has a LOCK! We need to solve the puzzle to open it!"),
        ),
        Interaction::Gate => Some(
            say(
                faced.display_name(),
                "*yaaawn* Oh, hello! I'm napping right across the path. Solve a little number puzzle for me and I'll scooch aside, deal?",
            ),
        ),
        Interaction::Refuel => Some(
            say(faced.display_name(), "BEEP BOOP! Solve a number puzzle and I'll fill the rocket right up to the top!"),
        ),
        _ => None,
    }
}

} // verus!
