//! The dev-zone knobs: talking to a control NPC turns one debugging switch
//! (the math band, the KenKen grid size, the intro flag, the feature flags)
//! or asks the game to start one activity right away. The step here decides
//! what changes and what happens next; the game carries the action out.
use crate::chars::{decimal, owned, push_decimal, push_str};
use crate::game::{line_view, say, DialogueLine, FeatureFlags};
use crate::npc::{npc_id, NpcKind};
use vstd::prelude::*;

verus! {

/// The switches the knobs turn.
#[derive(Clone, Copy, Debug)]
pub struct DevKnobs {
    /// Math band, 1 to 10 in play.
    pub math_band: u8,
    /// KenKen grid size: 2, 3 or 4.
    pub kenken_level: u8,
    pub kenken_intro_seen: bool,
    pub features: FeatureFlags,
}

/// What the game does after a knob is turned.
#[derive(Clone, Copy, PartialEq, Eq, Debug, Structural)]
pub enum DevEffect {
    /// Show the knob's line.
    Say,
    /// Set every operation's CRA stage back to Concrete, then show the line.
    ResetCraStages,
    StartKenken,
    StartPattern,
    StartBalance,
    StartSudoku,
    StartChallenge,
    /// Fire one random encounter now, whatever the flag and the step pacing.
    FireEncounter,
    StartQuest,
}

/// A knob's outcome: what to do, and the line the knob says, if any.
#[derive(Clone, Debug)]
pub struct DevAction {
    pub effect: DevEffect,
    pub line: Option<DialogueLine>,
}

/// The band after `b`: one up, wrapping from 10 (or above) back to 1.
pub open spec fn next_band(b: u8) -> u8 {
    if b >= 10 {
        1
    } else {
        (b + 1) as u8
    }
}

/// The band after `n` turns of the band knob.
pub open spec fn band_turned(b: u8, n: nat) -> u8
    decreases n,
{
    if n == 0 {
        b
    } else {
        next_band(band_turned(b, (n - 1) as nat))
    }
}

/// Turning the band knob always lands in 1 to 10, and ten turns bring any
/// band in that range back where it was.
pub proof fn lemma_band_cycles(b: u8)
    ensures
        1 <= next_band(b) <= 10,
        1 <= b <= 10 ==> band_turned(b, 10) == b,
{
    reveal_with_fuel(band_turned, 11);
}

/// The KenKen size after `n`: 2 to 3 to 4, anything else back to 2.
pub open spec fn next_kenken(n: u8) -> u8 {
    if n == 2 {
        3
    } else if n == 3 {
        4
    } else {
        2
    }
}

/// Three turns of the KenKen knob bring a size of 2, 3 or 4 back where it
/// was, and every turn lands on one of those.
pub proof fn lemma_kenken_cycles(n: u8)
    ensures
        2 <= next_kenken(n) <= 4,
        2 <= n <= 4 ==> next_kenken(next_kenken(next_kenken(n))) == n,
{
}

/// The switches after `kind`'s knob is turned.
pub open spec fn knobs_after(k: DevKnobs, kind: NpcKind) -> DevKnobs {
    match kind {
        NpcKind::CtrlBand => DevKnobs { math_band: next_band(k.math_band), ..k },
        NpcKind::CtrlKenkenLevel => DevKnobs { kenken_level: next_kenken(k.kenken_level), ..k },
        NpcKind::CtrlIntroReset => DevKnobs { kenken_intro_seen: false, ..k },
        NpcKind::CtrlToggleEncounters => DevKnobs {
            features: FeatureFlags { encounters: !k.features.encounters, ..k.features },
            ..k
        },
        NpcKind::CtrlToggleQuest => DevKnobs { features: FeatureFlags { quest: !k.features.quest, ..k.features }, ..k },
        _ => k,
    }
}

/// What the game does for `kind`'s knob.
pub open spec fn effect_of(kind: NpcKind) -> DevEffect {
    match kind {
        NpcKind::CtrlCraReset => DevEffect::ResetCraStages,
        NpcKind::CtrlTriggerKenken => DevEffect::StartKenken,
        NpcKind::CtrlTriggerPattern => DevEffect::StartPattern,
        NpcKind::CtrlTriggerBalance => DevEffect::StartBalance,
        NpcKind::CtrlTriggerSudoku => DevEffect::StartSudoku,
        NpcKind::CtrlTriggerChallenge => DevEffect::StartChallenge,
        NpcKind::CtrlTriggerEncounter => DevEffect::FireEncounter,
        NpcKind::CtrlStartQuest => DevEffect::StartQuest,
        _ => DevEffect::Say,
    }
}

pub open spec fn on_off(b: bool) -> Seq<char> {
    if b {
        "ON"@
    } else {
        "OFF"@
    }
}

/// The text the knob says, given the switches after the turn; `None` for the
/// knobs that start an activity.
pub open spec fn knob_text(after: DevKnobs, kind: NpcKind) -> Option<Seq<char>> {
    match kind {
        NpcKind::CtrlBand => Some("BEEP. Math band is now "@ + decimal(after.math_band as nat) + "."@),
        NpcKind::CtrlKenkenLevel => Some(
            "BEEP. KenKen grid is now "@ + decimal(after.kenken_level as nat) + "x"@ + decimal(
                after.kenken_level as nat,
            ) + "."@,
        ),
        NpcKind::CtrlCraReset => Some("All operation CRA stages reset to Concrete."@),
        NpcKind::CtrlIntroReset => Some("KenKen intro flag cleared. Next puzzle replays the tutorial."@),
        NpcKind::CtrlToggleEncounters => Some("BEEP. Random encounters are now "@ + on_off(after.features.encounters) + "."@),
        NpcKind::CtrlToggleQuest => Some("BEEP. Quests are now "@ + on_off(after.features.quest) + "."@),
        NpcKind::CtrlTriggerKenken | NpcKind::CtrlTriggerPattern | NpcKind::CtrlTriggerBalance
        | NpcKind::CtrlTriggerSudoku | NpcKind::CtrlTriggerChallenge | NpcKind::CtrlTriggerEncounter
        | NpcKind::CtrlStartQuest => None,
        _ => Some("Unknown control: "@ + npc_id(kind)),
    }
}

pub open spec fn same_knobs(a: DevKnobs, b: DevKnobs) -> bool {
    &&& a.math_band == b.math_band
    &&& a.kenken_level == b.kenken_level
    &&& a.kenken_intro_seen == b.kenken_intro_seen
    &&& a.features.encounters == b.features.encounters
    &&& a.features.quest == b.features.quest
}

fn knob_line(text: &str) -> (l: DialogueLine)
    ensures
        line_view(l) == ("Knob"@, text@),
{
    say("Knob", text)
}

fn knob_line_owned(text: String) -> (l: DialogueLine)
    ensures
        line_view(l) == ("Knob"@, text@),
{
    DialogueLine { speaker: owned("Knob"), text }
}

/// Turn `kind`'s knob: the switches afterwards and what the game does next.
/// Every line is spoken by "Knob"; a kind that is no knob gets an
/// "Unknown control" line and changes nothing.
pub fn dev_control_step(k: DevKnobs, kind: NpcKind) -> (r: (DevKnobs, DevAction))
    ensures
        same_knobs(r.0, knobs_after(k, kind)),
        r.1.effect == effect_of(kind),
        r.1.line is Some <==> knob_text(knobs_after(k, kind), kind) is Some,
        r.1.line is Some ==> line_view(r.1.line->0) == ("Knob"@, knob_text(knobs_after(k, kind), kind)->0),
{
    let mut after = k;
    match kind {
        NpcKind::CtrlBand => {
            after.math_band = if k.math_band >= 10 { 1 } else { k.math_band + 1 };
            let mut t = String::new();
            push_str(&mut t, "BEEP. Math band is now ");
            push_decimal(&mut t, after.math_band as u64);
            push_str(&mut t, ".");
            (after, DevAction { effect: DevEffect::Say, line: Some(knob_line_owned(t)) })
        },
        NpcKind::CtrlKenkenLevel => {
            after.kenken_level = if k.kenken_level == 2 {
                3
            } else if k.kenken_level == 3 {
                4
            } else {
                2
            };
            let mut t = String::new();
            push_str(&mut t, "BEEP. KenKen grid is now ");
            push_decimal(&mut t, after.kenken_level as u64);
            push_str(&mut t, "x");
            push_decimal(&mut t, after.kenken_level as u64);
            push_str(&mut t, ".");
            (after, DevAction { effect: DevEffect::Say, line: Some(knob_line_owned(t)) })
        },
        NpcKind::CtrlCraReset => {
            (after, DevAction {
                effect: DevEffect::ResetCraStages,
                line: Some(knob_line("All operation CRA stages reset to Concrete.")),
            })
        },
        NpcKind::CtrlIntroReset => {
            after.kenken_intro_seen = false;
            (after, DevAction {
                effect: DevEffect::Say,
                line: Some(knob_line("KenKen intro flag cleared. Next puzzle replays the tutorial.")),
            })
        },
        NpcKind::CtrlToggleEncounters => {
            after.features.encounters = !k.features.encounters;
            let mut t = String::new();
            push_str(&mut t, "BEEP. Random encounters are now ");
            push_str(&mut t, if after.features.encounters { "ON" } else { "OFF" });
            push_str(&mut t, ".");
            (after, DevAction { effect: DevEffect::Say, line: Some(knob_line_owned(t)) })
        },
        NpcKind::CtrlToggleQuest => {
            after.features.quest = !k.features.quest;
            let mut t = String::new();
            push_str(&mut t, "BEEP. Quests are now ");
            push_str(&mut t, if after.features.quest { "ON" } else { "OFF" });
            push_str(&mut t, ".");
            (after, DevAction { effect: DevEffect::Say, line: Some(knob_line_owned(t)) })
        },
        NpcKind::CtrlTriggerKenken => (after, DevAction { effect: DevEffect::StartKenken, line: None }),
        NpcKind::CtrlTriggerPattern => (after, DevAction { effect: DevEffect::StartPattern, line: None }),
        NpcKind::CtrlTriggerBalance => (after, DevAction { effect: DevEffect::StartBalance, line: None }),
        NpcKind::CtrlTriggerSudoku => (after, DevAction { effect: DevEffect::StartSudoku, line: None }),
        NpcKind::CtrlTriggerChallenge => (after, DevAction { effect: DevEffect::StartChallenge, line: None }),
        NpcKind::CtrlTriggerEncounter => (after, DevAction { effect: DevEffect::FireEncounter, line: None }),
        NpcKind::CtrlStartQuest => (after, DevAction { effect: DevEffect::StartQuest, line: None }),
        _ => {
            let mut t = String::new();
            push_str(&mut t, "Unknown control: ");
            push_str(&mut t, kind.as_str());
            (after, DevAction { effect: DevEffect::Say, line: Some(knob_line_owned(t)) })
        },
    }
}

} // verus!
