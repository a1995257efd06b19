//! NPC identities: the stable id strings saves and dialogue key on, the
//! names shown to the kid, and small tile helpers for NPC placement and
//! facing.
use crate::chars::str_eq;
use crate::game::{lines_view, say, DialogueLine};
use crate::pathfinding::{callable_on_grid, deterministic, walkable};
use crate::movement::{Direction, MoveIntent};
use crate::rng::pick_below;
use crate::sprites::Dir;
use rand::rngs::SmallRng;
use vstd::prelude::*;

verus! {

/// Every kind of NPC in the game.
#[derive(Clone, Copy, PartialEq, Eq, Hash, Debug, Structural)]
pub enum NpcKind {
    Sage,
    SageLab,
    DreamSage,
    Mommy,
    Kid1,
    Kid2,
    Shopkeeper,
    GlitchDog,
    GroveSpirit,
    Pip,
    CtrlBand,
    CtrlKenkenLevel,
    CtrlCraReset,
    CtrlIntroReset,
    CtrlTriggerKenken,
    CtrlTriggerPattern,
    CtrlTriggerBalance,
    CtrlTriggerSudoku,
    CtrlTriggerChallenge,
    CtrlToggleEncounters,
    CtrlTriggerEncounter,
    CtrlToggleManipulatives,
    CtrlTriggerManipulative,
    CtrlToggleQuest,
    CtrlStartQuest,
}

/// The stable id token of a kind (used by save data, dialogue keys and menus).
pub open spec fn npc_id(k: NpcKind) -> Seq<char> {
    match k {
        NpcKind::Sage => "sage"@,
        NpcKind::SageLab => "sage_lab"@,
        NpcKind::DreamSage => "dream_sage"@,
        NpcKind::Mommy => "mommy"@,
        NpcKind::Kid1 => "kid_1"@,
        NpcKind::Kid2 => "kid_2"@,
        NpcKind::Shopkeeper => "shopkeeper"@,
        NpcKind::GlitchDog => "glitch_dog"@,
        NpcKind::GroveSpirit => "grove_spirit"@,
        NpcKind::Pip => "pip"@,
        NpcKind::CtrlBand => "ctrl_band"@,
        NpcKind::CtrlKenkenLevel => "ctrl_kenken_level"@,
        NpcKind::CtrlCraReset => "ctrl_cra_reset"@,
        NpcKind::CtrlIntroReset => "ctrl_intro_reset"@,
        NpcKind::CtrlTriggerKenken => "ctrl_trigger_kenken"@,
        NpcKind::CtrlTriggerPattern => "ctrl_trigger_pattern"@,
        NpcKind::CtrlTriggerBalance => "ctrl_trigger_balance"@,
        NpcKind::CtrlTriggerSudoku => "ctrl_trigger_sudoku"@,
        NpcKind::CtrlTriggerChallenge => "ctrl_trigger_challenge"@,
        NpcKind::CtrlToggleEncounters => "ctrl_toggle_encounters"@,
        NpcKind::CtrlTriggerEncounter => "ctrl_trigger_encounter"@,
        NpcKind::CtrlToggleManipulatives => "ctrl_toggle_manipulatives"@,
        NpcKind::CtrlTriggerManipulative => "ctrl_trigger_manipulative"@,
        NpcKind::CtrlToggleQuest => "ctrl_toggle_quest"@,
        NpcKind::CtrlStartQuest => "ctrl_start_quest"@,
    }
}

/// The name a kind is shown under.
pub open spec fn npc_display_name(k: NpcKind) -> Seq<char> {
    match k {
        NpcKind::Sage => "Professor Gizmo"@,
        NpcKind::SageLab => "Professor Gizmo"@,
        NpcKind::DreamSage => "???"@,
        NpcKind::Mommy => "Mommy"@,
        NpcKind::Kid1 => "Tali"@,
        NpcKind::Kid2 => "Noa"@,
        NpcKind::Shopkeeper => "Bolt the Shopkeeper"@,
        NpcKind::GlitchDog => "B0RK.exe"@,
        NpcKind::GroveSpirit => "Old Oak"@,
        NpcKind::Pip => "Pip"@,
        NpcKind::CtrlBand => "Band Knob"@,
        NpcKind::CtrlKenkenLevel => "KenKen Knob"@,
        NpcKind::CtrlCraReset => "CRA Reset"@,
        NpcKind::CtrlIntroReset => "Intro Reset"@,
        NpcKind::CtrlTriggerKenken => "Trigger KenKen"@,
        NpcKind::CtrlTriggerPattern => "Trigger Pattern"@,
        NpcKind::CtrlTriggerBalance => "Trigger Balance"@,
        NpcKind::CtrlTriggerSudoku => "Trigger Sudoku"@,
        NpcKind::CtrlTriggerChallenge => "Trigger Challenge"@,
        NpcKind::CtrlToggleEncounters => "Encounters Flag"@,
        NpcKind::CtrlTriggerEncounter => "Trigger Encounter"@,
        NpcKind::CtrlToggleManipulatives => "Manipulatives Flag"@,
        NpcKind::CtrlTriggerManipulative => "Trigger Manipulative"@,
        NpcKind::CtrlToggleQuest => "Quest Flag"@,
        NpcKind::CtrlStartQuest => "Start Quest"@,
    }
}

/// Every kind, in declaration order.
pub open spec fn all_kinds() -> Seq<NpcKind> {
    seq![NpcKind::Sage, NpcKind::SageLab, NpcKind::DreamSage, NpcKind::Mommy, NpcKind::Kid1, NpcKind::Kid2, NpcKind::Shopkeeper, NpcKind::GlitchDog, NpcKind::GroveSpirit, NpcKind::Pip, NpcKind::CtrlBand, NpcKind::CtrlKenkenLevel, NpcKind::CtrlCraReset, NpcKind::CtrlIntroReset, NpcKind::CtrlTriggerKenken, NpcKind::CtrlTriggerPattern, NpcKind::CtrlTriggerBalance, NpcKind::CtrlTriggerSudoku, NpcKind::CtrlTriggerChallenge, NpcKind::CtrlToggleEncounters, NpcKind::CtrlTriggerEncounter, NpcKind::CtrlToggleManipulatives, NpcKind::CtrlTriggerManipulative, NpcKind::CtrlToggleQuest, NpcKind::CtrlStartQuest]
}

/// The dev-room knob kinds.
pub open spec fn is_dev_control_spec(k: NpcKind) -> bool {
    match k {
        NpcKind::CtrlBand | NpcKind::CtrlKenkenLevel | NpcKind::CtrlCraReset
        | NpcKind::CtrlIntroReset | NpcKind::CtrlTriggerKenken
        | NpcKind::CtrlTriggerPattern | NpcKind::CtrlTriggerBalance
        | NpcKind::CtrlTriggerSudoku | NpcKind::CtrlTriggerChallenge
        | NpcKind::CtrlToggleEncounters | NpcKind::CtrlTriggerEncounter
        | NpcKind::CtrlToggleManipulatives | NpcKind::CtrlTriggerManipulative
        | NpcKind::CtrlToggleQuest | NpcKind::CtrlStartQuest => true,
        _ => false,
    }
}

impl NpcKind {
    /// Stable string token used by save data, dialogue keys, and menu targets.
    /// Matches the legacy id strings exactly so existing saves keep working.
    pub fn as_str(self) -> (s: &'static str)
        ensures
            s@ == npc_id(self),
    {
        match self {
            NpcKind::Sage => "sage",
            NpcKind::SageLab => "sage_lab",
            NpcKind::DreamSage => "dream_sage",
            NpcKind::Mommy => "mommy",
            NpcKind::Kid1 => "kid_1",
            NpcKind::Kid2 => "kid_2",
            NpcKind::Shopkeeper => "shopkeeper",
            NpcKind::GlitchDog => "glitch_dog",
            NpcKind::GroveSpirit => "grove_spirit",
            NpcKind::Pip => "pip",
            NpcKind::CtrlBand => "ctrl_band",
            NpcKind::CtrlKenkenLevel => "ctrl_kenken_level",
            NpcKind::CtrlCraReset => "ctrl_cra_reset",
            NpcKind::CtrlIntroReset => "ctrl_intro_reset",
            NpcKind::CtrlTriggerKenken => "ctrl_trigger_kenken",
            NpcKind::CtrlTriggerPattern => "ctrl_trigger_pattern",
            NpcKind::CtrlTriggerBalance => "ctrl_trigger_balance",
            NpcKind::CtrlTriggerSudoku => "ctrl_trigger_sudoku",
            NpcKind::CtrlTriggerChallenge => "ctrl_trigger_challenge",
            NpcKind::CtrlToggleEncounters => "ctrl_toggle_encounters",
            NpcKind::CtrlTriggerEncounter => "ctrl_trigger_encounter",
            NpcKind::CtrlToggleManipulatives => "ctrl_toggle_manipulatives",
            NpcKind::CtrlTriggerManipulative => "ctrl_trigger_manipulative",
            NpcKind::CtrlToggleQuest => "ctrl_toggle_quest",
            NpcKind::CtrlStartQuest => "ctrl_start_quest",
        }
    }

    /// The name this kind is shown under.
    pub fn display_name(self) -> (s: &'static str)
        ensures
            s@ == npc_display_name(self),
    {
        match self {
            NpcKind::Sage => "Professor Gizmo",
            NpcKind::SageLab => "Professor Gizmo",
            NpcKind::DreamSage => "???",
            NpcKind::Mommy => "Mommy",
            NpcKind::Kid1 => "Tali",
            NpcKind::Kid2 => "Noa",
            NpcKind::Shopkeeper => "Bolt the Shopkeeper",
            NpcKind::GlitchDog => "B0RK.exe",
            NpcKind::GroveSpirit => "Old Oak",
            NpcKind::Pip => "Pip",
            NpcKind::CtrlBand => "Band Knob",
            NpcKind::CtrlKenkenLevel => "KenKen Knob",
            NpcKind::CtrlCraReset => "CRA Reset",
            NpcKind::CtrlIntroReset => "Intro Reset",
            NpcKind::CtrlTriggerKenken => "Trigger KenKen",
            NpcKind::CtrlTriggerPattern => "Trigger Pattern",
            NpcKind::CtrlTriggerBalance => "Trigger Balance",
            NpcKind::CtrlTriggerSudoku => "Trigger Sudoku",
            NpcKind::CtrlTriggerChallenge => "Trigger Challenge",
            NpcKind::CtrlToggleEncounters => "Encounters Flag",
            NpcKind::CtrlTriggerEncounter => "Trigger Encounter",
            NpcKind::CtrlToggleManipulatives => "Manipulatives Flag",
            NpcKind::CtrlTriggerManipulative => "Trigger Manipulative",
            NpcKind::CtrlToggleQuest => "Quest Flag",
            NpcKind::CtrlStartQuest => "Start Quest",
        }
    }

    /// Every kind, in declaration order: the roster the string-to-kind
    /// inverse walks.
    pub fn all() -> (ks: &'static [NpcKind])
        ensures
            ks@ == all_kinds(),
    {
        let ks: &'static [NpcKind] = &[
            NpcKind::Sage, NpcKind::SageLab, NpcKind::DreamSage, NpcKind::Mommy, NpcKind::Kid1, NpcKind::Kid2, NpcKind::Shopkeeper, NpcKind::GlitchDog, NpcKind::GroveSpirit, NpcKind::Pip, NpcKind::CtrlBand, NpcKind::CtrlKenkenLevel, NpcKind::CtrlCraReset, NpcKind::CtrlIntroReset, NpcKind::CtrlTriggerKenken, NpcKind::CtrlTriggerPattern, NpcKind::CtrlTriggerBalance, NpcKind::CtrlTriggerSudoku, NpcKind::CtrlTriggerChallenge, NpcKind::CtrlToggleEncounters, NpcKind::CtrlTriggerEncounter, NpcKind::CtrlToggleManipulatives, NpcKind::CtrlTriggerManipulative, NpcKind::CtrlToggleQuest, NpcKind::CtrlStartQuest,
        ];
        proof {
            assert(ks@ =~= all_kinds());
        }
        ks
    }

    /// Inverse of `as_str`: the first kind (in declaration order) whose id is
    /// `id`.
    pub fn from_id(id: &str) -> (r: Option<NpcKind>)
        ensures
            r is None <==> forall|i: int| 0 <= i < all_kinds().len() ==> npc_id(#[trigger] all_kinds()[i]) != id@,
            r matches Some(k) ==> exists|i: int|
                0 <= i < all_kinds().len() && all_kinds()[i] == k && npc_id(k) == id@ && forall|j: int|
                    0 <= j < i ==> npc_id(#[trigger] all_kinds()[j]) != id@,
    {
        let ks = NpcKind::all();
        let mut i: usize = 0;
        while i < ks.len()
            invariant
                ks@ == all_kinds(),
                0 <= i <= ks@.len(),
                forall|j: int| 0 <= j < i ==> npc_id(#[trigger] all_kinds()[j]) != id@,
            decreases ks@.len() - i,
        {
            let k = ks[i];
            if str_eq(k.as_str(), id) {
                return Some(k);
            }
            i = i + 1;
        }
        None
    }

    pub fn is_dev_control(self) -> (b: bool)
        ensures
            b == is_dev_control_spec(self),
    {
        match self {
            NpcKind::CtrlBand | NpcKind::CtrlKenkenLevel | NpcKind::CtrlCraReset
            | NpcKind::CtrlIntroReset | NpcKind::CtrlTriggerKenken
            | NpcKind::CtrlTriggerPattern | NpcKind::CtrlTriggerBalance
            | NpcKind::CtrlTriggerSudoku | NpcKind::CtrlTriggerChallenge
            | NpcKind::CtrlToggleEncounters | NpcKind::CtrlTriggerEncounter
            | NpcKind::CtrlToggleManipulatives | NpcKind::CtrlTriggerManipulative
            | NpcKind::CtrlToggleQuest | NpcKind::CtrlStartQuest => true,
            _ => false,
        }
    }
}

/// No two kinds share an id token, and every kind is on the roster, so
/// `from_id(k.as_str())` gives back `k` for every kind.
pub proof fn lemma_npc_ids_round_trip(k: NpcKind)
    ensures
        exists|i: int| 0 <= i < all_kinds().len() && all_kinds()[i] == k,
        forall|k2: NpcKind| npc_id(k2) == npc_id(k) ==> k2 == k,
        forall|i: int| 0 <= i < all_kinds().len() && npc_id(#[trigger] all_kinds()[i]) == npc_id(k) ==> all_kinds()[i] == k,
{
    reveal_strlit("sage");
    reveal_strlit("sage_lab");
    reveal_strlit("dream_sage");
    reveal_strlit("mommy");
    reveal_strlit("kid_1");
    reveal_strlit("kid_2");
    reveal_strlit("shopkeeper");
    reveal_strlit("glitch_dog");
    reveal_strlit("grove_spirit");
    reveal_strlit("pip");
    reveal_strlit("ctrl_band");
    reveal_strlit("ctrl_kenken_level");
    reveal_strlit("ctrl_cra_reset");
    reveal_strlit("ctrl_intro_reset");
    reveal_strlit("ctrl_trigger_kenken");
    reveal_strlit("ctrl_trigger_pattern");
    reveal_strlit("ctrl_trigger_balance");
    reveal_strlit("ctrl_trigger_sudoku");
    reveal_strlit("ctrl_trigger_challenge");
    reveal_strlit("ctrl_toggle_encounters");
    reveal_strlit("ctrl_trigger_encounter");
    reveal_strlit("ctrl_toggle_manipulatives");
    reveal_strlit("ctrl_trigger_manipulative");
    reveal_strlit("ctrl_toggle_quest");
    reveal_strlit("ctrl_start_quest");
    lemma_npc_ids_distinct();
    match k {
        NpcKind::Sage => { assert(all_kinds()[0] == k); }
        NpcKind::SageLab => { assert(all_kinds()[1] == k); }
        NpcKind::DreamSage => { assert(all_kinds()[2] == k); }
        NpcKind::Mommy => { assert(all_kinds()[3] == k); }
        NpcKind::Kid1 => { assert(all_kinds()[4] == k); }
        NpcKind::Kid2 => { assert(all_kinds()[5] == k); }
        NpcKind::Shopkeeper => { assert(all_kinds()[6] == k); }
        NpcKind::GlitchDog => { assert(all_kinds()[7] == k); }
        NpcKind::GroveSpirit => { assert(all_kinds()[8] == k); }
        NpcKind::Pip => { assert(all_kinds()[9] == k); }
        NpcKind::CtrlBand => { assert(all_kinds()[10] == k); }
        NpcKind::CtrlKenkenLevel => { assert(all_kinds()[11] == k); }
        NpcKind::CtrlCraReset => { assert(all_kinds()[12] == k); }
        NpcKind::CtrlIntroReset => { assert(all_kinds()[13] == k); }
        NpcKind::CtrlTriggerKenken => { assert(all_kinds()[14] == k); }
        NpcKind::CtrlTriggerPattern => { assert(all_kinds()[15] == k); }
        NpcKind::CtrlTriggerBalance => { assert(all_kinds()[16] == k); }
        NpcKind::CtrlTriggerSudoku => { assert(all_kinds()[17] == k); }
        NpcKind::CtrlTriggerChallenge => { assert(all_kinds()[18] == k); }
        NpcKind::CtrlToggleEncounters => { assert(all_kinds()[19] == k); }
        NpcKind::CtrlTriggerEncounter => { assert(all_kinds()[20] == k); }
        NpcKind::CtrlToggleManipulatives => { assert(all_kinds()[21] == k); }
        NpcKind::CtrlTriggerManipulative => { assert(all_kinds()[22] == k); }
        NpcKind::CtrlToggleQuest => { assert(all_kinds()[23] == k); }
        NpcKind::CtrlStartQuest => { assert(all_kinds()[24] == k); }
    }
}

proof fn lemma_npc_ids_distinct()
    ensures
        forall|k1: NpcKind, k2: NpcKind| npc_id(k1) == npc_id(k2) ==> k1 == k2,
{
    reveal_strlit("sage");
    reveal_strlit("sage_lab");
    reveal_strlit("dream_sage");
    reveal_strlit("mommy");
    reveal_strlit("kid_1");
    reveal_strlit("kid_2");
    reveal_strlit("shopkeeper");
    reveal_strlit("glitch_dog");
    reveal_strlit("grove_spirit");
    reveal_strlit("pip");
    reveal_strlit("ctrl_band");
    reveal_strlit("ctrl_kenken_level");
    reveal_strlit("ctrl_cra_reset");
    reveal_strlit("ctrl_intro_reset");
    reveal_strlit("ctrl_trigger_kenken");
    reveal_strlit("ctrl_trigger_pattern");
    reveal_strlit("ctrl_trigger_balance");
    reveal_strlit("ctrl_trigger_sudoku");
    reveal_strlit("ctrl_trigger_challenge");
    reveal_strlit("ctrl_toggle_encounters");
    reveal_strlit("ctrl_trigger_encounter");
    reveal_strlit("ctrl_toggle_manipulatives");
    reveal_strlit("ctrl_trigger_manipulative");
    reveal_strlit("ctrl_toggle_quest");
    reveal_strlit("ctrl_start_quest");
    assert("sage"@.len() != "sage_lab"@.len());
    assert("sage"@.len() != "dream_sage"@.len());
    assert("sage"@.len() != "mommy"@.len());
    assert("sage"@.len() != "kid_1"@.len());
    assert("sage"@.len() != "kid_2"@.len());
    assert("sage"@.len() != "shopkeeper"@.len());
    assert("sage"@.len() != "glitch_dog"@.len());
    assert("sage"@.len() != "grove_spirit"@.len());
    assert("sage"@.len() != "pip"@.len());
    assert("sage"@.len() != "ctrl_band"@.len());
    assert("sage"@.len() != "ctrl_kenken_level"@.len());
    assert("sage"@.len() != "ctrl_cra_reset"@.len());
    assert("sage"@.len() != "ctrl_intro_reset"@.len());
    assert("sage"@.len() != "ctrl_trigger_kenken"@.len());
    assert("sage"@.len() != "ctrl_trigger_pattern"@.len());
    assert("sage"@.len() != "ctrl_trigger_balance"@.len());
    assert("sage"@.len() != "ctrl_trigger_sudoku"@.len());
    assert("sage"@.len() != "ctrl_trigger_challenge"@.len());
    assert("sage"@.len() != "ctrl_toggle_encounters"@.len());
    assert("sage"@.len() != "ctrl_trigger_encounter"@.len());
    assert("sage"@.len() != "ctrl_toggle_manipulatives"@.len());
    assert("sage"@.len() != "ctrl_trigger_manipulative"@.len());
    assert("sage"@.len() != "ctrl_toggle_quest"@.len());
    assert("sage"@.len() != "ctrl_start_quest"@.len());
    assert("sage_lab"@.len() != "dream_sage"@.len());
    assert("sage_lab"@.len() != "mommy"@.len());
    assert("sage_lab"@.len() != "kid_1"@.len());
    assert("sage_lab"@.len() != "kid_2"@.len());
    assert("sage_lab"@.len() != "shopkeeper"@.len());
    assert("sage_lab"@.len() != "glitch_dog"@.len());
    assert("sage_lab"@.len() != "grove_spirit"@.len());
    assert("sage_lab"@.len() != "pip"@.len());
    assert("sage_lab"@.len() != "ctrl_band"@.len());
    assert("sage_lab"@.len() != "ctrl_kenken_level"@.len());
    assert("sage_lab"@.len() != "ctrl_cra_reset"@.len());
    assert("sage_lab"@.len() != "ctrl_intro_reset"@.len());
    assert("sage_lab"@.len() != "ctrl_trigger_kenken"@.len());
    assert("sage_lab"@.len() != "ctrl_trigger_pattern"@.len());
    assert("sage_lab"@.len() != "ctrl_trigger_balance"@.len());
    assert("sage_lab"@.len() != "ctrl_trigger_sudoku"@.len());
    assert("sage_lab"@.len() != "ctrl_trigger_challenge"@.len());
    assert("sage_lab"@.len() != "ctrl_toggle_encounters"@.len());
    assert("sage_lab"@.len() != "ctrl_trigger_encounter"@.len());
    assert("sage_lab"@.len() != "ctrl_toggle_manipulatives"@.len());
    assert("sage_lab"@.len() != "ctrl_trigger_manipulative"@.len());
    assert("sage_lab"@.len() != "ctrl_toggle_quest"@.len());
    assert("sage_lab"@.len() != "ctrl_start_quest"@.len());
    assert("dream_sage"@.len() != "mommy"@.len());
    assert("dream_sage"@.len() != "kid_1"@.len());
    assert("dream_sage"@.len() != "kid_2"@.len());
    assert("dream_sage"@[0] != "shopkeeper"@[0]);
    assert("dream_sage"@[0] != "glitch_dog"@[0]);
    assert("dream_sage"@.len() != "grove_spirit"@.len());
    assert("dream_sage"@.len() != "pip"@.len());
    assert("dream_sage"@.len() != "ctrl_band"@.len());
    assert("dream_sage"@.len() != "ctrl_kenken_level"@.len());
    assert("dream_sage"@.len() != "ctrl_cra_reset"@.len());
    assert("dream_sage"@.len() != "ctrl_intro_reset"@.len());
    assert("dream_sage"@.len() != "ctrl_trigger_kenken"@.len());
    assert("dream_sage"@.len() != "ctrl_trigger_pattern"@.len());
    assert("dream_sage"@.len() != "ctrl_trigger_balance"@.len());
    assert("dream_sage"@.len() != "ctrl_trigger_sudoku"@.len());
    assert("dream_sage"@.len() != "ctrl_trigger_challenge"@.len());
    assert("dream_sage"@.len() != "ctrl_toggle_encounters"@.len());
    assert("dream_sage"@.len() != "ctrl_trigger_encounter"@.len());
    assert("dream_sage"@.len() != "ctrl_toggle_manipulatives"@.len());
    assert("dream_sage"@.len() != "ctrl_trigger_manipulative"@.len());
    assert("dream_sage"@.len() != "ctrl_toggle_quest"@.len());
    assert("dream_sage"@.len() != "ctrl_start_quest"@.len());
    assert("mommy"@[0] != "kid_1"@[0]);
    assert("mommy"@[0] != "kid_2"@[0]);
    assert("mommy"@.len() != "shopkeeper"@.len());
    assert("mommy"@.len() != "glitch_dog"@.len());
    assert("mommy"@.len() != "grove_spirit"@.len());
    assert("mommy"@.len() != "pip"@.len());
    assert("mommy"@.len() != "ctrl_band"@.len());
    assert("mommy"@.len() != "ctrl_kenken_level"@.len());
    assert("mommy"@.len() != "ctrl_cra_reset"@.len());
    assert("mommy"@.len() != "ctrl_intro_reset"@.len());
    assert("mommy"@.len() != "ctrl_trigger_kenken"@.len());
    assert("mommy"@.len() != "ctrl_trigger_pattern"@.len());
    assert("mommy"@.len() != "ctrl_trigger_balance"@.len());
    assert("mommy"@.len() != "ctrl_trigger_sudoku"@.len());
    assert("mommy"@.len() != "ctrl_trigger_challenge"@.len());
    assert("mommy"@.len() != "ctrl_toggle_encounters"@.len());
    assert("mommy"@.len() != "ctrl_trigger_encounter"@.len());
    assert("mommy"@.len() != "ctrl_toggle_manipulatives"@.len());
    assert("mommy"@.len() != "ctrl_trigger_manipulative"@.len());
    assert("mommy"@.len() != "ctrl_toggle_quest"@.len());
    assert("mommy"@.len() != "ctrl_start_quest"@.len());
    assert("kid_1"@[4] != "kid_2"@[4]);
    assert("kid_1"@.len() != "shopkeeper"@.len());
    assert("kid_1"@.len() != "glitch_dog"@.len());
    assert("kid_1"@.len() != "grove_spirit"@.len());
    assert("kid_1"@.len() != "pip"@.len());
    assert("kid_1"@.len() != "ctrl_band"@.len());
    assert("kid_1"@.len() != "ctrl_kenken_level"@.len());
    assert("kid_1"@.len() != "ctrl_cra_reset"@.len());
    assert("kid_1"@.len() != "ctrl_intro_reset"@.len());
    assert("kid_1"@.len() != "ctrl_trigger_kenken"@.len());
    assert("kid_1"@.len() != "ctrl_trigger_pattern"@.len());
    assert("kid_1"@.len() != "ctrl_trigger_balance"@.len());
    assert("kid_1"@.len() != "ctrl_trigger_sudoku"@.len());
    assert("kid_1"@.len() != "ctrl_trigger_challenge"@.len());
    assert("kid_1"@.len() != "ctrl_toggle_encounters"@.len());
    assert("kid_1"@.len() != "ctrl_trigger_encounter"@.len());
    assert("kid_1"@.len() != "ctrl_toggle_manipulatives"@.len());
    assert("kid_1"@.len() != "ctrl_trigger_manipulative"@.len());
    assert("kid_1"@.len() != "ctrl_toggle_quest"@.len());
    assert("kid_1"@.len() != "ctrl_start_quest"@.len());
    assert("kid_2"@.len() != "shopkeeper"@.len());
    assert("kid_2"@.len() != "glitch_dog"@.len());
    assert("kid_2"@.len() != "grove_spirit"@.len());
    assert("kid_2"@.len() != "pip"@.len());
    assert("kid_2"@.len() != "ctrl_band"@.len());
    assert("kid_2"@.len() != "ctrl_kenken_level"@.len());
    assert("kid_2"@.len() != "ctrl_cra_reset"@.len());
    assert("kid_2"@.len() != "ctrl_intro_reset"@.len());
    assert("kid_2"@.len() != "ctrl_trigger_kenken"@.len());
    assert("kid_2"@.len() != "ctrl_trigger_pattern"@.len());
    assert("kid_2"@.len() != "ctrl_trigger_balance"@.len());
    assert("kid_2"@.len() != "ctrl_trigger_sudoku"@.len());
    assert("kid_2"@.len() != "ctrl_trigger_challenge"@.len());
    assert("kid_2"@.len() != "ctrl_toggle_encounters"@.len());
    assert("kid_2"@.len() != "ctrl_trigger_encounter"@.len());
    assert("kid_2"@.len() != "ctrl_toggle_manipulatives"@.len());
    assert("kid_2"@.len() != "ctrl_trigger_manipulative"@.len());
    assert("kid_2"@.len() != "ctrl_toggle_quest"@.len());
    assert("kid_2"@.len() != "ctrl_start_quest"@.len());
    assert("shopkeeper"@[0] != "glitch_dog"@[0]);
    assert("shopkeeper"@.len() != "grove_spirit"@.len());
    assert("shopkeeper"@.len() != "pip"@.len());
    assert("shopkeeper"@.len() != "ctrl_band"@.len());
    assert("shopkeeper"@.len() != "ctrl_kenken_level"@.len());
    assert("shopkeeper"@.len() != "ctrl_cra_reset"@.len());
    assert("shopkeeper"@.len() != "ctrl_intro_reset"@.len());
    assert("shopkeeper"@.len() != "ctrl_trigger_kenken"@.len());
    assert("shopkeeper"@.len() != "ctrl_trigger_pattern"@.len());
    assert("shopkeeper"@.len() != "ctrl_trigger_balance"@.len());
    assert("shopkeeper"@.len() != "ctrl_trigger_sudoku"@.len());
    assert("shopkeeper"@.len() != "ctrl_trigger_challenge"@.len());
    assert("shopkeeper"@.len() != "ctrl_toggle_encounters"@.len());
    assert("shopkeeper"@.len() != "ctrl_trigger_encounter"@.len());
    assert("shopkeeper"@.len() != "ctrl_toggle_manipulatives"@.len());
    assert("shopkeeper"@.len() != "ctrl_trigger_manipulative"@.len());
    assert("shopkeeper"@.len() != "ctrl_toggle_quest"@.len());
    assert("shopkeeper"@.len() != "ctrl_start_quest"@.len());
    assert("glitch_dog"@.len() != "grove_spirit"@.len());
    assert("glitch_dog"@.len() != "pip"@.len());
    assert("glitch_dog"@.len() != "ctrl_band"@.len());
    assert("glitch_dog"@.len() != "ctrl_kenken_level"@.len());
    assert("glitch_dog"@.len() != "ctrl_cra_reset"@.len());
    assert("glitch_dog"@.len() != "ctrl_intro_reset"@.len());
    assert("glitch_dog"@.len() != "ctrl_trigger_kenken"@.len());
    assert("glitch_dog"@.len() != "ctrl_trigger_pattern"@.len());
    assert("glitch_dog"@.len() != "ctrl_trigger_balance"@.len());
    assert("glitch_dog"@.len() != "ctrl_trigger_sudoku"@.len());
    assert("glitch_dog"@.len() != "ctrl_trigger_challenge"@.len());
    assert("glitch_dog"@.len() != "ctrl_toggle_encounters"@.len());
    assert("glitch_dog"@.len() != "ctrl_trigger_encounter"@.len());
    assert("glitch_dog"@.len() != "ctrl_toggle_manipulatives"@.len());
    assert("glitch_dog"@.len() != "ctrl_trigger_manipulative"@.len());
    assert("glitch_dog"@.len() != "ctrl_toggle_quest"@.len());
    assert("glitch_dog"@.len() != "ctrl_start_quest"@.len());
    assert("grove_spirit"@.len() != "pip"@.len());
    assert("grove_spirit"@.len() != "ctrl_band"@.len());
    assert("grove_spirit"@.len() != "ctrl_kenken_level"@.len());
    assert("grove_spirit"@.len() != "ctrl_cra_reset"@.len());
    assert("grove_spirit"@.len() != "ctrl_intro_reset"@.len());
    assert("grove_spirit"@.len() != "ctrl_trigger_kenken"@.len());
    assert("grove_spirit"@.len() != "ctrl_trigger_pattern"@.len());
    assert("grove_spirit"@.len() != "ctrl_trigger_balance"@.len());
    assert("grove_spirit"@.len() != "ctrl_trigger_sudoku"@.len());
    assert("grove_spirit"@.len() != "ctrl_trigger_challenge"@.len());
    assert("grove_spirit"@.len() != "ctrl_toggle_encounters"@.len());
    assert("grove_spirit"@.len() != "ctrl_trigger_encounter"@.len());
    assert("grove_spirit"@.len() != "ctrl_toggle_manipulatives"@.len());
    assert("grove_spirit"@.len() != "ctrl_trigger_manipulative"@.len());
    assert("grove_spirit"@.len() != "ctrl_toggle_quest"@.len());
    assert("grove_spirit"@.len() != "ctrl_start_quest"@.len());
    assert("pip"@.len() != "ctrl_band"@.len());
    assert("pip"@.len() != "ctrl_kenken_level"@.len());
    assert("pip"@.len() != "ctrl_cra_reset"@.len());
    assert("pip"@.len() != "ctrl_intro_reset"@.len());
    assert("pip"@.len() != "ctrl_trigger_kenken"@.len());
    assert("pip"@.len() != "ctrl_trigger_pattern"@.len());
    assert("pip"@.len() != "ctrl_trigger_balance"@.len());
    assert("pip"@.len() != "ctrl_trigger_sudoku"@.len());
    assert("pip"@.len() != "ctrl_trigger_challenge"@.len());
    assert("pip"@.len() != "ctrl_toggle_encounters"@.len());
    assert("pip"@.len() != "ctrl_trigger_encounter"@.len());
    assert("pip"@.len() != "ctrl_toggle_manipulatives"@.len());
    assert("pip"@.len() != "ctrl_trigger_manipulative"@.len());
    assert("pip"@.len() != "ctrl_toggle_quest"@.len());
    assert("pip"@.len() != "ctrl_start_quest"@.len());
    assert("ctrl_band"@.len() != "ctrl_kenken_level"@.len());
    assert("ctrl_band"@.len() != "ctrl_cra_reset"@.len());
    assert("ctrl_band"@.len() != "ctrl_intro_reset"@.len());
    assert("ctrl_band"@.len() != "ctrl_trigger_kenken"@.len());
    assert("ctrl_band"@.len() != "ctrl_trigger_pattern"@.len());
    assert("ctrl_band"@.len() != "ctrl_trigger_balance"@.len());
    assert("ctrl_band"@.len() != "ctrl_trigger_sudoku"@.len());
    assert("ctrl_band"@.len() != "ctrl_trigger_challenge"@.len());
    assert("ctrl_band"@.len() != "ctrl_toggle_encounters"@.len());
    assert("ctrl_band"@.len() != "ctrl_trigger_encounter"@.len());
    assert("ctrl_band"@.len() != "ctrl_toggle_manipulatives"@.len());
    assert("ctrl_band"@.len() != "ctrl_trigger_manipulative"@.len());
    assert("ctrl_band"@.len() != "ctrl_toggle_quest"@.len());
    assert("ctrl_band"@.len() != "ctrl_start_quest"@.len());
    assert("ctrl_kenken_level"@.len() != "ctrl_cra_reset"@.len());
    assert("ctrl_kenken_level"@.len() != "ctrl_intro_reset"@.len());
    assert("ctrl_kenken_level"@.len() != "ctrl_trigger_kenken"@.len());
    assert("ctrl_kenken_level"@.len() != "ctrl_trigger_pattern"@.len());
    assert("ctrl_kenken_level"@.len() != "ctrl_trigger_balance"@.len());
    assert("ctrl_kenken_level"@.len() != "ctrl_trigger_sudoku"@.len());
    assert("ctrl_kenken_level"@.len() != "ctrl_trigger_challenge"@.len());
    assert("ctrl_kenken_level"@.len() != "ctrl_toggle_encounters"@.len());
    assert("ctrl_kenken_level"@.len() != "ctrl_trigger_encounter"@.len());
    assert("ctrl_kenken_level"@.len() != "ctrl_toggle_manipulatives"@.len());
    assert("ctrl_kenken_level"@.len() != "ctrl_trigger_manipulative"@.len());
    assert("ctrl_kenken_level"@[5] != "ctrl_toggle_quest"@[5]);
    assert("ctrl_kenken_level"@.len() != "ctrl_start_quest"@.len());
    assert("ctrl_cra_reset"@.len() != "ctrl_intro_reset"@.len());
    assert("ctrl_cra_reset"@.len() != "ctrl_trigger_kenken"@.len());
    assert("ctrl_cra_reset"@.len() != "ctrl_trigger_pattern"@.len());
    assert("ctrl_cra_reset"@.len() != "ctrl_trigger_balance"@.len());
    assert("ctrl_cra_reset"@.len() != "ctrl_trigger_sudoku"@.len());
    assert("ctrl_cra_reset"@.len() != "ctrl_trigger_challenge"@.len());
    assert("ctrl_cra_reset"@.len() != "ctrl_toggle_encounters"@.len());
    assert("ctrl_cra_reset"@.len() != "ctrl_trigger_encounter"@.len());
    assert("ctrl_cra_reset"@.len() != "ctrl_toggle_manipulatives"@.len());
    assert("ctrl_cra_reset"@.len() != "ctrl_trigger_manipulative"@.len());
    assert("ctrl_cra_reset"@.len() != "ctrl_toggle_quest"@.len());
    assert("ctrl_cra_reset"@.len() != "ctrl_start_quest"@.len());
    assert("ctrl_intro_reset"@.len() != "ctrl_trigger_kenken"@.len());
    assert("ctrl_intro_reset"@.len() != "ctrl_trigger_pattern"@.len());
    assert("ctrl_intro_reset"@.len() != "ctrl_trigger_balance"@.len());
    assert("ctrl_intro_reset"@.len() != "ctrl_trigger_sudoku"@.len());
    assert("ctrl_intro_reset"@.len() != "ctrl_trigger_challenge"@.len());
    assert("ctrl_intro_reset"@.len() != "ctrl_toggle_encounters"@.len());
    assert("ctrl_intro_reset"@.len() != "ctrl_trigger_encounter"@.len());
    assert("ctrl_intro_reset"@.len() != "ctrl_toggle_manipulatives"@.len());
    assert("ctrl_intro_reset"@.len() != "ctrl_trigger_manipulative"@.len());
    assert("ctrl_intro_reset"@.len() != "ctrl_toggle_quest"@.len());
    assert("ctrl_intro_reset"@[5] != "ctrl_start_quest"@[5]);
    assert("ctrl_trigger_kenken"@.len() != "ctrl_trigger_pattern"@.len());
    assert("ctrl_trigger_kenken"@.len() != "ctrl_trigger_balance"@.len());
    assert("ctrl_trigger_kenken"@[13] != "ctrl_trigger_sudoku"@[13]);
    assert("ctrl_trigger_kenken"@.len() != "ctrl_trigger_challenge"@.len());
    assert("ctrl_trigger_kenken"@.len() != "ctrl_toggle_encounters"@.len());
    assert("ctrl_trigger_kenken"@.len() != "ctrl_trigger_encounter"@.len());
    assert("ctrl_trigger_kenken"@.len() != "ctrl_toggle_manipulatives"@.len());
    assert("ctrl_trigger_kenken"@.len() != "ctrl_trigger_manipulative"@.len());
    assert("ctrl_trigger_kenken"@.len() != "ctrl_toggle_quest"@.len());
    assert("ctrl_trigger_kenken"@.len() != "ctrl_start_quest"@.len());
    assert("ctrl_trigger_pattern"@[13] != "ctrl_trigger_balance"@[13]);
    assert("ctrl_trigger_pattern"@.len() != "ctrl_trigger_sudoku"@.len());
    assert("ctrl_trigger_pattern"@.len() != "ctrl_trigger_challenge"@.len());
    assert("ctrl_trigger_pattern"@.len() != "ctrl_toggle_encounters"@.len());
    assert("ctrl_trigger_pattern"@.len() != "ctrl_trigger_encounter"@.len());
    assert("ctrl_trigger_pattern"@.len() != "ctrl_toggle_manipulatives"@.len());
    assert("ctrl_trigger_pattern"@.len() != "ctrl_trigger_manipulative"@.len());
    assert("ctrl_trigger_pattern"@.len() != "ctrl_toggle_quest"@.len());
    assert("ctrl_trigger_pattern"@.len() != "ctrl_start_quest"@.len());
    assert("ctrl_trigger_balance"@.len() != "ctrl_trigger_sudoku"@.len());
    assert("ctrl_trigger_balance"@.len() != "ctrl_trigger_challenge"@.len());
    assert("ctrl_trigger_balance"@.len() != "ctrl_toggle_encounters"@.len());
    assert("ctrl_trigger_balance"@.len() != "ctrl_trigger_encounter"@.len());
    assert("ctrl_trigger_balance"@.len() != "ctrl_toggle_manipulatives"@.len());
    assert("ctrl_trigger_balance"@.len() != "ctrl_trigger_manipulative"@.len());
    assert("ctrl_trigger_balance"@.len() != "ctrl_toggle_quest"@.len());
    assert("ctrl_trigger_balance"@.len() != "ctrl_start_quest"@.len());
    assert("ctrl_trigger_sudoku"@.len() != "ctrl_trigger_challenge"@.len());
    assert("ctrl_trigger_sudoku"@.len() != "ctrl_toggle_encounters"@.len());
    assert("ctrl_trigger_sudoku"@.len() != "ctrl_trigger_encounter"@.len());
    assert("ctrl_trigger_sudoku"@.len() != "ctrl_toggle_manipulatives"@.len());
    assert("ctrl_trigger_sudoku"@.len() != "ctrl_trigger_manipulative"@.len());
    assert("ctrl_trigger_sudoku"@.len() != "ctrl_toggle_quest"@.len());
    assert("ctrl_trigger_sudoku"@.len() != "ctrl_start_quest"@.len());
    assert("ctrl_trigger_challenge"@[6] != "ctrl_toggle_encounters"@[6]);
    assert("ctrl_trigger_challenge"@[13] != "ctrl_trigger_encounter"@[13]);
    assert("ctrl_trigger_challenge"@.len() != "ctrl_toggle_manipulatives"@.len());
    assert("ctrl_trigger_challenge"@.len() != "ctrl_trigger_manipulative"@.len());
    assert("ctrl_trigger_challenge"@.len() != "ctrl_toggle_quest"@.len());
    assert("ctrl_trigger_challenge"@.len() != "ctrl_start_quest"@.len());
    assert("ctrl_toggle_encounters"@[6] != "ctrl_trigger_encounter"@[6]);
    assert("ctrl_toggle_encounters"@.len() != "ctrl_toggle_manipulatives"@.len());
    assert("ctrl_toggle_encounters"@.len() != "ctrl_trigger_manipulative"@.len());
    assert("ctrl_toggle_encounters"@.len() != "ctrl_toggle_quest"@.len());
    assert("ctrl_toggle_encounters"@.len() != "ctrl_start_quest"@.len());
    assert("ctrl_trigger_encounter"@.len() != "ctrl_toggle_manipulatives"@.len());
    assert("ctrl_trigger_encounter"@.len() != "ctrl_trigger_manipulative"@.len());
    assert("ctrl_trigger_encounter"@.len() != "ctrl_toggle_quest"@.len());
    assert("ctrl_trigger_encounter"@.len() != "ctrl_start_quest"@.len());
    assert("ctrl_toggle_manipulatives"@[6] != "ctrl_trigger_manipulative"@[6]);
    assert("ctrl_toggle_manipulatives"@.len() != "ctrl_toggle_quest"@.len());
    assert("ctrl_toggle_manipulatives"@.len() != "ctrl_start_quest"@.len());
    assert("ctrl_trigger_manipulative"@.len() != "ctrl_toggle_quest"@.len());
    assert("ctrl_trigger_manipulative"@.len() != "ctrl_start_quest"@.len());
    assert("ctrl_toggle_quest"@.len() != "ctrl_start_quest"@.len());
    assert forall|k1: NpcKind, k2: NpcKind| npc_id(k1) == npc_id(k2) implies k1 == k2 by {
        if k1 != k2 {
            match k1 {
                NpcKind::Sage => {}
                NpcKind::SageLab => {}
                NpcKind::DreamSage => {}
                NpcKind::Mommy => {}
                NpcKind::Kid1 => {}
                NpcKind::Kid2 => {}
                NpcKind::Shopkeeper => {}
                NpcKind::GlitchDog => {}
                NpcKind::GroveSpirit => {}
                NpcKind::Pip => {}
                NpcKind::CtrlBand => {}
                NpcKind::CtrlKenkenLevel => {}
                NpcKind::CtrlCraReset => {}
                NpcKind::CtrlIntroReset => {}
                NpcKind::CtrlTriggerKenken => {}
                NpcKind::CtrlTriggerPattern => {}
                NpcKind::CtrlTriggerBalance => {}
                NpcKind::CtrlTriggerSudoku => {}
                NpcKind::CtrlTriggerChallenge => {}
                NpcKind::CtrlToggleEncounters => {}
                NpcKind::CtrlTriggerEncounter => {}
                NpcKind::CtrlToggleManipulatives => {}
                NpcKind::CtrlTriggerManipulative => {}
                NpcKind::CtrlToggleQuest => {}
                NpcKind::CtrlStartQuest => {}
            }
        }
    }
}
/// Which sprite an NPC is drawn with.
#[derive(Clone, Copy, PartialEq, Eq, Debug, Structural)]
pub enum SpriteType {
    Mommy,
    Sage,
    Shopkeeper,
    Dog,
    Kid1,
    Kid2,
    OldOak,
}

/// How far, across and down alike, a wanderer may stray from its home tile.
pub const WANDER_RADIUS: i32 = 3;

/// Manhattan distance between (`x`, `y`) and (`tx`, `ty`).
pub open spec fn manhattan_int(x: int, y: int, tx: int, ty: int) -> int {
    (if x >= tx { x - tx } else { tx - x }) + (if y >= ty { y - ty } else { ty - y })
}

/// A tile an arriving NPC may not land on: off the map (either side), solid
/// terrain, or already taken.
pub open spec fn spawn_blocked<S: Fn(usize, usize) -> bool, O: Fn(usize, usize) -> bool>(
    is_solid: S,
    is_occupied: O,
    map_w: usize,
    map_h: usize,
    x: int,
    y: int,
) -> bool {
    x < 0 || y < 0 || x >= map_w || y >= map_h || walkable(is_solid, x as usize, y as usize)
        || walkable(is_occupied, x as usize, y as usize)
}

fn blocked_at<S: Fn(usize, usize) -> bool, O: Fn(usize, usize) -> bool>(
    x: usize,
    y: usize,
    map_w: usize,
    map_h: usize,
    is_solid: &S,
    is_occupied: &O,
) -> (b: bool)
    requires
        callable_on_grid(*is_solid, map_w, map_h),
        callable_on_grid(*is_occupied, map_w, map_h),
        deterministic(*is_solid),
        deterministic(*is_occupied),
    ensures
        b == spawn_blocked(*is_solid, *is_occupied, map_w, map_h, x as int, y as int),
{
    if x >= map_w || y >= map_h {
        return true;
    }
    let s = is_solid(x, y);
    proof {
        lemma_predicate_result(*is_solid, x, y, s);
    }
    if s {
        return true;
    }
    let o = is_occupied(x, y);
    proof {
        lemma_predicate_result(*is_occupied, x, y, o);
    }
    o
}

proof fn lemma_predicate_result<F: Fn(usize, usize) -> bool>(f: F, c: usize, r: usize, b: bool)
    requires
        deterministic(f),
        call_ensures(f, (c, r), b),
    ensures
        b == walkable(f, c, r),
{
    if b {
        assert forall|b2: bool| call_ensures(f, (c, r), b2) implies b2 by {}
    }
}

/// Walk an NPC arriving at (`target_x`, `target_y`) to the closest
/// non-blocking tile. `is_solid` reports terrain walls; `is_occupied` reports
/// the player, Sparky or other NPCs already on the destination map. Rings of
/// growing Manhattan radius are scanned column by column from the west, each
/// column from the north; the first free tile wins. Falls back to the
/// target itself if nothing within five steps is free.
pub fn find_npc_spawn_spot<S: Fn(usize, usize) -> bool, O: Fn(usize, usize) -> bool>(
    target_x: usize,
    target_y: usize,
    map_w: usize,
    map_h: usize,
    is_solid: S,
    is_occupied: O,
) -> (spot: (usize, usize))
    requires
        callable_on_grid(is_solid, map_w, map_h),
        callable_on_grid(is_occupied, map_w, map_h),
        deterministic(is_solid),
        deterministic(is_occupied),
        target_x <= i32::MAX - 5,
        target_y <= i32::MAX - 5,
    ensures
        !spawn_blocked(is_solid, is_occupied, map_w, map_h, target_x as int, target_y as int)
            ==> spot == (target_x, target_y),
        spawn_blocked(is_solid, is_occupied, map_w, map_h, target_x as int, target_y as int) && (
        exists|x: int, y: int|
            1 <= manhattan_int(x, y, target_x as int, target_y as int) <= 5 && !#[trigger] spawn_blocked(
                is_solid,
                is_occupied,
                map_w,
                map_h,
                x,
                y,
            )) ==> {
            &&& !spawn_blocked(is_solid, is_occupied, map_w, map_h, spot.0 as int, spot.1 as int)
            &&& 1 <= manhattan_int(spot.0 as int, spot.1 as int, target_x as int, target_y as int) <= 5
            &&& forall|x: int, y: int|
                1 <= manhattan_int(x, y, target_x as int, target_y as int) < manhattan_int(
                    spot.0 as int,
                    spot.1 as int,
                    target_x as int,
                    target_y as int,
                ) ==> #[trigger] spawn_blocked(is_solid, is_occupied, map_w, map_h, x, y)
            &&& forall|x: int, y: int|
                manhattan_int(x, y, target_x as int, target_y as int) == manhattan_int(
                    spot.0 as int,
                    spot.1 as int,
                    target_x as int,
                    target_y as int,
                ) && (x < spot.0 || (x == spot.0 && y < spot.1))
                    ==> #[trigger] spawn_blocked(is_solid, is_occupied, map_w, map_h, x, y)
        },
        spawn_blocked(is_solid, is_occupied, map_w, map_h, target_x as int, target_y as int) && !(
        exists|x: int, y: int|
            1 <= manhattan_int(x, y, target_x as int, target_y as int) <= 5 && !#[trigger] spawn_blocked(
                is_solid,
                is_occupied,
                map_w,
                map_h,
                x,
                y,
            )) ==> spot == (target_x, target_y),
{
    if !blocked_at(target_x, target_y, map_w, map_h, &is_solid, &is_occupied) {
        return (target_x, target_y);
    }
    let tx = target_x as i64;
    let ty = target_y as i64;
    // Spiral outwards in Manhattan rings up to radius 5. Past that we just
    // give up and stack on the target.
    let mut radius: i64 = 1;
    while radius <= 5
        invariant
            1 <= radius <= 6,
            tx == target_x,
            ty == target_y,
            target_x <= i32::MAX - 5,
            target_y <= i32::MAX - 5,
            callable_on_grid(is_solid, map_w, map_h),
            callable_on_grid(is_occupied, map_w, map_h),
            deterministic(is_solid),
            deterministic(is_occupied),
            spawn_blocked(is_solid, is_occupied, map_w, map_h, target_x as int, target_y as int),
            forall|x: int, y: int|
                1 <= manhattan_int(x, y, tx as int, ty as int) < radius ==> #[trigger] spawn_blocked(
                    is_solid,
                    is_occupied,
                    map_w,
                    map_h,
                    x,
                    y,
                ),
        decreases 6 - radius,
    {
        let mut dx: i64 = -radius;
        while dx <= radius
            invariant
                1 <= radius <= 5,
                -radius <= dx <= radius + 1,
                tx == target_x,
                ty == target_y,
                target_x <= i32::MAX - 5,
                target_y <= i32::MAX - 5,
                callable_on_grid(is_solid, map_w, map_h),
                callable_on_grid(is_occupied, map_w, map_h),
                deterministic(is_solid),
                deterministic(is_occupied),
                spawn_blocked(is_solid, is_occupied, map_w, map_h, target_x as int, target_y as int),
                forall|x: int, y: int|
                    1 <= manhattan_int(x, y, tx as int, ty as int) < radius ==> #[trigger] spawn_blocked(
                        is_solid,
                        is_occupied,
                        map_w,
                        map_h,
                        x,
                        y,
                    ),
                forall|x: int, y: int|
                    manhattan_int(x, y, tx as int, ty as int) == radius && x - tx < dx
                        ==> #[trigger] spawn_blocked(is_solid, is_occupied, map_w, map_h, x, y),
            decreases radius + 1 - dx,
        {
            let mut dy: i64 = -radius;
            while dy <= radius
                invariant
                    1 <= radius <= 5,
                    -radius <= dx <= radius,
                    -radius <= dy <= radius + 1,
                    tx == target_x,
                    ty == target_y,
                    target_x <= i32::MAX - 5,
                    target_y <= i32::MAX - 5,
                    callable_on_grid(is_solid, map_w, map_h),
                    callable_on_grid(is_occupied, map_w, map_h),
                    deterministic(is_solid),
                    deterministic(is_occupied),
                    spawn_blocked(is_solid, is_occupied, map_w, map_h, target_x as int, target_y as int),
                    forall|x: int, y: int|
                        1 <= manhattan_int(x, y, tx as int, ty as int) < radius
                            ==> #[trigger] spawn_blocked(is_solid, is_occupied, map_w, map_h, x, y),
                    forall|x: int, y: int|
                        manhattan_int(x, y, tx as int, ty as int) == radius && (x - tx < dx || (x
                            - tx == dx && y - ty < dy)) ==> #[trigger] spawn_blocked(
                            is_solid,
                            is_occupied,
                            map_w,
                            map_h,
                            x,
                            y,
                        ),
                decreases radius + 1 - dy,
            {
                let adx = if dx < 0 { -dx } else { dx };
                let ady = if dy < 0 { -dy } else { dy };
                if adx + ady == radius {
                    let nx = tx + dx;
                    let ny = ty + dy;
                    if nx >= 0 && ny >= 0 {
                        let (ux, uy) = (nx as usize, ny as usize);
                        if !blocked_at(ux, uy, map_w, map_h, &is_solid, &is_occupied) {
                            return (ux, uy);
                        }
                    }
                }
                dy = dy + 1;
            }
            dx = dx + 1;
        }
        radius = radius + 1;
    }
    (target_x, target_y)
}

/// The tile one step from (`tx`, `ty`) in direction `dir`, as integers (it
/// may lie off the top or left edge).
pub open spec fn step_in(tx: int, ty: int, dir: Dir) -> (int, int) {
    match dir {
        Dir::Up => (tx, ty - 1),
        Dir::Down => (tx, ty + 1),
        Dir::Left => (tx - 1, ty),
        Dir::Right => (tx + 1, ty),
    }
}

/// The tile the player at (`player_tx`, `player_ty`) faces, or `None` off the
/// top or left edge of the world.
pub fn facing_tile(player_tx: usize, player_ty: usize, dir: Dir) -> (r: Option<(usize, usize)>)
    requires
        player_tx < i32::MAX,
        player_ty < i32::MAX,
    ensures
        ({
            let (x, y) = step_in(player_tx as int, player_ty as int, dir);
            &&& (x < 0 || y < 0) ==> r is None
            &&& (x >= 0 && y >= 0) ==> r == Some((x as usize, y as usize))
        }),
{
    match dir {
        Dir::Up => {
            if player_ty == 0 {
                None
            } else {
                Some((player_tx, player_ty - 1))
            }
        },
        Dir::Down => Some((player_tx, player_ty + 1)),
        Dir::Left => {
            if player_tx == 0 {
                None
            } else {
                Some((player_tx - 1, player_ty))
            }
        },
        Dir::Right => Some((player_tx + 1, player_ty)),
    }
}

/// Check if the player is facing Sparky (the robot).
pub fn is_facing_sparky(
    player_tx: usize,
    player_ty: usize,
    dir: Dir,
    sparky_tx: usize,
    sparky_ty: usize,
) -> (b: bool)
    requires
        player_tx < i32::MAX,
        player_ty < i32::MAX,
    ensures
        b == (step_in(player_tx as int, player_ty as int, dir) == (sparky_tx as int, sparky_ty as int)),
{
    match dir {
        Dir::Up => player_ty > 0 && player_tx == sparky_tx && player_ty - 1 == sparky_ty,
        Dir::Down => sparky_ty > 0 && player_tx == sparky_tx && sparky_ty - 1 == player_ty,
        Dir::Left => player_tx > 0 && player_tx - 1 == sparky_tx && player_ty == sparky_ty,
        Dir::Right => sparky_tx > 0 && sparky_tx - 1 == player_tx && player_ty == sparky_ty,
    }
}

// ─── Wandering ─────────────────────────────────────────────

/// The grid offset of one step.
pub open spec fn delta(d: Direction) -> (int, int) {
    match d {
        Direction::Up => (0, -1),
        Direction::Down => (0, 1),
        Direction::Left => (-1, 0),
        Direction::Right => (1, 0),
    }
}

/// The sprite facing for a step direction.
pub open spec fn facing_of(d: Direction) -> Dir {
    match d {
        Direction::Up => Dir::Up,
        Direction::Down => Dir::Down,
        Direction::Left => Dir::Left,
        Direction::Right => Dir::Right,
    }
}

/// What a wanderer at `at` does with a rolled direction: it always turns to
/// face that way, and steps that way unless the step leaves the grid or goes
/// more than `radius` across or down from `home`; then it stays, still
/// turned.
pub open spec fn wander_spec(at: (usize, usize), home: (usize, usize), radius: i32, d: Direction) -> (MoveIntent, Option<Dir>) {
    let nx = at.0 + delta(d).0;
    let ny = at.1 + delta(d).1;
    if nx < 0 || ny < 0 {
        (MoveIntent::Stay, Some(facing_of(d)))
    } else if (if nx >= home.0 { nx - home.0 } else { home.0 - nx }) > radius || (if ny >= home.1 {
        ny - home.1
    } else {
        home.1 - ny
    }) > radius {
        (MoveIntent::Stay, Some(facing_of(d)))
    } else {
        (MoveIntent::Move(d), Some(facing_of(d)))
    }
}

/// Decide a wanderer's move for a rolled direction.
pub fn wander_from(at: (usize, usize), home: (usize, usize), radius: i32, d: Direction) -> (r: (MoveIntent, Option<Dir>))
    requires
        at.0 < i32::MAX,
        at.1 < i32::MAX,
        home.0 < i32::MAX,
        home.1 < i32::MAX,
    ensures
        r == wander_spec(at, home, radius, d),
{
    let (dx, dy): (i64, i64) = match d {
        Direction::Up => (0, -1),
        Direction::Down => (0, 1),
        Direction::Left => (-1, 0),
        Direction::Right => (1, 0),
    };
    let face = match d {
        Direction::Up => Dir::Up,
        Direction::Down => Dir::Down,
        Direction::Left => Dir::Left,
        Direction::Right => Dir::Right,
    };
    let nx: i64 = at.0 as i64 + dx;
    let ny: i64 = at.1 as i64 + dy;
    if nx < 0 || ny < 0 {
        return (MoveIntent::Stay, Some(face));
    }
    let hx: i64 = home.0 as i64;
    let hy: i64 = home.1 as i64;
    let ax: i64 = if nx >= hx { nx - hx } else { hx - nx };
    let ay: i64 = if ny >= hy { ny - hy } else { hy - ny };
    if ax > radius as i64 || ay > radius as i64 {
        return (MoveIntent::Stay, Some(face));
    }
    (MoveIntent::Move(d), Some(face))
}

/// The roll order of wander directions.
pub open spec fn wander_dirs() -> Seq<Direction> {
    seq![Direction::Up, Direction::Down, Direction::Left, Direction::Right]
}

/// Roll a wander direction with `rng` and decide the move. Whatever comes
/// up, the result is `wander_spec` of some direction.
pub fn roll_wander(at: (usize, usize), home: (usize, usize), radius: i32, rng: &mut SmallRng) -> (r: (MoveIntent, Option<Dir>))
    requires
        at.0 < i32::MAX,
        at.1 < i32::MAX,
        home.0 < i32::MAX,
        home.1 < i32::MAX,
    ensures
        exists|i: int| 0 <= i < 4 && r == wander_spec(at, home, radius, #[trigger] wander_dirs()[i]),
{
    let dirs = [Direction::Up, Direction::Down, Direction::Left, Direction::Right];
    let i = pick_below(rng, 4);
    proof {
        assert(dirs@ =~= wander_dirs());
    }
    let r = wander_from(at, home, radius, dirs[i]);
    assert(r == wander_spec(at, home, radius, wander_dirs()[i as int]));
    r
}

// ─── Who the player is facing ──────────────────────────────

/// The index of the first roster NPC standing on the tile the player faces.
pub open spec fn facing_index(px: usize, py: usize, dir: Dir, npcs: Seq<(usize, usize)>) -> Option<int> {
    let (x, y) = step_in(px as int, py as int, dir);
    if x < 0 || y < 0 {
        None
    } else if exists|i: int| 0 <= i < npcs.len() && npcs[i] == (x as usize, y as usize) {
        Some(
            choose|i: int|
                0 <= i < npcs.len() && npcs[i] == (x as usize, y as usize) && forall|j: int|
                    0 <= j < i ==> npcs[j] != (x as usize, y as usize),
        )
    } else {
        None
    }
}

fn first_at(npcs: &[(usize, usize)], t: (usize, usize)) -> (r: Option<usize>)
    ensures
        r matches Some(i) ==> i < npcs@.len() && npcs@[i as int] == t && forall|j: int| 0 <= j < i ==> npcs@[j] != t,
        r is None ==> forall|j: int| 0 <= j < npcs@.len() ==> npcs@[j] != t,
{
    let mut i: usize = 0;
    while i < npcs.len()
        invariant
            0 <= i <= npcs@.len(),
            forall|j: int| 0 <= j < i ==> npcs@[j] != t,
        decreases npcs@.len() - i,
    {
        if npcs[i].0 == t.0 && npcs[i].1 == t.1 {
            return Some(i);
        }
        i = i + 1;
    }
    None
}

proof fn lemma_first_is_chosen(npcs: Seq<(usize, usize)>, t: (usize, usize), i: int)
    requires
        0 <= i < npcs.len(),
        npcs[i] == t,
        forall|j: int| 0 <= j < i ==> npcs[j] != t,
    ensures
        (choose|k: int| 0 <= k < npcs.len() && npcs[k] == t && forall|j: int| 0 <= j < k ==> npcs[j] != t) == i,
{
    let k = choose|k: int| 0 <= k < npcs.len() && npcs[k] == t && forall|j: int| 0 <= j < k ==> npcs[j] != t;
    assert(0 <= k < npcs.len() && npcs[k] == t && forall|j: int| 0 <= j < k ==> npcs[j] != t);
    if k < i {
        assert(npcs[k] != t);
    } else if i < k {
        assert(npcs[i] != t);
    }
}

/// Which roster NPC the player is facing, given the tiles the roster stands
/// on: the first one on the faced tile, if any.
pub fn get_interact_target(px: usize, py: usize, dir: Dir, npcs: &[(usize, usize)]) -> (r: Option<usize>)
    requires
        px < i32::MAX,
        py < i32::MAX,
    ensures
        match r {
            Some(i) => facing_index(px, py, dir, npcs@) == Some(i as int),
            None => facing_index(px, py, dir, npcs@) is None,
        },
{
    let t = match facing_tile(px, py, dir) {
        Some(t) => t,
        None => return None,
    };
    let r = first_at(npcs, t);
    proof {
        if let Some(i) = r {
            lemma_first_is_chosen(npcs@, t, i as int);
        }
    }
    r
}

/// Who answers when the player interacts: the companion or a roster NPC.
#[derive(Clone, Copy, PartialEq, Eq, Debug, Structural)]
pub enum InteractTarget {
    Companion,
    Roster(usize),
}

/// The companion answers when it stands on the faced tile; otherwise the
/// first roster NPC there, if any.
pub fn get_interact_target_with_companion(
    px: usize,
    py: usize,
    dir: Dir,
    npcs: &[(usize, usize)],
    companion: Option<(usize, usize)>,
) -> (r: Option<InteractTarget>)
    requires
        px < i32::MAX,
        py < i32::MAX,
    ensures
        ({
            let (x, y) = step_in(px as int, py as int, dir);
            if x < 0 || y < 0 {
                r is None
            } else if companion == Some((x as usize, y as usize)) {
                r == Some(InteractTarget::Companion)
            } else {
                match facing_index(px, py, dir, npcs@) {
                    Some(i) => r == Some(InteractTarget::Roster(i as usize)),
                    None => r is None,
                }
            }
        }),
{
    let t = match facing_tile(px, py, dir) {
        Some(t) => t,
        None => return None,
    };
    if let Some(c) = companion {
        if c.0 == t.0 && c.1 == t.1 {
            return Some(InteractTarget::Companion);
        }
    }
    match get_interact_target(px, py, dir, npcs) {
        Some(i) => Some(InteractTarget::Roster(i)),
        None => None,
    }
}

// ─── Map rosters ───────────────────────────────────────────

/// One NPC of a map's roster as it is placed when the map loads: who, on
/// which tile (also its home tile), drawn how, and what it does. The map it
/// belongs to is its home map.
#[derive(Clone, Copy, Debug)]
pub struct NpcSpawn {
    pub kind: NpcKind,
    pub home_map: &'static str,
    pub tile_x: usize,
    pub tile_y: usize,
    pub sprite: SpriteType,
    pub can_receive_gifts: bool,
    pub never_challenge: bool,
    pub is_puzzler: bool,
    /// Rolls random moves on a cooldown.
    pub wanders: bool,
}

/// (kind, tile x, tile y, sprite, takes gifts, never challenges, is a
/// puzzler, wanders).
pub type SpawnView = (NpcKind, usize, usize, SpriteType, bool, bool, bool, bool);

/// A spawn's fields other than its home map.
pub open spec fn spawn_view(s: NpcSpawn) -> SpawnView {
    (s.kind, s.tile_x, s.tile_y, s.sprite, s.can_receive_gifts, s.never_challenge, s.is_puzzler, s.wanders)
}

/// A stationary roster entry.
fn spawn(
    home_map: &'static str,
    kind: NpcKind,
    tx: usize,
    ty: usize,
    sprite: SpriteType,
    can_receive_gifts: bool,
    never_challenge: bool,
    is_puzzler: bool,
) -> (s: NpcSpawn)
    ensures
        spawn_view(s) == (kind, tx, ty, sprite, can_receive_gifts, never_challenge, is_puzzler, false),
        s.home_map@ == home_map@,
{
    NpcSpawn { kind, home_map, tile_x: tx, tile_y: ty, sprite, can_receive_gifts, never_challenge, is_puzzler, wanders: false }
}

impl NpcSpawn {
    /// The same entry, as a wanderer.
    pub fn wandering(self) -> (s: NpcSpawn)
        ensures
            s == (NpcSpawn { wanders: true, ..self }),
    {
        NpcSpawn { wanders: true, ..self }
    }
}

fn push_spawn(v: &mut Vec<NpcSpawn>, s: NpcSpawn)
    ensures
        final(v)@ == old(v)@.push(s),
{
    v.push(s);
}

/// A map's NPC roster as (kind, tile x, tile y, sprite, takes gifts,
/// never challenges, is a puzzler, wanders); maps without NPCs have none.
pub open spec fn roster(map_id: Seq<char>) -> Seq<SpawnView> {
    if map_id == "overworld"@ {
        seq![
            (NpcKind::Sage, 12, 12, SpriteType::Sage, true, false, true, false),
        ]
    } else if map_id == "home"@ {
        seq![
            (NpcKind::Mommy, 3, 3, SpriteType::Mommy, true, false, false, false),
            (NpcKind::Kid1, 6, 5, SpriteType::Kid1, true, true, false, true),
            (NpcKind::Kid2, 8, 5, SpriteType::Kid2, true, true, false, true),
        ]
    } else if map_id == "lab"@ {
        seq![
            (NpcKind::SageLab, 5, 3, SpriteType::Sage, true, false, true, false),
        ]
    } else if map_id == "shop"@ {
        seq![
            (NpcKind::Shopkeeper, 5, 2, SpriteType::Shopkeeper, true, false, false, false),
        ]
    } else if map_id == "dream"@ {
        seq![
            (NpcKind::DreamSage, 15, 8, SpriteType::Sage, false, false, false, false),
        ]
    } else if map_id == "doghouse"@ {
        seq![
            (NpcKind::GlitchDog, 7, 5, SpriteType::Dog, true, false, false, false),
        ]
    } else if map_id == "grove"@ {
        seq![
            (NpcKind::GroveSpirit, 6, 4, SpriteType::OldOak, true, false, false, false),
        ]
    } else if map_id == "annex"@ {
        seq![
            (NpcKind::Pip, 4, 3, SpriteType::Kid2, true, true, false, true),
        ]
    } else if map_id == "control"@ {
        seq![
            (NpcKind::CtrlBand, 2, 2, SpriteType::Sage, false, true, false, false),
            (NpcKind::CtrlKenkenLevel, 5, 2, SpriteType::Shopkeeper, false, true, false, false),
            (NpcKind::CtrlCraReset, 8, 2, SpriteType::OldOak, false, true, false, false),
            (NpcKind::CtrlIntroReset, 10, 2, SpriteType::Dog, false, true, false, false),
            (NpcKind::CtrlTriggerKenken, 3, 5, SpriteType::Kid1, false, true, false, false),
            (NpcKind::CtrlTriggerPattern, 5, 5, SpriteType::Sage, false, true, false, false),
            (NpcKind::CtrlTriggerBalance, 6, 5, SpriteType::OldOak, false, true, false, false),
            (NpcKind::CtrlTriggerSudoku, 7, 5, SpriteType::Kid1, false, true, false, false),
            (NpcKind::CtrlToggleEncounters, 2, 7, SpriteType::Dog, false, true, false, false),
            (NpcKind::CtrlTriggerEncounter, 4, 7, SpriteType::Sage, false, true, false, false),
            (NpcKind::CtrlToggleManipulatives, 6, 3, SpriteType::Kid2, false, true, false, false),
            (NpcKind::CtrlTriggerManipulative, 8, 7, SpriteType::Mommy, false, true, false, false),
            (NpcKind::CtrlToggleQuest, 10, 5, SpriteType::OldOak, false, true, false, false),
            (NpcKind::CtrlStartQuest, 10, 7, SpriteType::Sage, false, true, false, false),
            (NpcKind::CtrlTriggerChallenge, 8, 5, SpriteType::Kid2, false, true, false, false),
        ]
    } else if map_id == "dev"@ {
        seq![
            (NpcKind::Mommy, 2, 3, SpriteType::Mommy, false, true, false, false),
            (NpcKind::Sage, 4, 3, SpriteType::Sage, false, true, true, false),
            (NpcKind::Shopkeeper, 6, 3, SpriteType::Shopkeeper, false, true, false, false),
            (NpcKind::Kid1, 8, 3, SpriteType::Kid1, false, true, false, false),
            (NpcKind::Kid2, 10, 3, SpriteType::Kid2, false, true, false, false),
            (NpcKind::GlitchDog, 12, 3, SpriteType::Dog, false, true, false, false),
            (NpcKind::GroveSpirit, 13, 3, SpriteType::OldOak, false, true, false, false),
        ]
    } else {
        Seq::empty()
    }
}

/// The NPCs a map is loaded with, each at its home tile.
pub fn npcs_for_map(map_id: &'static str) -> (v: Vec<NpcSpawn>)
    ensures
        v@.map_values(|s: NpcSpawn| spawn_view(s)) == roster(map_id@),
        forall|i: int| 0 <= i < v@.len() ==> (#[trigger] v@[i]).home_map@ == map_id@,
{
    let mut v: Vec<NpcSpawn> = Vec::new();
    if str_eq(map_id, "overworld") {
        push_spawn(&mut v, spawn(map_id, NpcKind::Sage, 12, 12, SpriteType::Sage, true, false, true));
    } else if str_eq(map_id, "home") {
        push_spawn(&mut v, spawn(map_id, NpcKind::Mommy, 3, 3, SpriteType::Mommy, true, false, false));
        push_spawn(&mut v, spawn(map_id, NpcKind::Kid1, 6, 5, SpriteType::Kid1, true, true, false).wandering());
        push_spawn(&mut v, spawn(map_id, NpcKind::Kid2, 8, 5, SpriteType::Kid2, true, true, false).wandering());
    } else if str_eq(map_id, "lab") {
        push_spawn(&mut v, spawn(map_id, NpcKind::SageLab, 5, 3, SpriteType::Sage, true, false, true));
    } else if str_eq(map_id, "shop") {
        push_spawn(&mut v, spawn(map_id, NpcKind::Shopkeeper, 5, 2, SpriteType::Shopkeeper, true, false, false));
    } else if str_eq(map_id, "dream") {
        push_spawn(&mut v, spawn(map_id, NpcKind::DreamSage, 15, 8, SpriteType::Sage, false, false, false));
    } else if str_eq(map_id, "doghouse") {
        push_spawn(&mut v, spawn(map_id, NpcKind::GlitchDog, 7, 5, SpriteType::Dog, true, false, false));
    } else if str_eq(map_id, "grove") {
        push_spawn(&mut v, spawn(map_id, NpcKind::GroveSpirit, 6, 4, SpriteType::OldOak, true, false, false));
    } else if str_eq(map_id, "annex") {
        push_spawn(&mut v, spawn(map_id, NpcKind::Pip, 4, 3, SpriteType::Kid2, true, true, false).wandering());
    } else if str_eq(map_id, "control") {
        push_spawn(&mut v, spawn(map_id, NpcKind::CtrlBand, 2, 2, SpriteType::Sage, false, true, false));
        push_spawn(&mut v, spawn(map_id, NpcKind::CtrlKenkenLevel, 5, 2, SpriteType::Shopkeeper, false, true, false));
        push_spawn(&mut v, spawn(map_id, NpcKind::CtrlCraReset, 8, 2, SpriteType::OldOak, false, true, false));
        push_spawn(&mut v, spawn(map_id, NpcKind::CtrlIntroReset, 10, 2, SpriteType::Dog, false, true, false));
        push_spawn(&mut v, spawn(map_id, NpcKind::CtrlTriggerKenken, 3, 5, SpriteType::Kid1, false, true, false));
        push_spawn(&mut v, spawn(map_id, NpcKind::CtrlTriggerPattern, 5, 5, SpriteType::Sage, false, true, false));
        push_spawn(&mut v, spawn(map_id, NpcKind::CtrlTriggerBalance, 6, 5, SpriteType::OldOak, false, true, false));
        push_spawn(&mut v, spawn(map_id, NpcKind::CtrlTriggerSudoku, 7, 5, SpriteType::Kid1, false, true, false));
        push_spawn(&mut v, spawn(map_id, NpcKind::CtrlToggleEncounters, 2, 7, SpriteType::Dog, false, true, false));
        push_spawn(&mut v, spawn(map_id, NpcKind::CtrlTriggerEncounter, 4, 7, SpriteType::Sage, false, true, false));
        push_spawn(&mut v, spawn(map_id, NpcKind::CtrlToggleManipulatives, 6, 3, SpriteType::Kid2, false, true, false));
        push_spawn(&mut v, spawn(map_id, NpcKind::CtrlTriggerManipulative, 8, 7, SpriteType::Mommy, false, true, false));
        push_spawn(&mut v, spawn(map_id, NpcKind::CtrlToggleQuest, 10, 5, SpriteType::OldOak, false, true, false));
        push_spawn(&mut v, spawn(map_id, NpcKind::CtrlStartQuest, 10, 7, SpriteType::Sage, false, true, false));
        push_spawn(&mut v, spawn(map_id, NpcKind::CtrlTriggerChallenge, 8, 5, SpriteType::Kid2, false, true, false));
    } else if str_eq(map_id, "dev") {
        push_spawn(&mut v, spawn(map_id, NpcKind::Mommy, 2, 3, SpriteType::Mommy, false, true, false));
        push_spawn(&mut v, spawn(map_id, NpcKind::Sage, 4, 3, SpriteType::Sage, false, true, true));
        push_spawn(&mut v, spawn(map_id, NpcKind::Shopkeeper, 6, 3, SpriteType::Shopkeeper, false, true, false));
        push_spawn(&mut v, spawn(map_id, NpcKind::Kid1, 8, 3, SpriteType::Kid1, false, true, false));
        push_spawn(&mut v, spawn(map_id, NpcKind::Kid2, 10, 3, SpriteType::Kid2, false, true, false));
        push_spawn(&mut v, spawn(map_id, NpcKind::GlitchDog, 12, 3, SpriteType::Dog, false, true, false));
        push_spawn(&mut v, spawn(map_id, NpcKind::GroveSpirit, 13, 3, SpriteType::OldOak, false, true, false));
    }
    proof {
        assert(v@.map_values(|s: NpcSpawn| spawn_view(s)) =~= roster(map_id@));
    }
    v
}

// ─── Small talk ────────────────────────────────────────────

/// What each NPC kind says in small talk; dev controls only say hello.
pub open spec fn small_talk(k: NpcKind) -> Seq<Seq<char>> {
    match k {
        NpcKind::Mommy => seq!["Hi sweetie! I'm so proud of you for exploring!"@, "You and Sparky make the best team!"@, "I love you! Keep being amazing!"@],
        NpcKind::Sage | NpcKind::SageLab => seq!["Ahhhh, young adventurer! The stars told me you'd come!"@, "Welcome! I am Professor Gizmo, master of numbers!"@, "The ancient scrolls speak of a hero... and I think it's YOU!"@],
        NpcKind::Kid1 => seq!["Wanna see me do a cartwheel? Watch! ...okay I can't actually do one yet."@, "Sparky is SO COOL! I wish I had a robot friend!"@, "Did you know frogs can jump SUPER far? Like, really far!"@],
        NpcKind::Kid2 => seq!["Hi... um... do you like bugs? I found a really cool one."@, "Sparky beeped at me and I think that means he likes me!"@, "Do you think clouds are soft? I think they're soft."@],
        NpcKind::Shopkeeper => seq!["Welcome to my shop! Everything costs Dum Dums!"@, "I've got the finest wares in all of Robot Village!"@],
        NpcKind::DreamSage => seq!["You are dreaming... or are you? The numbers whisper here..."@, "In dreams, 2 + 2 can be anything... but it's still 4."@],
        NpcKind::GlitchDog => seq!["BORK BORK! sys.treat.exe... GOOD BOY overflow!"@, "Woof! *static* I am... a good boy? BORK.dll loaded!"@, "fetch(ball) returned: UNDEFINED... but I still love you!"@],
        NpcKind::GroveSpirit => seq!["How... did you find this place? The trees have hidden it for ages..."@, "It's dangerous to go alone... take this!"@, "The leaves whisper your name... they say you are very clever."@],
        NpcKind::Pip => seq!["Squeak! You found my little clearing!"@, "I like to wander in circles. It's very fun!"@, "Got any snacks? I'm always a bit hungry, hehe!"@],
        _ => seq!["Hello there!"@],
    }
}

fn small_talk_lines(k: NpcKind) -> (v: Vec<&'static str>)
    ensures
        v@.map_values(|t: &'static str| t@) == small_talk(k),
{
    let v: Vec<&'static str> = match k {
        NpcKind::Mommy => vec!["Hi sweetie! I'm so proud of you for exploring!", "You and Sparky make the best team!", "I love you! Keep being amazing!"],
        NpcKind::Sage | NpcKind::SageLab => vec!["Ahhhh, young adventurer! The stars told me you'd come!", "Welcome! I am Professor Gizmo, master of numbers!", "The ancient scrolls speak of a hero... and I think it's YOU!"],
        NpcKind::Kid1 => vec!["Wanna see me do a cartwheel? Watch! ...okay I can't actually do one yet.", "Sparky is SO COOL! I wish I had a robot friend!", "Did you know frogs can jump SUPER far? Like, really far!"],
        NpcKind::Kid2 => vec!["Hi... um... do you like bugs? I found a really cool one.", "Sparky beeped at me and I think that means he likes me!", "Do you think clouds are soft? I think they're soft."],
        NpcKind::Shopkeeper => vec!["Welcome to my shop! Everything costs Dum Dums!", "I've got the finest wares in all of Robot Village!"],
        NpcKind::DreamSage => vec!["You are dreaming... or are you? The numbers whisper here...", "In dreams, 2 + 2 can be anything... but it's still 4."],
        NpcKind::GlitchDog => vec!["BORK BORK! sys.treat.exe... GOOD BOY overflow!", "Woof! *static* I am... a good boy? BORK.dll loaded!", "fetch(ball) returned: UNDEFINED... but I still love you!"],
        NpcKind::GroveSpirit => vec!["How... did you find this place? The trees have hidden it for ages...", "It's dangerous to go alone... take this!", "The leaves whisper your name... they say you are very clever."],
        NpcKind::Pip => vec!["Squeak! You found my little clearing!", "I like to wander in circles. It's very fun!", "Got any snacks? I'm always a bit hungry, hehe!"],
        _ => vec!["Hello there!"],
    };
    proof {
        assert(v@.map_values(|t: &'static str| t@) =~= small_talk(k));
    }
    v
}

/// Small-talk line number `idx` of an NPC kind, spoken under its display name.
pub fn npc_line(kind: NpcKind, idx: usize) -> (v: Vec<DialogueLine>)
    requires
        idx < small_talk(kind).len(),
    ensures
        lines_view(v@) == seq![(npc_display_name(kind), small_talk(kind)[idx as int])],
{
    let lines = small_talk_lines(kind);
    assert(lines@.map_values(|t: &'static str| t@)[idx as int] == lines@[idx as int]@);
    let l = say(kind.display_name(), lines[idx]);
    let v = vec![l];
    proof {
        assert(lines_view(v@) =~= seq![(npc_display_name(kind), small_talk(kind)[idx as int])]);
    }
    v
}

/// One line of small talk from an NPC of this kind, picked with `rng`.
pub fn npc_dialogue_lines(kind: NpcKind, rng: &mut SmallRng) -> (v: Vec<DialogueLine>)
    ensures
        exists|i: int|
            0 <= i < small_talk(kind).len() && lines_view(v@) == seq![(npc_display_name(kind), #[trigger] small_talk(kind)[i])],
{
    let lines = small_talk_lines(kind);
    assert(lines@.len() == small_talk(kind).len());
    let idx = pick_below(rng, lines.len());
    npc_line(kind, idx)
}

} // verus!
