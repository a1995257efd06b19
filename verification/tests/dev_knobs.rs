use robot_buddy_game::game::dev_knobs::{dev_control_step, DevEffect, DevKnobs};
use robot_buddy_game::game::FeatureFlags;
use robot_buddy_game::npc::NpcKind;

fn knobs(band: u8, kenken: u8) -> DevKnobs {
    DevKnobs {
        math_band: band,
        kenken_level: kenken,
        kenken_intro_seen: true,
        features: FeatureFlags { encounters: false, quest: true },
    }
}

fn said(kind: NpcKind, k: DevKnobs) -> (DevKnobs, String) {
    let (after, action) = dev_control_step(k, kind);
    assert_eq!(action.effect, DevEffect::Say);
    let line = action.line.expect("a knob line");
    assert_eq!(line.speaker, "Knob");
    (after, line.text)
}

#[test]
fn band_knob_wraps_from_ten_to_one() {
    let (after, text) = said(NpcKind::CtrlBand, knobs(10, 2));
    assert_eq!(after.math_band, 1);
    assert_eq!(text, "BEEP. Math band is now 1.");
    let (after, text) = said(NpcKind::CtrlBand, knobs(4, 2));
    assert_eq!(after.math_band, 5);
    assert_eq!(text, "BEEP. Math band is now 5.");
}

#[test]
fn band_knob_cycles_through_ten_bands() {
    let mut k = knobs(3, 2);
    for _ in 0..10 {
        k = dev_control_step(k, NpcKind::CtrlBand).0;
        assert!((1..=10).contains(&k.math_band));
    }
    assert_eq!(k.math_band, 3);
}

#[test]
fn kenken_knob_cycles_two_three_four() {
    let (after, text) = said(NpcKind::CtrlKenkenLevel, knobs(1, 2));
    assert_eq!(after.kenken_level, 3);
    assert_eq!(text, "BEEP. KenKen grid is now 3x3.");
    let (after, _) = said(NpcKind::CtrlKenkenLevel, knobs(1, 3));
    assert_eq!(after.kenken_level, 4);
    let (after, text) = said(NpcKind::CtrlKenkenLevel, knobs(1, 4));
    assert_eq!(after.kenken_level, 2);
    assert_eq!(text, "BEEP. KenKen grid is now 2x2.");
    let (after, _) = said(NpcKind::CtrlKenkenLevel, knobs(1, 7));
    assert_eq!(after.kenken_level, 2);
}

#[test]
fn flag_knobs_toggle_and_report() {
    let (after, text) = said(NpcKind::CtrlToggleEncounters, knobs(1, 2));
    assert!(after.features.encounters);
    assert!(after.features.quest);
    assert_eq!(text, "BEEP. Random encounters are now ON.");
    let (after, text) = said(NpcKind::CtrlToggleQuest, knobs(1, 2));
    assert!(!after.features.quest);
    assert_eq!(text, "BEEP. Quests are now OFF.");
    let (after, text) = said(NpcKind::CtrlIntroReset, knobs(1, 2));
    assert!(!after.kenken_intro_seen);
    assert_eq!(text, "KenKen intro flag cleared. Next puzzle replays the tutorial.");
}

#[test]
fn cra_reset_knob_resets_and_says_so() {
    let (after, action) = dev_control_step(knobs(6, 3), NpcKind::CtrlCraReset);
    assert_eq!(action.effect, DevEffect::ResetCraStages);
    assert_eq!(action.line.unwrap().text, "All operation CRA stages reset to Concrete.");
    assert_eq!((after.math_band, after.kenken_level), (6, 3));
}

#[test]
fn trigger_knobs_start_activities_silently() {
    let cases = [
        (NpcKind::CtrlTriggerKenken, DevEffect::StartKenken),
        (NpcKind::CtrlTriggerPattern, DevEffect::StartPattern),
        (NpcKind::CtrlTriggerBalance, DevEffect::StartBalance),
        (NpcKind::CtrlTriggerSudoku, DevEffect::StartSudoku),
        (NpcKind::CtrlTriggerChallenge, DevEffect::StartChallenge),
        (NpcKind::CtrlTriggerEncounter, DevEffect::FireEncounter),
        (NpcKind::CtrlStartQuest, DevEffect::StartQuest),
    ];
    for (kind, effect) in cases {
        let (after, action) = dev_control_step(knobs(2, 3), kind);
        assert_eq!(action.effect, effect);
        assert!(action.line.is_none());
        assert_eq!((after.math_band, after.kenken_level), (2, 3));
    }
}

#[test]
fn unhandled_controls_report_unknown() {
    let (after, text) = said(NpcKind::CtrlToggleManipulatives, knobs(2, 3));
    assert_eq!(text, "Unknown control: ctrl_toggle_manipulatives");
    assert_eq!(after.math_band, 2);
    let (_, text) = said(NpcKind::Mommy, knobs(2, 3));
    assert_eq!(text, "Unknown control: mommy");
}
