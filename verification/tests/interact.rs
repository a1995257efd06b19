use robot_buddy_game::game::interact::{
    interaction_for, interaction_line, talk_only_challenge_percent, FacedNpc, Interaction, Mount,
};
use robot_buddy_game::npc::NpcKind;

fn npc(kind: NpcKind) -> FacedNpc {
    FacedNpc { kind, gate: false, refuel: false, launch_shooter: false, never_challenge: false }
}

#[test]
fn a_chest_comes_before_anyone_faced() {
    assert_eq!(interaction_for(true, Some(npc(NpcKind::Mommy)), false, None), Interaction::Chest);
    let line = interaction_line(Interaction::Chest, "Sparky", NpcKind::Mommy).unwrap();
    assert_eq!(line.speaker, "Sparky");
    assert_eq!(line.text, "OOOOH a treasure chest! But it has a LOCK! We need to solve the puzzle to open it!");
}

#[test]
fn special_npcs_skip_the_menu() {
    assert_eq!(interaction_for(false, Some(npc(NpcKind::CtrlBand)), false, None), Interaction::DevKnob(NpcKind::CtrlBand));
    let gate = FacedNpc { gate: true, refuel: true, ..npc(NpcKind::Pip) };
    assert_eq!(interaction_for(false, Some(gate), false, None), Interaction::Gate, "a gate comes before a depot");
    let depot = FacedNpc { refuel: true, launch_shooter: true, ..npc(NpcKind::Kid1) };
    assert_eq!(interaction_for(false, Some(depot), false, None), Interaction::Refuel);
    let arcade = FacedNpc { launch_shooter: true, ..npc(NpcKind::Kid2) };
    assert_eq!(interaction_for(false, Some(arcade), false, None), Interaction::Shooter);
    let line = interaction_line(Interaction::Refuel, "Sparky", NpcKind::Kid1).unwrap();
    assert_eq!(line.speaker, "Tali");
    assert_eq!(line.text, "BEEP BOOP! Solve a number puzzle and I'll fill the rocket right up to the top!");
    let line = interaction_line(Interaction::Gate, "Sparky", NpcKind::Pip).unwrap();
    assert_eq!(line.speaker, "Pip");
    assert!(line.text.starts_with("*yaaawn*"));
}

#[test]
fn everyone_else_chats() {
    assert_eq!(interaction_for(false, Some(npc(NpcKind::Mommy)), false, None), Interaction::Chat { can_challenge: true });
    let shy = FacedNpc { never_challenge: true, ..npc(NpcKind::Mommy) };
    assert_eq!(interaction_for(false, Some(shy), false, None), Interaction::Chat { can_challenge: false });
    assert_eq!(interaction_for(false, None, false, None), Interaction::Nothing);
    assert!(interaction_line(Interaction::Chat { can_challenge: true }, "Sparky", NpcKind::Mommy).is_none());
}

#[test]
fn sparky_and_the_mount_chat_when_no_one_else_is_faced() {
    assert_eq!(interaction_for(false, None, true, None), Interaction::ChatSparky);
    let mount = Mount { kind: NpcKind::Pip, never_challenge: false };
    assert_eq!(interaction_for(false, None, true, Some(mount)), Interaction::ChatSparky);
    assert_eq!(
        interaction_for(false, None, false, Some(mount)),
        Interaction::ChatMount { kind: NpcKind::Pip, can_challenge: true }
    );
    assert_eq!(interaction_for(false, Some(npc(NpcKind::Mommy)), true, Some(mount)), Interaction::Chat { can_challenge: true });
    assert_eq!(interaction_for(true, None, true, Some(mount)), Interaction::Chest);
}

#[test]
fn talk_only_chats_may_end_in_a_challenge() {
    assert_eq!(talk_only_challenge_percent(Interaction::Chat { can_challenge: true }), 40);
    assert_eq!(talk_only_challenge_percent(Interaction::Chat { can_challenge: false }), 0);
    assert_eq!(talk_only_challenge_percent(Interaction::ChatSparky), 50);
    assert_eq!(talk_only_challenge_percent(Interaction::ChatMount { kind: NpcKind::Pip, can_challenge: true }), 0);
    assert_eq!(talk_only_challenge_percent(Interaction::Gate), 0);
}
