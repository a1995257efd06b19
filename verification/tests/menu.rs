use robot_buddy_game::game::menu::{menu_step, MenuStep, ShopKeeper};

#[test]
fn talking_to_sparky_may_queue_a_challenge_half_the_time() {
    assert_eq!(menu_step(Some("talk"), "sparky", true), MenuStep::TalkSparky { challenge_percent: 50 });
    assert_eq!(menu_step(Some("talk"), "sparky", false), MenuStep::TalkSparky { challenge_percent: 0 });
}

#[test]
fn talking_to_an_npc_may_queue_a_challenge_two_in_five() {
    assert_eq!(menu_step(Some("talk"), "mommy", true), MenuStep::TalkNpc { challenge_percent: 40 });
    assert_eq!(menu_step(Some("talk"), "mommy", false), MenuStep::TalkNpc { challenge_percent: 0 });
}

#[test]
fn activity_options_start_their_activity() {
    assert_eq!(menu_step(Some("puzzle"), "sage", true), MenuStep::StartKenken);
    assert_eq!(menu_step(Some("pattern"), "sage", true), MenuStep::StartPattern);
    assert_eq!(menu_step(Some("balance"), "sage", true), MenuStep::StartBalance);
    assert_eq!(menu_step(Some("sudoku"), "sage", true), MenuStep::StartSudoku);
    assert_eq!(menu_step(Some("dive"), "diver", true), MenuStep::StartDescent);
    assert_eq!(menu_step(Some("swag"), "kid1", true), MenuStep::OpenSwag);
    assert_eq!(menu_step(Some("give"), "kid1", true), MenuStep::Give);
}

#[test]
fn the_hermit_crab_runs_the_pearl_shop() {
    assert_eq!(menu_step(Some("shop"), "hermit_crab", false), MenuStep::OpenShop { keeper: ShopKeeper::Hermie });
    assert_eq!(menu_step(Some("shop"), "bolt", false), MenuStep::OpenShop { keeper: ShopKeeper::Bolt });
}

#[test]
fn dismissing_or_an_unknown_option_goes_back_to_play() {
    assert_eq!(menu_step(None, "sparky", true), MenuStep::BackToPlaying);
    assert_eq!(menu_step(Some("dance"), "sparky", true), MenuStep::BackToPlaying);
}
