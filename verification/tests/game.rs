use rand::rngs::SmallRng;
use rand::SeedableRng;
use robot_buddy_game::game::leap::{leap_call, LeapClue, LeapPuzzle};
use robot_buddy_game::game::pearl_hop::{opening_line, pearl_hop_base, HopCall, HopStage};
use robot_buddy_game::game::shop::{division_choices, subtraction_choices};
use robot_buddy_game::game::{
    buddy_swap_dialogue, build_quest_puzzle, display_name_for_buddy_id, facing_tile, find_sparky_spot,
    give_reaction_dialogue, is_dev_zone_code, quest_answer_candidates, quest_answer_choices,
    reaction_line, say, secret_entry_dialogue, sparky_dialogue_lines, sparky_line, FeatureFlags,
    Milestone, QuestOperation,
};
use robot_buddy_game::sprites::Dir;
use robot_buddy_game::tilemap::TileMap;

#[test]
fn quest_answer_choices_are_non_negative_and_distinct() {
    let mut rng = SmallRng::seed_from_u64(2);
    for answer in 0..6 {
        let ch = quest_answer_choices(answer, &mut rng);
        assert!(ch.contains(&answer));
        assert!(ch.iter().all(|&c| c >= 0));
        let mut sorted = ch.clone();
        sorted.sort();
        sorted.dedup();
        assert_eq!(sorted.len(), ch.len(), "choices distinct: {ch:?}");
    }
}

#[test]
fn quest_candidates_in_gathering_order() {
    assert_eq!(quest_answer_candidates(5), vec![5, 6, 4, 7]);
    assert_eq!(quest_answer_candidates(0), vec![0, 1, 2, 3]);
    // Distractors are positive: 0 is never offered next to an answer of 1.
    assert_eq!(quest_answer_candidates(1), vec![1, 2, 3, 4]);
    assert_eq!(quest_answer_candidates(2), vec![2, 3, 1, 4]);
}

#[test]
fn shuffled_quest_tiles_are_the_gathered_ones() {
    let mut rng = SmallRng::seed_from_u64(9);
    let mut ch = quest_answer_choices(5, &mut rng);
    ch.sort();
    assert_eq!(ch, vec![4, 5, 6, 7]);
}

#[test]
fn quest_subtraction_answer_is_non_negative_either_operand_order() {
    for (a, b) in [(2u16, 5u16), (5, 2), (3, 3)] {
        let mut rng = SmallRng::seed_from_u64(1);
        let p = build_quest_puzzle(QuestOperation::Sub, Some((a, b)), &mut rng).expect("math step yields a puzzle");
        assert_eq!(p.answer, (a as i32 - b as i32).abs());
        assert!(p.answer >= 0);
        assert!(p.choices.contains(&p.answer));
        assert!(p.choices.len() >= 2, "need at least two tiles, got {:?}", p.choices);
        assert!(p.choices.iter().all(|&c| c >= 0), "no negative tiles: {:?}", p.choices);
    }
}

#[test]
fn quest_puzzle_arithmetic() {
    let mut rng = SmallRng::seed_from_u64(3);
    assert_eq!(build_quest_puzzle(QuestOperation::Multiply, Some((6, 7)), &mut rng).unwrap().answer, 42);
    assert_eq!(build_quest_puzzle(QuestOperation::Divide, Some((9, 2)), &mut rng).unwrap().answer, 4);
    assert_eq!(build_quest_puzzle(QuestOperation::Divide, Some((9, 0)), &mut rng).unwrap().answer, 0);
    assert_eq!(build_quest_puzzle(QuestOperation::Add, Some((9, 2)), &mut rng).unwrap().answer, 11);
    assert_eq!(build_quest_puzzle(QuestOperation::NumberBond, Some((4, 6)), &mut rng).unwrap().answer, 10);
    assert!(build_quest_puzzle(QuestOperation::Add, None, &mut rng).is_none());
}

#[test]
fn purchase_tiles_hold_the_remainder_and_the_slips() {
    let mut rng = SmallRng::seed_from_u64(4);
    let mut ch = subtraction_choices(20, 5, &mut rng);
    assert!(ch.contains(&15));
    ch.sort();
    assert_eq!(ch, vec![15, 16, 20]);
    // Free item: "forgot to subtract" is the answer itself, so the next slip fills in.
    let mut free = subtraction_choices(7, 0, &mut rng);
    free.sort();
    assert_eq!(free, vec![6, 7, 8]);
    // Too expensive saturates at zero.
    let mut broke = subtraction_choices(3, 10, &mut rng);
    broke.sort();
    assert_eq!(broke, vec![0, 1, 3]);
    // One under the answer would be 0, so the next slip above zero is offered.
    let mut one = subtraction_choices(2, 1, &mut rng);
    one.sort();
    assert_eq!(one, vec![1, 2, 3]);
}

#[test]
fn trade_tiles_hold_the_quotient_and_the_slips() {
    let mut rng = SmallRng::seed_from_u64(5);
    let mut ch = division_choices(4, 12, &mut rng);
    ch.sort();
    assert_eq!(ch, vec![3, 4, 5]);
    let mut zero = division_choices(0, 0, &mut rng);
    zero.sort();
    assert_eq!(zero, vec![0, 1, 2]);
}

#[test]
fn the_deep_shelly_pays_double() {
    assert_eq!(pearl_hop_base("trench"), 2);
    assert_eq!(pearl_hop_base("reef"), 1);
}

#[test]
fn shelly_names_the_stone_and_the_clue() {
    let size = LeapPuzzle { pearl: 12, clue: LeapClue::Size { n: 3 } };
    assert_eq!(leap_call(&size), "My pearl's under stone 12! Leap by 3s to reach it!");
    let count = LeapPuzzle { pearl: 8, clue: LeapClue::Count { n: 4 } };
    assert_eq!(
        leap_call(&count),
        "My pearl's under stone 8! You get there in 4 leaps \u{2014} how big is each one?"
    );
    let zero = LeapPuzzle { pearl: 0, clue: LeapClue::Size { n: 10 } };
    assert_eq!(leap_call(&zero), "My pearl's under stone 0! Leap by 10s to reach it!");
}

#[test]
fn dev_zone_code_ignores_spaces_and_case() {
    assert!(is_dev_zone_code("justinbailey"));
    assert!(is_dev_zone_code("Justin Bailey"));
    assert!(is_dev_zone_code(" JUSTIN\tBAILEY "));
    assert!(!is_dev_zone_code("justin"));
    assert!(!is_dev_zone_code("justinbaileys"));
    assert!(!is_dev_zone_code("jüstinbailey"));
    assert!(!is_dev_zone_code(""));
}

#[test]
fn sparky_prefers_the_tile_below_the_player() {
    let m = TileMap::overworld();
    assert_eq!(find_sparky_spot(10, 10, &m, &[]), (10, 11));
    // An NPC below pushes Sparky to the next candidate.
    assert_eq!(find_sparky_spot(10, 10, &m, &[(10, 11)]), (10, 9));
    assert_eq!(find_sparky_spot(10, 10, &m, &[(10, 11), (10, 9)]), (11, 10));
    assert_eq!(find_sparky_spot(10, 10, &m, &[(10, 11), (10, 9), (11, 10)]), (9, 10));
    assert_eq!(find_sparky_spot(10, 10, &m, &[(10, 11), (10, 9), (11, 10), (9, 10)]), (10, 10));
}

#[test]
fn facing_tile_steps_and_wraps() {
    assert_eq!(facing_tile(4, 4, Dir::Up), (4, 3));
    assert_eq!(facing_tile(4, 4, Dir::Down), (4, 5));
    assert_eq!(facing_tile(4, 4, Dir::Left), (3, 4));
    assert_eq!(facing_tile(4, 4, Dir::Right), (5, 4));
    assert_eq!(facing_tile(0, 0, Dir::Up), (0, usize::MAX));
    assert_eq!(facing_tile(0, 0, Dir::Left), (usize::MAX, 0));
}

#[test]
fn buddy_names_resolve_from_ids() {
    assert_eq!(display_name_for_buddy_id("sparky"), "Sparky");
    assert_eq!(display_name_for_buddy_id("mommy"), "Mommy");
    assert_eq!(display_name_for_buddy_id("no_such_npc"), "no_such_npc");
}

#[test]
fn swapping_buddies_adds_hello_then_goodbye() {
    let reaction = vec![say("Mommy", "Thank you!")];
    let lines = buddy_swap_dialogue("mommy", Some("sparky"), reaction);
    assert_eq!(lines.len(), 3);
    assert_eq!(lines[0].text, "Thank you!");
    assert_eq!(lines[1].speaker, "Mommy");
    assert_eq!(lines[1].text, "Ooh, an adventure? I'd love to come along with you!");
    assert_eq!(lines[2].speaker, "Sparky");
    assert_eq!(lines[2].text, "Heading back to Professor Gizmo to charge up! Catch ya later, boss!");

    let back = buddy_swap_dialogue("sparky", None, Vec::new());
    assert_eq!(back.len(), 1);
    assert_eq!(back[0].speaker, "Sparky");
    assert_eq!(back[0].text, "BEEP BOOP! I'm BACK, boss! Let's go adventuring!");
}

#[test]
fn secret_maps_greet_with_the_buddy_voice() {
    let reef = secret_entry_dialogue("reef", "Mommy");
    assert_eq!(reef.len(), 4);
    assert!(reef.iter().all(|l| l.speaker == "Mommy"));
    assert_eq!(reef[0].text, "BLUB BLUB! We're UNDERWATER, boss! And I didn't even rust! Best upgrade EVER!");
    assert_eq!(secret_entry_dialogue("trench", "Sparky").len(), 2);
    assert!(secret_entry_dialogue("overworld", "Sparky").is_empty());
}

#[test]
fn sparky_chatter_is_one_of_his_lines() {
    let first = sparky_line(0);
    assert_eq!(first[0].speaker, "Sparky");
    assert_eq!(first[0].text, "BEEP BOOP! Hi boss! I polished my antenna just for you!");
    let mut rng = SmallRng::seed_from_u64(11);
    let all: Vec<String> = (0..8).map(|i| sparky_line(i)[0].text.clone()).collect();
    let picked = sparky_dialogue_lines(&mut rng);
    assert_eq!(picked.len(), 1);
    assert!(all.contains(&picked[0].text));
}

#[test]
fn gift_reactions_follow_milestones() {
    let first = Some(Milestone { reaction: "first".to_string(), total: 1 });
    assert_eq!(
        reaction_line("sparky", "Sparky", &first, 0)[0].text,
        "My FIRST Dum Dum?! This is the BEST DAY of my robot LIFE!"
    );
    assert_eq!(
        reaction_line("mommy", "Mommy", &first, 0)[0].text,
        "My first Dum Dum! Thank you so much, you're the best!"
    );
    let other = Some(Milestone { reaction: "spin".to_string(), total: 5 });
    assert_eq!(
        reaction_line("mommy", "Mommy", &other, 0)[0].text,
        "WOW! You've given me 5 Dum Dums! You're amazing!"
    );
    assert_eq!(reaction_line("mommy", "Mommy", &None, 0)[0].text, "Thank you! You're so kind!");
    assert_eq!(reaction_line("sparky", "Sparky", &None, 2)[0].text, "BZZZT! Sugar rush! BEEP BOOP BEEP!");
    let mut rng = SmallRng::seed_from_u64(6);
    let l = give_reaction_dialogue("kid_1", "Tali", &None, &mut rng);
    assert_eq!(l[0].speaker, "Tali");
    assert_eq!(l[0].text, "Thank you! You're so kind!");
}

#[test]
fn feature_flags_default_off() {
    let f = FeatureFlags::default();
    assert!(!f.encounters);
    assert!(!f.quest);
}

#[test]
fn shelly_opens_each_stage_with_its_rule() {
    let call = |stage| HopCall { stage, pearl: 7, hops: 3, span: 20 };
    assert_eq!(opening_line(&call(HopStage::Count)), "My pearl is on stone 7! Fling me there!");
    assert_eq!(
        opening_line(&call(HopStage::SkipCount)),
        "I always hop the same size! Get me to my pearl on 7!"
    );
    assert_eq!(opening_line(&call(HopStage::Hops)), "Get me to my pearl on 7 in 3 hops!");
    assert_eq!(opening_line(&call(HopStage::Estimate)), "My pearl sank at 7! The far rock is 20.");
}
