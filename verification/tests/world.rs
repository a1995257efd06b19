use rand::rngs::SmallRng;
use rand::SeedableRng;
use robot_buddy_game::movement::{Direction, MoveIntent};
use robot_buddy_game::npc::{
    find_npc_spawn_spot, get_interact_target, get_interact_target_with_companion, is_facing_sparky,
    npc_dialogue_lines, npc_line, npcs_for_map, roll_wander, wander_from, InteractTarget, NpcKind,
    SpriteType, WANDER_RADIUS,
};
use robot_buddy_game::sprites::Dir;
use robot_buddy_game::tilemap::{all_portals, check_portal, TileMap};

#[test]
fn every_portal_lands_on_a_walkable_tile() {
    for p in all_portals() {
        let m = TileMap::by_id(p.to_map);
        assert!(!m.is_solid(p.to_x, p.to_y), "{} -> {} ({},{})", p.from_map, p.to_map, p.to_x, p.to_y);
        let from = TileMap::by_id(p.from_map);
        assert!(!from.is_solid(p.from_x, p.from_y));
    }
}

#[test]
fn the_home_door_leads_home() {
    let p = check_portal("overworld", 5, 7).unwrap();
    assert_eq!(p.to_map, "home");
    assert_eq!((p.to_x, p.to_y), (4, 5));
    assert!(check_portal("overworld", 6, 7).is_none());
    let dive = check_portal("overworld", 17, 15).unwrap();
    assert_eq!(dive.cost, 3);
    assert!(dive.secret);
}

#[test]
fn secret_tiles_are_walkable_and_the_edge_is_solid() {
    let m = TileMap::overworld();
    assert!(!m.is_solid(16, 14), "the dream portal's water tile is walkable");
    assert!(m.is_solid(m.width, 0));
    assert!(m.is_solid(0, m.height));
    assert_eq!(TileMap::by_id("nowhere").id, "overworld");
    assert_eq!(TileMap::by_id("reef").id, "reef");
}

#[test]
fn rosters_place_npcs_at_home() {
    let home = npcs_for_map("home");
    assert_eq!(home.len(), 3);
    assert_eq!(home[0].kind, NpcKind::Mommy);
    assert_eq!((home[0].tile_x, home[0].tile_y), (3, 3));
    assert!(!home[0].wanders);
    assert!(home[1].wanders && home[2].wanders);
    assert!(home.iter().all(|n| n.home_map == "home"));
    assert_eq!(npcs_for_map("control").len(), 15);
    assert_eq!(npcs_for_map("dev")[1].sprite, SpriteType::Sage);
    assert!(npcs_for_map("dev")[1].is_puzzler);
    assert!(npcs_for_map("reef").is_empty());
}

#[test]
fn wandering_stays_inside_the_tether() {
    assert_eq!(wander_from((5, 5), (5, 5), WANDER_RADIUS, Direction::Up), (MoveIntent::Move(Direction::Up), Some(Dir::Up)));
    assert_eq!(wander_from((8, 5), (5, 5), WANDER_RADIUS, Direction::Right), (MoveIntent::Stay, Some(Dir::Right)));
    assert_eq!(wander_from((8, 5), (5, 5), WANDER_RADIUS, Direction::Left), (MoveIntent::Move(Direction::Left), Some(Dir::Left)));
    assert_eq!(wander_from((0, 5), (0, 5), WANDER_RADIUS, Direction::Left), (MoveIntent::Stay, Some(Dir::Left)));
    let mut rng = SmallRng::seed_from_u64(7);
    let (intent, face) = roll_wander((5, 5), (5, 5), WANDER_RADIUS, &mut rng);
    assert!(matches!(intent, MoveIntent::Move(_)), "every step from home is within the tether");
    assert!(face.is_some());
}

#[test]
fn interaction_finds_who_is_faced() {
    let npcs = [(3, 2), (4, 3), (3, 2)];
    assert_eq!(get_interact_target(3, 3, Dir::Up, &npcs), Some(0));
    assert_eq!(get_interact_target(3, 3, Dir::Right, &npcs), Some(1));
    assert_eq!(get_interact_target(3, 3, Dir::Down, &npcs), None);
    assert_eq!(get_interact_target(3, 0, Dir::Up, &npcs), None);
    assert_eq!(
        get_interact_target_with_companion(3, 3, Dir::Up, &npcs, Some((3, 2))),
        Some(InteractTarget::Companion)
    );
    assert_eq!(
        get_interact_target_with_companion(3, 3, Dir::Up, &npcs, Some((9, 9))),
        Some(InteractTarget::Roster(0))
    );
    assert!(is_facing_sparky(3, 3, Dir::Left, 2, 3));
    assert!(!is_facing_sparky(0, 3, Dir::Left, 0, 3));
}

#[test]
fn a_spawn_spot_is_the_target_when_free() {
    let free = |_: usize, _: usize| false;
    assert_eq!(find_npc_spawn_spot(4, 4, 10, 10, free, free), (4, 4));
    let taken = |x: usize, y: usize| x == 4 && y == 4;
    let spot = find_npc_spawn_spot(4, 4, 10, 10, free, taken);
    let d = (spot.0 as i64 - 4).abs() + (spot.1 as i64 - 4).abs();
    assert_eq!(d, 1, "the nearest ring is tried first: {spot:?}");
    let all = |_: usize, _: usize| true;
    assert_eq!(find_npc_spawn_spot(4, 4, 10, 10, all, free), (4, 4), "nowhere free: stay on the target");
}

#[test]
fn npcs_make_small_talk() {
    let l = npc_line(NpcKind::Mommy, 0);
    assert_eq!(l[0].speaker, "Mommy");
    assert_eq!(l[0].text, "Hi sweetie! I'm so proud of you for exploring!");
    assert_eq!(npc_line(NpcKind::CtrlBand, 0)[0].text, "Hello there!");
    let mut rng = SmallRng::seed_from_u64(3);
    let picked = npc_dialogue_lines(NpcKind::Shopkeeper, &mut rng);
    assert_eq!(picked[0].speaker, "Bolt the Shopkeeper");
    assert!(picked[0].text == "Welcome to my shop! Everything costs Dum Dums!"
        || picked[0].text == "I've got the finest wares in all of Robot Village!");
}

#[test]
fn npc_ids_round_trip() {
    for &k in NpcKind::all() {
        assert_eq!(NpcKind::from_id(k.as_str()), Some(k));
    }
    assert_eq!(NpcKind::from_id("nobody"), None);
    assert!(NpcKind::CtrlStartQuest.is_dev_control());
    assert!(!NpcKind::Mommy.is_dev_control());
}
