use robot_buddy_game::game::walk::{arrival_facing, next_path_intent, pressed_target, Pressed};
use robot_buddy_game::movement::{Direction, MoveIntent};
use robot_buddy_game::sprites::Dir;

#[test]
fn a_walk_path_is_followed_one_tile_at_a_time() {
    let mut path = vec![(2, 2), (3, 2), (3, 3)];
    assert_eq!(next_path_intent((2, 2), false, &mut path), (MoveIntent::Move(Direction::Right), Some(Dir::Right)));
    assert_eq!(path, vec![(3, 2), (3, 3)], "the tile stood on is dropped, the next kept until reached");
    assert_eq!(next_path_intent((3, 2), true, &mut path), (MoveIntent::Stay, None), "mid-step nothing happens");
    assert_eq!(next_path_intent((3, 2), false, &mut path), (MoveIntent::Move(Direction::Down), Some(Dir::Down)));
    assert_eq!(path, vec![(3, 3)]);
    assert_eq!(next_path_intent((3, 3), false, &mut path), (MoveIntent::Stay, None));
    assert!(path.is_empty());
}

#[test]
fn a_path_that_lost_the_kid_is_abandoned() {
    let mut path = vec![(7, 7), (7, 8)];
    assert_eq!(next_path_intent((2, 2), false, &mut path), (MoveIntent::Stay, None));
    assert!(path.is_empty());
    let mut up = vec![(4, 3)];
    assert_eq!(next_path_intent((4, 4), false, &mut up), (MoveIntent::Move(Direction::Up), Some(Dir::Up)));
    let mut left = vec![(3, 4)];
    assert_eq!(next_path_intent((4, 4), false, &mut left), (MoveIntent::Move(Direction::Left), Some(Dir::Left)));
}

#[test]
fn arriving_next_to_the_tapped_target_faces_it() {
    assert_eq!(arrival_facing((4, 4), (5, 4)), Some(Dir::Right));
    assert_eq!(arrival_facing((4, 4), (3, 4)), Some(Dir::Left));
    assert_eq!(arrival_facing((4, 4), (4, 5)), Some(Dir::Down));
    assert_eq!(arrival_facing((4, 4), (4, 3)), Some(Dir::Up));
    assert_eq!(arrival_facing((4, 4), (6, 4)), None);
    assert_eq!(arrival_facing((4, 4), (5, 5)), None);
}

#[test]
fn leaning_picks_sparky_then_the_companion_then_the_first_npc() {
    let npcs = [(9, 9), (5, 4), (5, 4)];
    let right = MoveIntent::Move(Direction::Right);
    assert_eq!(pressed_target((4, 4), right, Some((5, 4)), Some((5, 4)), &npcs), Some(Pressed::Sparky));
    assert_eq!(pressed_target((4, 4), right, None, Some((5, 4)), &npcs), Some(Pressed::Companion));
    assert_eq!(pressed_target((4, 4), right, Some((1, 1)), None, &npcs), Some(Pressed::Npc(1)));
    assert_eq!(pressed_target((4, 4), MoveIntent::Move(Direction::Up), None, None, &npcs), None);
    assert_eq!(pressed_target((4, 4), MoveIntent::Stay, Some((5, 4)), None, &npcs), None);
    assert_eq!(pressed_target((0, 0), MoveIntent::Move(Direction::Left), Some((0, 0)), None, &npcs), None);
}
