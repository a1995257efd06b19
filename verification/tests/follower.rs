use robot_buddy_game::follower::Pathing;
use robot_buddy_game::movement::{Direction, MoveIntent};
use robot_buddy_game::sprites::Dir;

#[test]
fn empty_queue_stays() {
    let mut p = Pathing::new();
    let d = p.next_intent((5, 5), false, (10, 10));
    assert!(matches!(d.intent, MoveIntent::Stay));
    assert!(d.face.is_none());
}

#[test]
fn mid_step_stays() {
    let mut p = Pathing::new();
    p.record_player_pos(6, 5);
    let d = p.next_intent((5, 5), true, (6, 5));
    assert!(matches!(d.intent, MoveIntent::Stay));
}

#[test]
fn adjacent_clears_and_faces_player() {
    let mut p = Pathing::new();
    p.record_player_pos(10, 10);
    p.record_player_pos(11, 10);
    let d = p.next_intent((10, 10), false, (11, 10));
    assert!(matches!(d.intent, MoveIntent::Stay));
    assert_eq!(d.face, Some(Dir::Right));
    assert!(p.is_empty());
}

#[test]
fn moves_toward_queued_tile() {
    let mut p = Pathing::new();
    p.record_player_pos(6, 5);
    let d = p.next_intent((5, 5), false, (10, 10));
    assert!(matches!(d.intent, MoveIntent::Move(Direction::Right)));
    assert_eq!(d.face, Some(Dir::Right));
}

#[test]
fn skips_queue_entry_landing_on_player() {
    let mut p = Pathing::new();
    p.record_player_pos(5, 5);
    let d = p.next_intent((2, 5), false, (5, 5));
    assert!(matches!(d.intent, MoveIntent::Stay));
    assert!(p.is_empty(), "the landing-on-player entry should have been removed");
}

#[test]
fn on_move_granted_pops_queue() {
    let mut p = Pathing::new();
    p.record_player_pos(6, 5);
    p.record_player_pos(7, 5);
    assert_eq!(p.queue().len(), 2);
    p.on_move_granted();
    assert_eq!(p.queue().len(), 1);
    assert_eq!(p.queue()[0], (7, 5));
}

#[test]
fn recording_the_same_tile_twice_queues_it_once() {
    let mut p = Pathing::new();
    p.record_player_pos(4, 4);
    p.record_player_pos(4, 4);
    assert_eq!(*p.queue(), vec![(4, 4)]);
}

#[test]
fn a_denied_move_keeps_the_queue() {
    let mut p = Pathing::new();
    p.record_player_pos(6, 5);
    let _ = p.next_intent((5, 5), false, (10, 10));
    assert_eq!(*p.queue(), vec![(6, 5)], "only a granted move pops");
}

#[test]
fn clear_empties_the_queue() {
    let mut p = Pathing::new();
    p.record_player_pos(1, 1);
    p.clear();
    assert!(p.is_empty());
    p.on_move_granted();
    assert!(p.is_empty());
}

#[test]
fn stale_queue_head_steps_vertically() {
    let mut p = Pathing::new();
    p.record_player_pos(5, 3);
    let d = p.next_intent((5, 5), false, (9, 9));
    assert!(matches!(d.intent, MoveIntent::Move(Direction::Up)));
    assert_eq!(d.face, Some(Dir::Up));
}

#[test]
fn a_cloned_path_keeps_its_queue() {
    let mut p = Pathing::default();
    assert!(p.is_empty());
    p.record_player_pos(2, 2);
    p.record_player_pos(3, 2);
    p.record_player_pos(3, 2);
    let q = p.clone();
    assert_eq!(*q.queue(), vec![(2, 2), (3, 2)]);
}
