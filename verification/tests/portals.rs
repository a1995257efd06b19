use robot_buddy_game::game::portals::{plan_portal_trip, refusal_line, PortalTrip};
use robot_buddy_game::tilemap::{check_portal, Portal};

fn portal(map: &str, x: usize, y: usize) -> Portal {
    *check_portal(map, x, y).unwrap()
}

#[test]
fn the_reef_dive_charges_its_toll_once() {
    let dive = portal("overworld", 17, 15);
    match plan_portal_trip(&dive, 10, 5, false, false) {
        PortalTrip::Arrive { fuel, dum_dums, toll_paid, dest_map, dreaming } => {
            assert_eq!((fuel, dum_dums, toll_paid, dest_map, dreaming), (10, 2, true, "reef", false));
        }
        other => panic!("expected to dive, got {other:?}"),
    }
    match plan_portal_trip(&dive, 10, 0, true, false) {
        PortalTrip::Arrive { dum_dums, toll_paid, .. } => {
            assert_eq!((dum_dums, toll_paid), (0, false), "a paid toll is never charged again");
        }
        other => panic!("expected to dive, got {other:?}"),
    }
}

#[test]
fn a_short_toll_keeps_the_player_and_says_why() {
    let dive = portal("overworld", 17, 15);
    let trip = plan_portal_trip(&dive, 10, 2, false, false);
    assert!(matches!(trip, PortalTrip::TollShort { fuel: 10, cost: 3, short: 1 }));
    assert_eq!(
        refusal_line(&trip).unwrap(),
        "Ooh, a dive spot! The first splash in costs 3 Dum Dums. We need 1 more \u{2014} let's go find some, boss!"
    );
}

#[test]
fn rocket_jumps_burn_fuel_or_stay_grounded() {
    let mars = portal("space_hub", 11, 2);
    let grounded = plan_portal_trip(&mars, 2, 0, false, false);
    assert!(matches!(grounded, PortalTrip::OutOfFuel { needed: 3, have: 2 }));
    assert_eq!(
        refusal_line(&grounded).unwrap(),
        "Not enough fuel for that jump, boss! It needs 3 and we've got 2. Let's find Tank the fuel droid and do some math to top up!"
    );
    match plan_portal_trip(&mars, 10, 0, false, false) {
        PortalTrip::Arrive { fuel, dest_map, .. } => assert_eq!((fuel, dest_map), (7, "mars")),
        other => panic!("expected lift-off, got {other:?}"),
    }
    assert!(refusal_line(&plan_portal_trip(&mars, 10, 0, false, false)).is_none());
}

#[test]
fn the_dream_stands_in_for_the_overworld() {
    let into_dream = portal("overworld", 16, 14);
    match plan_portal_trip(&into_dream, 10, 0, false, false) {
        PortalTrip::Arrive { dest_map, dreaming, .. } => assert_eq!((dest_map, dreaming), ("dream", true)),
        other => panic!("{other:?}"),
    }
    let wake = portal("dream", 16, 14);
    match plan_portal_trip(&wake, 10, 0, false, true) {
        PortalTrip::Arrive { dest_map, dreaming, .. } => assert_eq!((dest_map, dreaming), ("overworld", false)),
        other => panic!("{other:?}"),
    }
    let lab_door = portal("lab", 5, 7);
    match plan_portal_trip(&lab_door, 10, 0, false, true) {
        PortalTrip::Arrive { dest_map, dreaming, .. } => assert_eq!((dest_map, dreaming), ("dream", true)),
        other => panic!("{other:?}"),
    }
    match plan_portal_trip(&lab_door, 10, 0, false, false) {
        PortalTrip::Arrive { dest_map, dreaming, .. } => assert_eq!((dest_map, dreaming), ("overworld", false)),
        other => panic!("{other:?}"),
    }
}
