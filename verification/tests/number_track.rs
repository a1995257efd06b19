use robot_buddy_game::number_track::{track_for_map, STONE_SPACING};

#[test]
fn stones_are_evenly_spaced_with_the_clam_off_the_path() {
    for map_id in ["reef", "trench"] {
        let t = track_for_map(map_id).unwrap();
        for pair in t.tiles.windows(2) {
            let (a, b) = (pair[0], pair[1]);
            assert_eq!(a.1, b.1, "{map_id}: the path runs along one row");
            assert_eq!(
                b.0 - a.0,
                STONE_SPACING,
                "{map_id}: stones {a:?} and {b:?} must be a leap apart, not a step"
            );
        }
        assert!(
            t.index_of(t.clam).is_none(),
            "{map_id}: Shelly's perch must not sit on a stone (she'd block the launch)",
        );
        assert!(t.max_mark() >= 4, "{map_id}: a path needs room for a real trip");
    }
}

#[test]
fn the_gaps_between_stones_are_current() {
    let t = track_for_map("reef").unwrap();
    let gaps = t.current_tiles();
    assert_eq!(gaps.len(), t.tiles.len() - 1, "one gap between each pair of stones");
    assert!(gaps.contains(&(6, 13)), "the tile between stones 0 and 1: {gaps:?}");
    for g in &gaps {
        assert!(t.index_of(*g).is_none(), "a gap must never be a stone: {g:?}");
    }
}

#[test]
fn index_and_max_round_trip() {
    let t = track_for_map("reef").unwrap();
    assert_eq!(t.index_of((9, 13)), Some(2));
    assert_eq!(t.index_of((10, 13)), None, "the current between stones isn't a mark");
    assert_eq!(t.max_mark() as usize, t.tiles.len() - 1);
}

#[test]
fn the_deep_path_pays_better() {
    assert!(
        track_for_map("trench").unwrap().payout > track_for_map("reef").unwrap().payout,
        "diving to the trench should be worth the trip",
    );
}

#[test]
fn maps_without_a_track_return_none() {
    assert!(track_for_map("overworld").is_none());
}

#[test]
fn every_stone_reads_back_its_own_mark() {
    for map_id in ["reef", "trench"] {
        let t = track_for_map(map_id).unwrap();
        for (i, &tile) in t.tiles.iter().enumerate() {
            assert_eq!(t.index_of(tile), Some(i));
        }
    }
}

#[test]
fn reef_track_ids_and_marks() {
    let t = track_for_map("reef").unwrap();
    assert_eq!(t.id, "reef_path_1");
    assert_eq!(t.max_mark(), 12);
    assert_eq!(t.current_tiles().len(), 12);
}
