use robot_buddy_game::pathfinding::{find_path, find_path_adjacent, is_adjacent};

/// Build a walkability grid from an ASCII map: '#' = wall, anything else
/// walkable. Rows are equal length.
fn grid(rows: &[&str]) -> (usize, usize, Vec<Vec<bool>>) {
    let h = rows.len();
    let w = rows[0].len();
    let walk: Vec<Vec<bool>> = rows
        .iter()
        .map(|row| row.chars().map(|ch| ch != '#').collect())
        .collect();
    (w, h, walk)
}

#[test]
fn straight_line_path_is_shortest() {
    let (w, h, g) = grid(&["......"]);
    let path = find_path((0, 0), (5, 0), w, h, |c, r| g[r][c]).unwrap();
    assert_eq!(path.len(), 5, "five steps to cross five tiles");
    assert_eq!(*path.last().unwrap(), (5, 0));
    let mut prev = (0usize, 0usize);
    for &step in &path {
        assert!(is_adjacent(prev, step));
        prev = step;
    }
}

#[test]
fn start_equals_goal_is_empty_path() {
    let (w, h, g) = grid(&["..", ".."]);
    assert_eq!(find_path((1, 1), (1, 1), w, h, |c, r| g[r][c]), Some(vec![]));
}

#[test]
fn routes_around_a_wall() {
    let (w, h, g) = grid(&[".#.", ".#.", "..."]);
    let path = find_path((0, 0), (2, 0), w, h, |c, r| g[r][c]).unwrap();
    assert_eq!(*path.last().unwrap(), (2, 0));
    assert!(path.len() > 2, "should route around, got {path:?}");
    for &(c, r) in &path {
        assert!(g[r][c], "path stepped on a wall at {c},{r}");
    }
}

#[test]
fn unreachable_goal_is_none() {
    let (w, h, g) = grid(&["..#..", "..#..", "..#.."]);
    assert_eq!(find_path((0, 0), (4, 0), w, h, |c, r| g[r][c]), None);
}

#[test]
fn goal_on_wall_is_none() {
    let (w, h, g) = grid(&["...", ".#.", "..."]);
    assert_eq!(find_path((0, 0), (1, 1), w, h, |c, r| g[r][c]), None);
}

#[test]
fn adjacent_path_stops_next_to_a_solid_target() {
    let (w, h, g) = grid(&["..#", "..."]);
    let path = find_path_adjacent((0, 0), (2, 0), w, h, |c, r| g[r][c]).unwrap();
    let end = *path.last().unwrap();
    assert!(is_adjacent(end, (2, 0)), "should end adjacent to the target, ended at {end:?}");
    assert!(g[end.1][end.0], "should stop on a walkable tile");
}

#[test]
fn already_adjacent_needs_no_steps() {
    let (w, h, g) = grid(&["..", ".."]);
    assert_eq!(find_path_adjacent((0, 0), (1, 0), w, h, |c, r| g[r][c]), Some(vec![]));
}

#[test]
fn detour_length_is_exactly_the_shortest() {
    // Around the wall: down two, across two, up two.
    let (w, h, g) = grid(&[".#.", ".#.", "..."]);
    let path = find_path((0, 0), (2, 0), w, h, |c, r| g[r][c]).unwrap();
    assert_eq!(path.len(), 6);
}

#[test]
fn goal_off_the_grid_is_none() {
    let (w, h, g) = grid(&["..", ".."]);
    assert_eq!(find_path((0, 0), (5, 5), w, h, |c, r| g[r][c]), None);
}

#[test]
fn adjacent_path_to_an_enclosed_target_is_none() {
    let (w, h, g) = grid(&["...#.", "..#.#", "...#."]);
    assert_eq!(find_path_adjacent((0, 0), (3, 1), w, h, |c, r| g[r][c]), None);
}

#[test]
fn adjacency_is_one_orthogonal_step() {
    assert!(is_adjacent((3, 3), (3, 4)));
    assert!(is_adjacent((3, 3), (2, 3)));
    assert!(!is_adjacent((3, 3), (4, 4)));
    assert!(!is_adjacent((3, 3), (3, 3)));
    assert!(!is_adjacent((0, 0), (0, 2)));
}

#[test]
fn ties_go_east_first_then_west_south_north() {
    let (w, h, g) = grid(&["..", ".."]);
    assert_eq!(find_path((0, 0), (1, 1), w, h, |c, r| g[r][c]), Some(vec![(1, 0), (1, 1)]));
    assert_eq!(find_path((1, 1), (0, 0), w, h, |c, r| g[r][c]), Some(vec![(0, 1), (0, 0)]));
    // With the eastward tile walled off, the walk heads south first.
    let (w2, h2, g2) = grid(&[".#.", "...", "..."]);
    assert_eq!(find_path((0, 0), (2, 2), w2, h2, |c, r| g2[r][c]), Some(vec![(0, 1), (1, 1), (2, 1), (2, 2)]));
}
