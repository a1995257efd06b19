//! The kid's own steps on the grid, apart from the move resolver: following
//! a tapped walk path one tile at a time, turning to face what was tapped on
//! arrival, and telling which entity the kid is leaning on.
use crate::movement::{Direction, MoveIntent};
use crate::npc::facing_of;
use crate::pathfinding::Tile;
use crate::sprites::Dir;
use vstd::prelude::*;

verus! {

/// `p` without the tiles at its front that are `at`.
pub open spec fn drop_leading(p: Seq<Tile>, at: Tile) -> Seq<Tile>
    decreases p.len(),
{
    if p.len() > 0 && p[0] == at {
        drop_leading(p.drop_first(), at)
    } else {
        p
    }
}

/// The direction of the one step from `at` onto `next`, if they are
/// orthogonal neighbours.
pub open spec fn step_dir(at: Tile, next: Tile) -> Option<Direction> {
    if next.0 == at.0 + 1 && next.1 == at.1 {
        Some(Direction::Right)
    } else if next.0 + 1 == at.0 && next.1 == at.1 {
        Some(Direction::Left)
    } else if next.1 == at.1 + 1 && next.0 == at.0 {
        Some(Direction::Down)
    } else if next.1 + 1 == at.1 && next.0 == at.0 {
        Some(Direction::Up)
    } else {
        None
    }
}

/// One frame of following walk path `p` from `at`: the path afterwards, the
/// move and the facing. Mid-step or with no path, nothing happens. Tiles
/// the kid already stands on are dropped from the front; then the kid steps
/// (and turns) toward the next tile, or, when that tile is not next door,
/// the path has lost track of the kid and is abandoned.
pub open spec fn path_step(at: Tile, moving: bool, p: Seq<Tile>) -> (Seq<Tile>, MoveIntent, Option<Dir>) {
    if moving || p.len() == 0 {
        (p, MoveIntent::Stay, None)
    } else {
        let q = drop_leading(p, at);
        if q.len() == 0 {
            (q, MoveIntent::Stay, None)
        } else {
            match step_dir(at, q[0]) {
                Some(d) => (q, MoveIntent::Move(d), Some(facing_of(d))),
                None => (Seq::empty(), MoveIntent::Stay, None),
            }
        }
    }
}

/// Take one frame's step along the walk path `path` for the kid standing at
/// `at` (`moving`: mid-step). Returns the move and the facing to turn to.
pub fn next_path_intent(at: Tile, moving: bool, path: &mut Vec<Tile>) -> (r: (MoveIntent, Option<Dir>))
    ensures
        (final(path)@, r.0, r.1) == path_step(at, moving, old(path)@),
{
    if moving || path.len() == 0 {
        return (MoveIntent::Stay, None);
    }
    loop
        invariant
            drop_leading(path@, at) == drop_leading(old(path)@, at),
        ensures
            drop_leading(path@, at) == drop_leading(old(path)@, at),
            path@.len() == 0 || path@[0] != at,
        decreases path@.len(),
    {
        if path.len() == 0 {
            break;
        }
        if path[0].0 != at.0 || path[0].1 != at.1 {
            break;
        }
        let ghost before = path@;
        path.remove(0);
        proof {
            assert(path@ =~= before.drop_first());
        }
    }
    proof {
        assert(drop_leading(path@, at) == path@);
    }
    if path.len() == 0 {
        return (MoveIntent::Stay, None);
    }
    let (nx, ny) = path[0];
    if nx > at.0 && nx - 1 == at.0 && ny == at.1 {
        (MoveIntent::Move(Direction::Right), Some(Dir::Right))
    } else if at.0 > nx && at.0 - 1 == nx && ny == at.1 {
        (MoveIntent::Move(Direction::Left), Some(Dir::Left))
    } else if ny > at.1 && ny - 1 == at.1 && nx == at.0 {
        (MoveIntent::Move(Direction::Down), Some(Dir::Down))
    } else if at.1 > ny && at.1 - 1 == ny && nx == at.0 {
        (MoveIntent::Move(Direction::Up), Some(Dir::Up))
    } else {
        path.clear();
        (MoveIntent::Stay, None)
    }
}

/// Which way to face on arriving at `at` next to the tapped `target`, so the
/// interaction fires on it; `None` when the target is not next door.
pub open spec fn arrival_facing_spec(at: Tile, target: Tile) -> Option<Dir> {
    if target.0 == at.0 + 1 && target.1 == at.1 {
        Some(Dir::Right)
    } else if target.0 + 1 == at.0 && target.1 == at.1 {
        Some(Dir::Left)
    } else if target.1 == at.1 + 1 && target.0 == at.0 {
        Some(Dir::Down)
    } else if target.1 + 1 == at.1 && target.0 == at.0 {
        Some(Dir::Up)
    } else {
        None
    }
}

/// The facing for an arrival next to a tapped target (then interact as if
/// the key was pressed); `None`: the target is not next door, nothing fires.
pub fn arrival_facing(at: Tile, target: Tile) -> (f: Option<Dir>)
    ensures
        f == arrival_facing_spec(at, target),
{
    if target.0 < usize::MAX && target.0 + 1 == at.0 && target.1 == at.1 {
        Some(Dir::Left)
    } else if at.0 < usize::MAX && target.0 == at.0 + 1 && target.1 == at.1 {
        Some(Dir::Right)
    } else if at.1 < usize::MAX && target.1 == at.1 + 1 && target.0 == at.0 {
        Some(Dir::Down)
    } else if target.1 < usize::MAX && target.1 + 1 == at.1 && target.0 == at.0 {
        Some(Dir::Up)
    } else {
        None
    }
}

/// Who stands where the kid is leaning.
#[derive(Clone, Copy, PartialEq, Eq, Debug, Structural)]
pub enum Pressed {
    Sparky,
    Companion,
    /// The NPC at this index of the roster.
    Npc(usize),
}

/// The tile one step from `at` in direction `d`, if it is on the grid's
/// non-negative side.
pub open spec fn step_target(at: Tile, d: Direction) -> Option<Tile> {
    match d {
        Direction::Up => if at.1 == 0 {
            None
        } else {
            Some((at.0, (at.1 - 1) as usize))
        },
        Direction::Down => if at.1 == usize::MAX {
            None
        } else {
            Some((at.0, (at.1 + 1) as usize))
        },
        Direction::Left => if at.0 == 0 {
            None
        } else {
            Some(((at.0 - 1) as usize, at.1))
        },
        Direction::Right => if at.0 == usize::MAX {
            None
        } else {
            Some(((at.0 + 1) as usize, at.1))
        },
    }
}

/// The first roster index standing on `t`, if any.
pub open spec fn first_on(npcs: Seq<Tile>, t: Tile) -> Option<usize>
    decreases npcs.len(),
{
    if npcs.len() == 0 {
        None
    } else {
        match first_on(npcs.drop_last(), t) {
            Some(i) => Some(i),
            None => if npcs.last() == t {
                Some((npcs.len() - 1) as usize)
            } else {
                None
            },
        }
    }
}

/// Whom the kid leans on when moving by `intent` from `at`: Sparky (when
/// here, at `sparky`) first, then the companion, then the first NPC of the
/// roster on that tile; nobody while standing still.
pub open spec fn pressed_spec(
    at: Tile,
    intent: MoveIntent,
    sparky: Option<Tile>,
    companion: Option<Tile>,
    npcs: Seq<Tile>,
) -> Option<Pressed> {
    match intent {
        MoveIntent::Stay => None,
        MoveIntent::Move(d) => match step_target(at, d) {
            None => None,
            Some(t) => if sparky == Some(t) {
                Some(Pressed::Sparky)
            } else if companion == Some(t) {
                Some(Pressed::Companion)
            } else {
                match first_on(npcs, t) {
                    Some(i) => Some(Pressed::Npc(i)),
                    None => None,
                }
            },
        },
    }
}

fn first_index_on(npcs: &[Tile], t: Tile) -> (r: Option<usize>)
    ensures
        r == first_on(npcs@, t),
{
    let mut i: usize = 0;
    while i < npcs.len()
        invariant
            0 <= i <= npcs@.len(),
            first_on(npcs@.subrange(0, i as int), t) is None,
        decreases npcs@.len() - i,
    {
        proof {
            assert(npcs@.subrange(0, i + 1).drop_last() =~= npcs@.subrange(0, i as int));
        }
        if npcs[i].0 == t.0 && npcs[i].1 == t.1 {
            proof {
                lemma_first_on_prefix(npcs@, t, i as int);
            }
            return Some(i);
        }
        i = i + 1;
    }
    proof {
        assert(npcs@.subrange(0, i as int) =~= npcs@);
    }
    None
}

/// When no earlier tile is `t` but tile `i` is, the first one on `t` is `i`.
proof fn lemma_first_on_prefix(npcs: Seq<Tile>, t: Tile, i: int)
    requires
        0 <= i < npcs.len(),
        first_on(npcs.subrange(0, i), t) is None,
        npcs[i] == t,
    ensures
        first_on(npcs, t) == Some(i as usize),
    decreases npcs.len(),
{
    if npcs.len() == i + 1 {
        assert(npcs.drop_last() =~= npcs.subrange(0, i));
    } else {
        assert(npcs.drop_last().subrange(0, i) =~= npcs.subrange(0, i));
        lemma_first_on_prefix(npcs.drop_last(), t, i);
    }
}

/// Tell whom the kid leans on this frame; pressure builds on that one alone.
pub fn pressed_target(
    at: Tile,
    intent: MoveIntent,
    sparky: Option<Tile>,
    companion: Option<Tile>,
    npcs: &[Tile],
) -> (p: Option<Pressed>)
    ensures
        p == pressed_spec(at, intent, sparky, companion, npcs@),
{
    let d = match intent {
        MoveIntent::Stay => {
            return None;
        },
        MoveIntent::Move(d) => d,
    };
    let t: Tile = match d {
        Direction::Up => {
            if at.1 == 0 {
                return None;
            }
            (at.0, at.1 - 1)
        },
        Direction::Down => {
            if at.1 == usize::MAX {
                return None;
            }
            (at.0, at.1 + 1)
        },
        Direction::Left => {
            if at.0 == 0 {
                return None;
            }
            (at.0 - 1, at.1)
        },
        Direction::Right => {
            if at.0 == usize::MAX {
                return None;
            }
            (at.0 + 1, at.1)
        },
    };
    if let Some(s) = sparky {
        if s.0 == t.0 && s.1 == t.1 {
            return Some(Pressed::Sparky);
        }
    }
    if let Some(c) = companion {
        if c.0 == t.0 && c.1 == t.1 {
            return Some(Pressed::Companion);
        }
    }
    match first_index_on(npcs, t) {
        Some(i) => Some(Pressed::Npc(i)),
        None => None,
    }
}

} // verus!
