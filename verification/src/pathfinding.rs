//! Grid pathfinding for tap-to-move.
//!
//! The core is a 4-directional breadth-first search over a `width`×`height`
//! tile grid, parameterized by a walkability predicate so it works without a
//! `Map`. The contracts state that every returned path is a legal walk (one
//! orthogonal step at a time, over in-grid walkable tiles), that no legal
//! walk to the same destination is shorter, and which of the shortest walks
//! is returned: the first in dictionary order of step directions.
use std::collections::VecDeque;
use vstd::prelude::*;

verus! {

/// A tile coordinate: (column, row).
pub type Tile = (usize, usize);

// ─── Specification ──────────────────────────────────────

/// `t` lies inside a `width`×`height` grid.
pub open spec fn in_grid(t: Tile, width: usize, height: usize) -> bool {
    t.0 < width && t.1 < height
}

/// Absolute difference of two coordinates, as an integer.
pub open spec fn coord_gap(a: usize, b: usize) -> int {
    if a >= b {
        a - b
    } else {
        b - a
    }
}

/// `a` and `b` are one orthogonal step apart.
pub open spec fn adjacent(a: Tile, b: Tile) -> bool {
    coord_gap(a.0, b.0) + coord_gap(a.1, b.1) == 1
}

/// What the walkability predicate reports for `(c, r)`.
pub open spec fn walkable<F: Fn(usize, usize) -> bool>(f: F, c: usize, r: usize) -> bool {
    forall|b: bool| call_ensures(f, (c, r), b) ==> b
}

/// The predicate was asked about `t` and answered that it is walkable: a
/// caller whose predicate promises its answers learns from this what the
/// tile is.
pub open spec fn answered_walkable<F: Fn(usize, usize) -> bool>(f: F, t: Tile) -> bool {
    call_ensures(f, (t.0, t.1), true)
}

/// The predicate may be asked about every tile of the grid.
pub open spec fn callable_on_grid<F: Fn(usize, usize) -> bool>(
    f: F,
    width: usize,
    height: usize,
) -> bool {
    forall|c: usize, r: usize| c < width && r < height ==> #[trigger] call_requires(f, (c, r))
}

/// The predicate gives one answer per tile.
pub open spec fn deterministic<F: Fn(usize, usize) -> bool>(f: F) -> bool {
    forall|c: usize, r: usize, b1: bool, b2: bool|
        #![trigger call_ensures(f, (c, r), b1), call_ensures(f, (c, r), b2)]
        call_ensures(f, (c, r), b1) && call_ensures(f, (c, r), b2) ==> b1 == b2
}

/// One step from `from` onto `to` is legal: `to` is in the grid, walkable,
/// and orthogonally adjacent to `from`.
pub open spec fn step_ok<F: Fn(usize, usize) -> bool>(
    f: F,
    width: usize,
    height: usize,
    from: Tile,
    to: Tile,
) -> bool {
    in_grid(to, width, height) && walkable(f, to.0, to.1) && adjacent(from, to)
}

/// The tile a walk stands on just before its `i`-th step.
pub open spec fn walk_prev(start: Tile, p: Seq<Tile>, i: int) -> Tile {
    if i == 0 {
        start
    } else {
        p[i - 1]
    }
}

/// The tile a walk ends on (the start itself for an empty walk).
pub open spec fn walk_end(start: Tile, p: Seq<Tile>) -> Tile {
    if p.len() == 0 {
        start
    } else {
        p.last()
    }
}

/// `p` lists the tiles entered, in order, by a legal walk from `start`.
pub open spec fn is_walk<F: Fn(usize, usize) -> bool>(
    f: F,
    width: usize,
    height: usize,
    start: Tile,
    p: Seq<Tile>,
) -> bool {
    forall|i: int|
        0 <= i < p.len() ==> #[trigger] step_ok(f, width, height, walk_prev(start, p, i), p[i])
}

/// `p` is a non-empty legal walk from `start` that ends on `goal`.
pub open spec fn walk_to<F: Fn(usize, usize) -> bool>(
    f: F,
    width: usize,
    height: usize,
    start: Tile,
    p: Seq<Tile>,
    goal: Tile,
) -> bool {
    is_walk(f, width, height, start, p) && p.len() > 0 && p.last() == goal
}

/// `p` is a non-empty legal walk from `start` that ends next to `goal`.
pub open spec fn walk_beside<F: Fn(usize, usize) -> bool>(
    f: F,
    width: usize,
    height: usize,
    start: Tile,
    p: Seq<Tile>,
    goal: Tile,
) -> bool {
    is_walk(f, width, height, start, p) && p.len() > 0 && adjacent(p.last(), goal)
}

/// The direction of the step from `from` onto the adjacent `to`, numbered in
/// the order the search tries them: east 0, west 1, south 2, north 3.
pub open spec fn step_rank(from: Tile, to: Tile) -> int {
    if to.0 == from.0 + 1 {
        0
    } else if to.0 + 1 == from.0 {
        1
    } else if to.1 == from.1 + 1 {
        2
    } else {
        3
    }
}

/// The directions a walk from `start` takes, step by step.
pub open spec fn walk_dirs(start: Tile, p: Seq<Tile>) -> Seq<int> {
    Seq::new(p.len(), |i: int| step_rank(walk_prev(start, p, i), p[i]))
}

/// `a` comes strictly before `b` in dictionary order (same length): they
/// agree up to some step, where `a`'s direction is the lower.
pub open spec fn lex_lt(a: Seq<int>, b: Seq<int>) -> bool {
    a.len() == b.len() && exists|k: int|
        0 <= k < a.len() && #[trigger] a[k] < b[k] && forall|i: int| 0 <= i < k ==> a[i] == b[i]
}

/// `a` comes no later than `b` in dictionary order.
pub open spec fn lex_le(a: Seq<int>, b: Seq<int>) -> bool {
    a == b || lex_lt(a, b)
}

// ─── Public API ─────────────────────────────────────────

/// Breadth-first shortest path from `start` to `goal` over a `width`×`height`
/// grid, moving only up/down/left/right onto tiles where `is_walkable` is true.
///
/// Returns the steps AFTER `start` up to and including `goal` (so an empty Vec
/// means start == goal). `None` if `goal` is unreachable or not walkable.
/// Among equally short walks the one taken is the first in dictionary order
/// of its steps' directions (east, west, south, north).
pub fn find_path<F: Fn(usize, usize) -> bool>(
    start: Tile,
    goal: Tile,
    width: usize,
    height: usize,
    is_walkable: F,
) -> (res: Option<Vec<Tile>>)
    requires
        callable_on_grid(is_walkable, width, height),
        deterministic(is_walkable),
        width * height <= usize::MAX,
    ensures
        res is Some <==> (in_grid(goal, width, height) && walkable(is_walkable, goal.0, goal.1) && (
        start == goal || (in_grid(start, width, height) && exists|q: Seq<Tile>|
            walk_to(is_walkable, width, height, start, q, goal)))),
        res matches Some(p) ==> {
            &&& is_walk(is_walkable, width, height, start, p@)
            &&& (p@.len() == 0 <==> start == goal)
            &&& walk_end(start, p@) == goal
            &&& forall|q: Seq<Tile>|
                walk_to(is_walkable, width, height, start, q, goal) ==> p@.len() <= q.len()
            &&& forall|q: Seq<Tile>|
                walk_to(is_walkable, width, height, start, q, goal) && q.len() == p@.len()
                    ==> lex_le(walk_dirs(start, p@), walk_dirs(start, q))
            &&& forall|i: int|
                0 <= i < p@.len() ==> answered_walkable(is_walkable, #[trigger] p@[i])
        },
        call_ensures(is_walkable, (goal.0, goal.1), false) ==> res is None,
{
    if !in_bounds(goal, width, height) {
        return None;
    }
    let goal_ok = is_walkable(goal.0, goal.1);
    proof {
        lemma_walkable_result(is_walkable, goal.0, goal.1, goal_ok);
    }
    if !goal_ok {
        return None;
    }
    if start.0 == goal.0 && start.1 == goal.1 {
        let empty: Vec<Tile> = Vec::new();
        proof {
            assert forall|q: Seq<Tile>| walk_to(is_walkable, width, height, start, q, goal) implies 0
                <= q.len() by {}
        }
        return Some(empty);
    }
    let mut targets: Vec<Tile> = Vec::new();
    targets.push(goal);
    let res = bfs(start, &targets, width, height, &is_walkable);
    proof {
        assert(targets@ =~= seq![goal]);
        match &res {
            Some(p) => {
                assert(walk_to(is_walkable, width, height, start, p@, goal));
                assert forall|q: Seq<Tile>|
                    walk_to(is_walkable, width, height, start, q, goal) implies p@.len()
                    <= q.len() by {
                    assert(targets@[0] == q.last());
                }
                assert forall|q: Seq<Tile>|
                    walk_to(is_walkable, width, height, start, q, goal) && q.len() == p@.len()
                        implies lex_le(walk_dirs(start, p@), walk_dirs(start, q)) by {
                    assert(targets@[0] == q.last());
                }
            },
            None => {
                if in_grid(start, width, height) {
                    assert forall|q: Seq<Tile>|
                        !walk_to(is_walkable, width, height, start, q, goal) by {
                        if walk_to(is_walkable, width, height, start, q, goal) {
                            assert(targets@[0] == q.last());
                        }
                    }
                }
            },
        }
    }
    res
}

/// Path to the nearest tile ADJACENT to `goal` (used to walk up to an NPC or a
/// solid object you can't stand on). Returns the steps after `start`; an empty
/// Vec means `start` is already adjacent to `goal`. `None` if no adjacent tile
/// is reachable. Ties are broken as in `find_path`.
pub fn find_path_adjacent<F: Fn(usize, usize) -> bool>(
    start: Tile,
    goal: Tile,
    width: usize,
    height: usize,
    is_walkable: F,
) -> (res: Option<Vec<Tile>>)
    requires
        callable_on_grid(is_walkable, width, height),
        deterministic(is_walkable),
        width * height <= usize::MAX,
    ensures
        res is Some <==> (adjacent(start, goal) || (in_grid(start, width, height) && exists|
            q: Seq<Tile>,
        | walk_beside(is_walkable, width, height, start, q, goal))),
        res matches Some(p) ==> {
            &&& is_walk(is_walkable, width, height, start, p@)
            &&& (p@.len() == 0 <==> adjacent(start, goal))
            &&& adjacent(walk_end(start, p@), goal)
            &&& forall|q: Seq<Tile>|
                walk_beside(is_walkable, width, height, start, q, goal) ==> p@.len() <= q.len()
            &&& forall|q: Seq<Tile>|
                walk_beside(is_walkable, width, height, start, q, goal) && q.len() == p@.len()
                    ==> lex_le(walk_dirs(start, p@), walk_dirs(start, q))
            &&& forall|i: int|
                0 <= i < p@.len() ==> answered_walkable(is_walkable, #[trigger] p@[i])
        },
{
    if is_adjacent(start, goal) {
        let empty: Vec<Tile> = Vec::new();
        return Some(empty);
    }
    let cands = neighbors(goal, width, height);
    let mut goal_neighbors: Vec<Tile> = Vec::new();
    let mut k: usize = 0;
    while k < cands.len()
        invariant
            0 <= k <= cands.len(),
            callable_on_grid(is_walkable, width, height),
            deterministic(is_walkable),
            forall|i: int| 0 <= i < cands@.len() ==> adjacent(#[trigger] cands@[i], goal),
            forall|t: Tile|
                in_grid(t, width, height) && adjacent(t, goal) ==> cands@.contains(t),
            forall|i: int|
                0 <= i < goal_neighbors@.len() ==> in_grid(
                    #[trigger] goal_neighbors@[i],
                    width,
                    height,
                ) && walkable(is_walkable, goal_neighbors@[i].0, goal_neighbors@[i].1) && adjacent(
                    goal_neighbors@[i],
                    goal,
                ),
            forall|i: int|
                0 <= i < k ==> (in_grid(#[trigger] cands@[i], width, height) && walkable(
                    is_walkable,
                    cands@[i].0,
                    cands@[i].1,
                )) ==> goal_neighbors@.contains(cands@[i]),
        decreases cands.len() - k,
    {
        let t = cands[k];
        if in_bounds(t, width, height) {
            let ok = is_walkable(t.0, t.1);
            proof {
                lemma_walkable_result(is_walkable, t.0, t.1, ok);
            }
            if ok {
                let ghost old_gn = goal_neighbors@;
                goal_neighbors.push(t);
                proof {
                    broadcast use vstd::seq_lib::group_seq_properties;

                    assert(goal_neighbors@ == old_gn.push(t));
                    assert(goal_neighbors@[goal_neighbors@.len() - 1] == t);
                    assert forall|i: int|
                        0 <= i < k + 1 && (in_grid(#[trigger] cands@[i], width, height) && walkable(
                            is_walkable,
                            cands@[i].0,
                            cands@[i].1,
                        )) implies goal_neighbors@.contains(cands@[i]) by {
                        if i < k {
                            assert(old_gn.contains(cands@[i]));
                        } else {
                            assert(goal_neighbors@[goal_neighbors@.len() - 1] == cands@[i]);
                        }
                    }
                }
            }
        }
        k = k + 1;
    }
    proof {
        assert forall|t: Tile| goal_neighbors@.contains(t) implies in_grid(t, width, height)
            && walkable(is_walkable, t.0, t.1) && adjacent(t, goal) by {
            let i = choose|i: int| 0 <= i < goal_neighbors@.len() && goal_neighbors@[i] == t;
            assert(in_grid(goal_neighbors@[i], width, height));
        }
        // A walk ends beside the goal exactly when it ends on one of the
        // walkable in-grid neighbours collected above.
        assert forall|q: Seq<Tile>| #[trigger]
            is_walk(is_walkable, width, height, start, q) && q.len() > 0 implies (
            goal_neighbors@.contains(q.last()) <==> adjacent(q.last(), goal)) by {
            assert(step_ok(is_walkable, width, height, walk_prev(start, q, q.len() - 1), q[q.len() - 1]));
            if adjacent(q.last(), goal) {
                assert(cands@.contains(q.last()));
                let i = choose|i: int| 0 <= i < cands@.len() && cands@[i] == q.last();
                assert(in_grid(cands@[i], width, height));
            }
        }
        assert(!goal_neighbors@.contains(start));
    }
    if goal_neighbors.len() == 0 {
        proof {
            if in_grid(start, width, height) {
                assert forall|q: Seq<Tile>|
                    !walk_beside(is_walkable, width, height, start, q, goal) by {
                    if walk_beside(is_walkable, width, height, start, q, goal) {
                        assert(goal_neighbors@.contains(q.last()));
                    }
                }
            }
        }
        return None;
    }
    let res = bfs(start, &goal_neighbors, width, height, &is_walkable);
    proof {
        match &res {
            Some(p) => {
                assert(walk_beside(is_walkable, width, height, start, p@, goal));
                assert forall|q: Seq<Tile>|
                    walk_beside(is_walkable, width, height, start, q, goal) implies p@.len()
                    <= q.len() by {
                    assert(goal_neighbors@.contains(q.last()));
                }
                assert forall|q: Seq<Tile>|
                    walk_beside(is_walkable, width, height, start, q, goal) && q.len() == p@.len()
                        implies lex_le(walk_dirs(start, p@), walk_dirs(start, q)) by {
                    assert(goal_neighbors@.contains(q.last()));
                }
            },
            None => {
                if in_grid(start, width, height) {
                    assert forall|q: Seq<Tile>|
                        !walk_beside(is_walkable, width, height, start, q, goal) by {
                        if walk_beside(is_walkable, width, height, start, q, goal) {
                            assert(goal_neighbors@.contains(q.last()));
                        }
                    }
                }
            },
        }
    }
    res
}

/// True iff `a` and `b` are one orthogonal step apart.
pub fn is_adjacent(a: Tile, b: Tile) -> (res: bool)
    ensures
        res == adjacent(a, b),
{
    let dc = if a.0 >= b.0 {
        a.0 - b.0
    } else {
        b.0 - a.0
    };
    let dr = if a.1 >= b.1 {
        a.1 - b.1
    } else {
        b.1 - a.1
    };
    (dc == 1 && dr == 0) || (dc == 0 && dr == 1)
}

// ─── Internals ──────────────────────────────────────────

// ─── Dictionary order on directions ─────────────────────

proof fn lemma_lex_push(a: Seq<int>, b: Seq<int>, x: int, y: int)
    ensures
        lex_lt(a, b) ==> lex_lt(a.push(x), b.push(y)),
        a == b && x < y ==> lex_lt(a.push(x), b.push(y)),
        lex_le(a, b) && x == y ==> lex_le(a.push(x), b.push(y)),
{
    if lex_lt(a, b) {
        let k = choose|k: int|
            0 <= k < a.len() && #[trigger] a[k] < b[k] && forall|i: int| 0 <= i < k ==> a[i] == b[i];
        assert(a.push(x)[k] < b.push(y)[k]);
        assert(forall|i: int| 0 <= i < k ==> a.push(x)[i] == b.push(y)[i]);
    }
    if a == b && x < y {
        let k = a.len() as int;
        assert(a.push(x)[k] < b.push(y)[k]);
        assert(forall|i: int| 0 <= i < k ==> a.push(x)[i] == b.push(y)[i]);
    }
    if a == b && x == y {
        assert(a.push(x) =~= b.push(y));
    }
}

proof fn lemma_lex_trans(a: Seq<int>, b: Seq<int>, c: Seq<int>)
    ensures
        lex_lt(a, b) && lex_le(b, c) ==> lex_lt(a, c),
        lex_le(a, b) && lex_lt(b, c) ==> lex_lt(a, c),
        lex_le(a, b) && lex_le(b, c) ==> lex_le(a, c),
{
    if lex_lt(a, b) && lex_lt(b, c) {
        let k1 = choose|k: int|
            0 <= k < a.len() && #[trigger] a[k] < b[k] && forall|i: int| 0 <= i < k ==> a[i] == b[i];
        let k2 = choose|k: int|
            0 <= k < b.len() && #[trigger] b[k] < c[k] && forall|i: int| 0 <= i < k ==> b[i] == c[i];
        let k = if k1 < k2 {
            k1
        } else {
            k2
        };
        assert(a[k] < c[k]);
        assert(forall|i: int| 0 <= i < k ==> a[i] == c[i]);
    }
}

proof fn lemma_walk_dirs_push(start: Tile, p: Seq<Tile>, t: Tile)
    ensures
        walk_dirs(start, p.push(t)) == walk_dirs(start, p).push(step_rank(walk_end(start, p), t)),
{
    let q = p.push(t);
    assert forall|i: int| 0 <= i < q.len() implies walk_prev(start, q, i) == (if i < p.len() {
        walk_prev(start, p, i)
    } else {
        walk_end(start, p)
    }) by {}
    assert(walk_dirs(start, q) =~= walk_dirs(start, p).push(step_rank(walk_end(start, p), t)));
}

fn in_bounds(t: Tile, width: usize, height: usize) -> (res: bool)
    ensures
        res == in_grid(t, width, height),
{
    t.0 < width && t.1 < height
}

/// The orthogonal neighbours of `t` that a grid of this size could hold:
/// right, left, down, up, in that order.
fn neighbors(t: Tile, width: usize, height: usize) -> (out: Vec<Tile>)
    ensures
        out@.len() <= 4,
        forall|i: int| 0 <= i < out@.len() ==> adjacent(#[trigger] out@[i], t),
        in_grid(t, width, height) ==> forall|i: int|
            0 <= i < out@.len() ==> in_grid(#[trigger] out@[i], width, height),
        forall|x: Tile| in_grid(x, width, height) && adjacent(x, t) ==> out@.contains(x),
        forall|i: int, j: int|
            0 <= i < j < out@.len() ==> step_rank(t, #[trigger] out@[i]) < step_rank(t, #[trigger] out@[j]),
{
    let (c, r) = t;
    let mut out: Vec<Tile> = Vec::new();
    let ghost mut i_right: int = -1;
    let ghost mut i_left: int = -1;
    let ghost mut i_down: int = -1;
    let ghost mut i_up: int = -1;
    if c < width && c + 1 < width {
        out.push((c + 1, r));
        proof {
            i_right = out@.len() - 1;
        }
    }
    if c > 0 {
        out.push((c - 1, r));
        proof {
            i_left = out@.len() - 1;
        }
    }
    if r < height && r + 1 < height {
        out.push((c, r + 1));
        proof {
            i_down = out@.len() - 1;
        }
    }
    if r > 0 {
        out.push((c, r - 1));
        proof {
            i_up = out@.len() - 1;
        }
    }
    proof {
        assert(i_right >= 0 ==> out@[i_right] == ((c + 1) as usize, r));
        assert(i_left >= 0 ==> out@[i_left] == ((c - 1) as usize, r));
        assert(i_down >= 0 ==> out@[i_down] == (c, (r + 1) as usize));
        assert(i_up >= 0 ==> out@[i_up] == (c, (r - 1) as usize));
        assert forall|x: Tile| in_grid(x, width, height) && adjacent(x, t) implies out@.contains(
            x,
        ) by {
            if x.0 == c + 1 {
                assert(out@[i_right] == x);
            } else if x.0 + 1 == c {
                assert(out@[i_left] == x);
            } else if x.1 == r + 1 {
                assert(out@[i_down] == x);
            } else {
                assert(out@[i_up] == x);
            }
        }
    }
    out
}

/// Flat index of a tile in a row-major `width`-wide grid.
pub open spec fn cell(t: Tile, width: usize) -> int {
    t.1 * width + t.0
}

proof fn lemma_cell_bounds(t: Tile, width: usize, height: usize)
    requires
        in_grid(t, width, height),
    ensures
        0 <= cell(t, width) < width * height,
{
    let (c, r) = t;
    assert(r * width + c < width * height) by (nonlinear_arith)
        requires
            c < width,
            r < height,
    {
        assert(r * width + c < r * width + width);
        assert(r * width + width == (r + 1) * width);
        assert((r + 1) * width <= height * width);
    }
    assert(0 <= r * width) by (nonlinear_arith);
}

proof fn lemma_cell_injective(a: Tile, b: Tile, width: usize, height: usize)
    requires
        in_grid(a, width, height),
        in_grid(b, width, height),
        cell(a, width) == cell(b, width),
    ensures
        a == b,
{
    let (ac, ar) = a;
    let (bc, br) = b;
    if ar < br {
        assert(ar * width + ac < br * width + bc) by (nonlinear_arith)
            requires
                ar < br,
                ac < width,
        {
            assert(ar * width + width == (ar + 1) * width);
            assert((ar + 1) * width <= br * width);
        }
    } else if br < ar {
        assert(br * width + bc < ar * width + ac) by (nonlinear_arith)
            requires
                br < ar,
                bc < width,
        {
            assert(br * width + width == (br + 1) * width);
            assert((br + 1) * width <= ar * width);
        }
    }
}

proof fn lemma_walkable_result<F: Fn(usize, usize) -> bool>(f: F, c: usize, r: usize, b: bool)
    requires
        deterministic(f),
        call_ensures(f, (c, r), b),
    ensures
        b == walkable(f, c, r),
{
    if b {
        assert forall|b2: bool| call_ensures(f, (c, r), b2) implies b2 by {}
    }
}

/// Ghost record of a breadth-first search in progress. `hist` is every tile
/// ever queued, in order; the first `head` of them have been expanded. The
/// other fields are indexed by `cell`.
pub struct Search {
    pub visited: Seq<bool>,
    pub came: Seq<Option<Tile>>,
    pub dist: Seq<nat>,
    pub pos: Seq<int>,
    pub hist: Seq<Tile>,
    pub head: int,
}

/// Sizes and the fixed facts about the start tile.
spec fn inv_shape(width: usize, height: usize, start: Tile, s: Search) -> bool {
    &&& s.visited.len() == width * height
    &&& s.came.len() == width * height
    &&& s.dist.len() == width * height
    &&& s.pos.len() == width * height
    &&& in_grid(start, width, height)
    &&& s.hist.len() > 0
    &&& s.hist[0] == start
    &&& s.dist[cell(start, width)] == 0
    &&& 0 <= s.head <= s.hist.len()
}

/// Every queued tile is a discovered grid tile that knows its queue position.
#[verifier::opaque]
spec fn inv_hist(width: usize, height: usize, s: Search) -> bool {
    forall|i: int|
        #![trigger s.hist[i]]
        0 <= i < s.hist.len() ==> in_grid(s.hist[i], width, height) && s.visited[cell(
            s.hist[i],
            width,
        )] && s.pos[cell(s.hist[i], width)] == i
}

/// Every discovered grid tile was queued.
#[verifier::opaque]
spec fn inv_pos(width: usize, height: usize, s: Search) -> bool {
    forall|t: Tile|
        #![trigger s.visited[cell(t, width)]]
        in_grid(t, width, height) && s.visited[cell(t, width)] ==> 0 <= s.pos[cell(t, width)]
            < s.hist.len() && s.hist[s.pos[cell(t, width)]] == t
}

/// Distances never decrease along the queue.
#[verifier::opaque]
spec fn inv_mono(width: usize, s: Search) -> bool {
    forall|i: int, j: int|
        #![trigger s.hist[i], s.hist[j]]
        0 <= i <= j < s.hist.len() ==> s.dist[cell(s.hist[i], width)] <= s.dist[cell(
            s.hist[j],
            width,
        )]
}

/// The parent link recorded for a discovered tile `t` steps one closer to the start.
spec fn parent_ok<F: Fn(usize, usize) -> bool>(
    f: F,
    width: usize,
    height: usize,
    s: Search,
    t: Tile,
) -> bool {
    &&& s.came[cell(t, width)] is Some
    &&& in_grid(s.came[cell(t, width)]->0, width, height)
    &&& s.visited[cell(s.came[cell(t, width)]->0, width)]
    &&& step_ok(f, width, height, s.came[cell(t, width)]->0, t)
    &&& s.dist[cell(s.came[cell(t, width)]->0, width)] + 1 == s.dist[cell(t, width)]
}

/// Every discovered tile but the start has a sound parent link.
#[verifier::opaque]
spec fn inv_parent<F: Fn(usize, usize) -> bool>(
    f: F,
    width: usize,
    height: usize,
    start: Tile,
    s: Search,
) -> bool {
    forall|t: Tile|
        #![trigger s.visited[cell(t, width)]]
        in_grid(t, width, height) && s.visited[cell(t, width)] && t != start ==> parent_ok(
            f,
            width,
            height,
            s,
            t,
        )
}

/// Every expanded tile has all its walkable neighbours discovered, at most
/// one step farther.
#[verifier::opaque]
spec fn inv_closed<F: Fn(usize, usize) -> bool>(
    f: F,
    width: usize,
    height: usize,
    s: Search,
) -> bool {
    forall|i: int, t: Tile|
        #![trigger step_ok(f, width, height, s.hist[i], t)]
        0 <= i < s.head && step_ok(f, width, height, s.hist[i], t) ==> s.visited[cell(t, width)]
            && s.dist[cell(t, width)] <= s.dist[cell(s.hist[i], width)] + 1
}

spec fn bfs_inv<F: Fn(usize, usize) -> bool>(
    f: F,
    width: usize,
    height: usize,
    start: Tile,
    s: Search,
) -> bool {
    &&& inv_shape(width, height, start, s)
    &&& inv_hist(width, height, s)
    &&& inv_pos(width, height, s)
    &&& inv_mono(width, s)
    &&& inv_parent(f, width, height, start, s)
    &&& inv_closed(f, width, height, s)
}

proof fn lemma_hist_at(width: usize, height: usize, s: Search, i: int)
    requires
        inv_hist(width, height, s),
        0 <= i < s.hist.len(),
    ensures
        in_grid(s.hist[i], width, height),
        s.visited[cell(s.hist[i], width)],
        s.pos[cell(s.hist[i], width)] == i,
{
    reveal(inv_hist);
}

proof fn lemma_pos_at(width: usize, height: usize, s: Search, t: Tile)
    requires
        inv_pos(width, height, s),
        in_grid(t, width, height),
        s.visited[cell(t, width)],
    ensures
        0 <= s.pos[cell(t, width)] < s.hist.len(),
        s.hist[s.pos[cell(t, width)]] == t,
{
    reveal(inv_pos);
}

proof fn lemma_mono_at(width: usize, s: Search, i: int, j: int)
    requires
        inv_mono(width, s),
        0 <= i <= j < s.hist.len(),
    ensures
        s.dist[cell(s.hist[i], width)] <= s.dist[cell(s.hist[j], width)],
{
    reveal(inv_mono);
}

proof fn lemma_parent_at<F: Fn(usize, usize) -> bool>(
    f: F,
    width: usize,
    height: usize,
    start: Tile,
    s: Search,
    t: Tile,
)
    requires
        inv_parent(f, width, height, start, s),
        in_grid(t, width, height),
        s.visited[cell(t, width)],
        t != start,
    ensures
        parent_ok(f, width, height, s, t),
{
    reveal(inv_parent);
}

proof fn lemma_closed_at<F: Fn(usize, usize) -> bool>(
    f: F,
    width: usize,
    height: usize,
    s: Search,
    i: int,
    t: Tile,
)
    requires
        inv_closed(f, width, height, s),
        0 <= i < s.head,
        step_ok(f, width, height, s.hist[i], t),
    ensures
        s.visited[cell(t, width)],
        s.dist[cell(t, width)] <= s.dist[cell(s.hist[i], width)] + 1,
{
    reveal(inv_closed);
}

/// The state right after queuing `start`.
proof fn lemma_init<F: Fn(usize, usize) -> bool>(
    f: F,
    width: usize,
    height: usize,
    start: Tile,
    s: Search,
)
    requires
        in_grid(start, width, height),
        s.visited.len() == width * height,
        s.came.len() == width * height,
        s.dist.len() == width * height,
        s.pos.len() == width * height,
        forall|k: int|
            0 <= k < width * height ==> (#[trigger] s.visited[k] <==> k == cell(start, width)),
        forall|k: int| 0 <= k < width * height ==> #[trigger] s.dist[k] == 0,
        s.pos[cell(start, width)] == 0,
        s.hist == seq![start],
        s.head == 0,
    ensures
        bfs_inv(f, width, height, start, s),
{
    lemma_cell_bounds(start, width, height);
    reveal(inv_hist);
    reveal(inv_pos);
    reveal(inv_mono);
    reveal(inv_parent);
    reveal(inv_closed);
    assert forall|t: Tile| #![trigger s.visited[cell(t, width)]]
        in_grid(t, width, height) && s.visited[cell(t, width)] implies 0 <= s.pos[cell(t, width)]
        < s.hist.len() && s.hist[s.pos[cell(t, width)]] == t by {
        lemma_cell_bounds(t, width, height);
        lemma_cell_injective(t, start, width, height);
    }
    assert forall|t: Tile| #![trigger s.visited[cell(t, width)]]
        in_grid(t, width, height) && s.visited[cell(t, width)] && t != start implies parent_ok(
        f,
        width,
        height,
        s,
        t,
    ) by {
        lemma_cell_bounds(t, width, height);
        lemma_cell_injective(t, start, width, height);
    }
}

/// The state after discovering `t` from `cur` (which is `hist[head]`).
spec fn discovered(s: Search, width: usize, cur: Tile, t: Tile) -> Search {
    let ti = cell(t, width);
    Search {
        visited: s.visited.update(ti, true),
        came: s.came.update(ti, Some(cur)),
        dist: s.dist.update(ti, s.dist[cell(cur, width)] + 1),
        pos: s.pos.update(ti, s.hist.len() as int),
        hist: s.hist.push(t),
        head: s.head,
    }
}

proof fn lemma_discover_hist(width: usize, height: usize, s: Search, cur: Tile, t: Tile)
    requires
        inv_hist(width, height, s),
        s.visited.len() == width * height,
        s.pos.len() == width * height,
        in_grid(t, width, height),
        !s.visited[cell(t, width)],
    ensures
        inv_hist(width, height, discovered(s, width, cur, t)),
{
    let s2 = discovered(s, width, cur, t);
    lemma_cell_bounds(t, width, height);
    reveal(inv_hist);
    assert forall|i: int| #![trigger s2.hist[i]] 0 <= i < s2.hist.len() implies in_grid(
        s2.hist[i],
        width,
        height,
    ) && s2.visited[cell(s2.hist[i], width)] && s2.pos[cell(s2.hist[i], width)] == i by {
        if i < s.hist.len() {
            assert(s2.hist[i] == s.hist[i]);
            lemma_cell_bounds(s.hist[i], width, height);
        }
    }
}

proof fn lemma_discover_pos(width: usize, height: usize, s: Search, cur: Tile, t: Tile)
    requires
        inv_pos(width, height, s),
        s.visited.len() == width * height,
        s.pos.len() == width * height,
        in_grid(t, width, height),
        !s.visited[cell(t, width)],
    ensures
        inv_pos(width, height, discovered(s, width, cur, t)),
{
    let s2 = discovered(s, width, cur, t);
    lemma_cell_bounds(t, width, height);
    reveal(inv_pos);
    assert forall|x: Tile| #![trigger s2.visited[cell(x, width)]]
        in_grid(x, width, height) && s2.visited[cell(x, width)] implies 0 <= s2.pos[cell(x, width)]
        < s2.hist.len() && s2.hist[s2.pos[cell(x, width)]] == x by {
        lemma_cell_bounds(x, width, height);
        if cell(x, width) == cell(t, width) {
            lemma_cell_injective(x, t, width, height);
        } else {
            assert(s.visited[cell(x, width)]);
        }
    }
}

proof fn lemma_discover_mono(width: usize, height: usize, s: Search, cur: Tile, t: Tile)
    requires
        inv_mono(width, s),
        inv_hist(width, height, s),
        s.visited.len() == width * height,
        s.dist.len() == width * height,
        in_grid(t, width, height),
        !s.visited[cell(t, width)],
        forall|i: int|
            0 <= i < s.hist.len() ==> #[trigger] s.dist[cell(s.hist[i], width)] <= s.dist[cell(
                cur,
                width,
            )] + 1,
    ensures
        inv_mono(width, discovered(s, width, cur, t)),
{
    let s2 = discovered(s, width, cur, t);
    lemma_cell_bounds(t, width, height);
    reveal(inv_mono);
    assert(s2.hist[s.hist.len() as int] == t);
    assert(s2.dist[cell(t, width)] == s.dist[cell(cur, width)] + 1);
    assert forall|i: int, j: int| #![trigger s2.hist[i], s2.hist[j]]
        0 <= i <= j < s2.hist.len() implies s2.dist[cell(s2.hist[i], width)] <= s2.dist[cell(
        s2.hist[j],
        width,
    )] by {
        if j == s.hist.len() {
            assert(s2.hist[j] == t);
        }
        if i == s.hist.len() {
            assert(s2.hist[i] == t);
        }
        if i < s.hist.len() {
            lemma_hist_at(width, height, s, i);
            lemma_cell_bounds(s.hist[i], width, height);
            assert(s2.hist[i] == s.hist[i]);
            assert(s.dist[cell(s.hist[i], width)] <= s.dist[cell(cur, width)] + 1);
        }
        if j < s.hist.len() {
            lemma_hist_at(width, height, s, j);
            lemma_cell_bounds(s.hist[j], width, height);
            assert(s2.hist[j] == s.hist[j]);
            assert(s.dist[cell(s.hist[i], width)] <= s.dist[cell(s.hist[j], width)]);
        }
    }
}

proof fn lemma_discover_parent<F: Fn(usize, usize) -> bool>(
    f: F,
    width: usize,
    height: usize,
    start: Tile,
    s: Search,
    cur: Tile,
    t: Tile,
)
    requires
        inv_parent(f, width, height, start, s),
        s.visited.len() == width * height,
        s.came.len() == width * height,
        s.dist.len() == width * height,
        in_grid(start, width, height),
        s.visited[cell(start, width)],
        in_grid(cur, width, height),
        s.visited[cell(cur, width)],
        step_ok(f, width, height, cur, t),
        !s.visited[cell(t, width)],
    ensures
        inv_parent(f, width, height, start, discovered(s, width, cur, t)),
{
    let s2 = discovered(s, width, cur, t);
    let ti = cell(t, width);
    lemma_cell_bounds(t, width, height);
    lemma_cell_bounds(cur, width, height);
    reveal(inv_parent);
    assert forall|x: Tile| #![trigger s2.visited[cell(x, width)]]
        in_grid(x, width, height) && s2.visited[cell(x, width)] && x != start implies parent_ok(
        f,
        width,
        height,
        s2,
        x,
    ) by {
        lemma_cell_bounds(x, width, height);
        if cell(x, width) == ti {
            lemma_cell_injective(x, t, width, height);
        } else {
            assert(s.visited[cell(x, width)]);
            assert(parent_ok(f, width, height, s, x));
            let u = s.came[cell(x, width)]->0;
            lemma_cell_bounds(u, width, height);
        }
    }
}

proof fn lemma_discover_closed<F: Fn(usize, usize) -> bool>(
    f: F,
    width: usize,
    height: usize,
    s: Search,
    cur: Tile,
    t: Tile,
)
    requires
        inv_closed(f, width, height, s),
        inv_hist(width, height, s),
        s.visited.len() == width * height,
        s.dist.len() == width * height,
        0 <= s.head <= s.hist.len(),
        in_grid(t, width, height),
        !s.visited[cell(t, width)],
    ensures
        inv_closed(f, width, height, discovered(s, width, cur, t)),
{
    let s2 = discovered(s, width, cur, t);
    lemma_cell_bounds(t, width, height);
    reveal(inv_closed);
    assert forall|i: int, x: Tile| #![trigger step_ok(f, width, height, s2.hist[i], x)]
        0 <= i < s2.head && step_ok(f, width, height, s2.hist[i], x) implies s2.visited[cell(
        x,
        width,
    )] && s2.dist[cell(x, width)] <= s2.dist[cell(s2.hist[i], width)] + 1 by {
        assert(s2.hist[i] == s.hist[i]);
        assert(step_ok(f, width, height, s.hist[i], x));
        lemma_cell_bounds(x, width, height);
        lemma_hist_at(width, height, s, i);
        lemma_cell_bounds(s.hist[i], width, height);
    }
}

/// Discovering a fresh walkable neighbour `t` of the tile being expanded keeps
/// the search sound: `t` is queued one step farther than `cur`.
proof fn lemma_discover<F: Fn(usize, usize) -> bool>(
    f: F,
    width: usize,
    height: usize,
    start: Tile,
    s: Search,
    cur: Tile,
    t: Tile,
)
    requires
        bfs_inv(f, width, height, start, s),
        s.head < s.hist.len(),
        cur == s.hist[s.head],
        step_ok(f, width, height, cur, t),
        !s.visited[cell(t, width)],
        forall|i: int|
            0 <= i < s.hist.len() ==> #[trigger] s.dist[cell(s.hist[i], width)] <= s.dist[cell(
                cur,
                width,
            )] + 1,
        forall|i: int|
            s.head <= i < s.hist.len() ==> s.dist[cell(cur, width)] <= #[trigger] s.dist[cell(
                s.hist[i],
                width,
            )],
    ensures
        ({
            let s2 = discovered(s, width, cur, t);
            &&& bfs_inv(f, width, height, start, s2)
            &&& s2.hist[s2.head] == cur
            &&& s2.dist[cell(cur, width)] == s.dist[cell(cur, width)]
            &&& forall|i: int|
                0 <= i < s2.hist.len() ==> #[trigger] s2.dist[cell(s2.hist[i], width)]
                    <= s2.dist[cell(cur, width)] + 1
            &&& forall|i: int|
                s2.head <= i < s2.hist.len() ==> s2.dist[cell(cur, width)]
                    <= #[trigger] s2.dist[cell(s2.hist[i], width)]
            &&& forall|x: Tile|
                #![trigger s.visited[cell(x, width)]]
                in_grid(x, width, height) && s.visited[cell(x, width)] ==> s2.visited[cell(
                    x,
                    width,
                )] && s2.dist[cell(x, width)] == s.dist[cell(x, width)]
            &&& s2.visited[cell(t, width)]
            &&& s2.dist[cell(t, width)] == s.dist[cell(cur, width)] + 1
        }),
{
    let s2 = discovered(s, width, cur, t);
    let ti = cell(t, width);
    lemma_cell_bounds(t, width, height);
    lemma_hist_at(width, height, s, s.head);
    lemma_hist_at(width, height, s, 0);
    lemma_cell_bounds(cur, width, height);
    lemma_discover_hist(width, height, s, cur, t);
    lemma_discover_pos(width, height, s, cur, t);
    lemma_discover_mono(width, height, s, cur, t);
    lemma_discover_parent(f, width, height, start, s, cur, t);
    lemma_discover_closed(f, width, height, s, cur, t);
    assert(s2.hist[s2.head] == cur);
    assert(ti != cell(cur, width));
    assert(s2.dist[cell(cur, width)] == s.dist[cell(cur, width)]);
    assert(s2.hist[s.hist.len() as int] == t);
    assert forall|i: int| 0 <= i < s2.hist.len() implies #[trigger] s2.dist[cell(
        s2.hist[i],
        width,
    )] <= s2.dist[cell(cur, width)] + 1 by {
        if i == s.hist.len() {
            assert(s2.hist[i] == t);
        }
        if i < s.hist.len() {
            assert(s2.hist[i] == s.hist[i]);
            lemma_hist_at(width, height, s, i);
            lemma_cell_bounds(s.hist[i], width, height);
        }
    }
    assert forall|i: int| s2.head <= i < s2.hist.len() implies s2.dist[cell(cur, width)]
        <= #[trigger] s2.dist[cell(s2.hist[i], width)] by {
        if i == s.hist.len() {
            assert(s2.hist[i] == t);
        }
        if i < s.hist.len() {
            assert(s2.hist[i] == s.hist[i]);
            lemma_hist_at(width, height, s, i);
            lemma_cell_bounds(s.hist[i], width, height);
        }
    }
    assert forall|x: Tile| #![trigger s.visited[cell(x, width)]]
        in_grid(x, width, height) && s.visited[cell(x, width)] implies s2.visited[cell(x, width)]
        && s2.dist[cell(x, width)] == s.dist[cell(x, width)] by {
        lemma_cell_bounds(x, width, height);
    }
}

/// Once every neighbour of `hist[head]` is discovered, the head moves on.
proof fn lemma_expanded<F: Fn(usize, usize) -> bool>(
    f: F,
    width: usize,
    height: usize,
    start: Tile,
    s: Search,
)
    requires
        bfs_inv(f, width, height, start, s),
        s.head < s.hist.len(),
        forall|x: Tile|
            #[trigger] step_ok(f, width, height, s.hist[s.head], x) ==> s.visited[cell(x, width)]
                && s.dist[cell(x, width)] <= s.dist[cell(s.hist[s.head], width)] + 1,
    ensures
        bfs_inv(f, width, height, start, Search { head: s.head + 1, ..s }),
{
    let s2 = Search { head: s.head + 1, ..s };
    reveal(inv_hist);
    reveal(inv_pos);
    reveal(inv_mono);
    reveal(inv_parent);
    reveal(inv_closed);
    assert forall|i: int, x: Tile| #![trigger step_ok(f, width, height, s2.hist[i], x)]
        0 <= i < s2.head && step_ok(f, width, height, s2.hist[i], x) implies s2.visited[cell(
        x,
        width,
    )] && s2.dist[cell(x, width)] <= s2.dist[cell(s2.hist[i], width)] + 1 by {
        if i < s.head {
            lemma_closed_at(f, width, height, s, i, x);
        }
    }
}

proof fn lemma_prefix_walk<F: Fn(usize, usize) -> bool>(
    f: F,
    width: usize,
    height: usize,
    start: Tile,
    q: Seq<Tile>,
)
    requires
        is_walk(f, width, height, start, q),
        q.len() > 0,
    ensures
        is_walk(f, width, height, start, q.drop_last()),
        step_ok(f, width, height, walk_end(start, q.drop_last()), q.last()),
{
    let q2 = q.drop_last();
    assert forall|i: int| 0 <= i < q2.len() implies #[trigger] step_ok(
        f,
        width,
        height,
        walk_prev(start, q2, i),
        q2[i],
    ) by {
        assert(walk_prev(start, q2, i) == walk_prev(start, q, i));
        assert(step_ok(f, width, height, walk_prev(start, q, i), q[i]));
    }
    assert(walk_prev(start, q, q.len() - 1) == walk_end(start, q2));
    assert(step_ok(f, width, height, walk_prev(start, q, q.len() - 1), q[q.len() - 1]));
}

/// Every walk no longer than the distance at the head of the queue (or any
/// walk at all, once the queue is exhausted) ends on a discovered tile whose
/// recorded distance is no more than the walk's length.
proof fn lemma_walk_discovered<F: Fn(usize, usize) -> bool>(
    f: F,
    width: usize,
    height: usize,
    start: Tile,
    s: Search,
    q: Seq<Tile>,
)
    requires
        bfs_inv(f, width, height, start, s),
        is_walk(f, width, height, start, q),
        s.head == s.hist.len() || q.len() <= s.dist[cell(s.hist[s.head], width)],
    ensures
        in_grid(walk_end(start, q), width, height),
        s.visited[cell(walk_end(start, q), width)],
        s.dist[cell(walk_end(start, q), width)] <= q.len(),
    decreases q.len(),
{
    lemma_hist_at(width, height, s, 0);
    if q.len() > 0 {
        let q2 = q.drop_last();
        lemma_prefix_walk(f, width, height, start, q);
        lemma_walk_discovered(f, width, height, start, s, q2);
        let u = walk_end(start, q2);
        lemma_pos_at(width, height, s, u);
        let j = s.pos[cell(u, width)];
        if s.head < s.hist.len() && j >= s.head {
            lemma_mono_at(width, s, s.head, j);
            assert(false);
        }
        lemma_closed_at(f, width, height, s, j, q.last());
    }
}

/// The queue history lists distinct grid cells, so it can never outgrow the grid.
proof fn lemma_hist_fits(width: usize, height: usize, s: Search)
    requires
        inv_hist(width, height, s),
    ensures
        s.hist.len() <= width * height,
{
    let m = s.hist.map_values(|t: Tile| cell(t, width));
    assert forall|i: int| 0 <= i < m.len() implies 0 <= #[trigger] m[i] < width * height by {
        lemma_hist_at(width, height, s, i);
        lemma_cell_bounds(s.hist[i], width, height);
    }
    assert(m.no_duplicates()) by {
        assert forall|i: int, j: int| 0 <= i < m.len() && 0 <= j < m.len() && i != j implies m[i]
            != m[j] by {
            lemma_hist_at(width, height, s, i);
            lemma_hist_at(width, height, s, j);
        }
    }
    m.unique_seq_to_set();
    vstd::set_lib::lemma_int_range(0, width * height);
    assert(m.to_set().subset_of(vstd::set_lib::set_int_range(0, width * height)));
    vstd::set_lib::lemma_len_subset(m.to_set(), vstd::set_lib::set_int_range(0, width * height));
}

// ─── The walk the parent links trace ────────────────────

/// The walk the recorded parent links trace from the start to `t`, `n`
/// steps long.
spec fn tree_walk(s: Search, width: usize, t: Tile, n: nat) -> Seq<Tile>
    decreases n,
{
    if n == 0 {
        Seq::empty()
    } else {
        tree_walk(s, width, s.came[cell(t, width)]->0, (n - 1) as nat).push(t)
    }
}

/// The directions of the traced walk to `t`.
spec fn tree_key(s: Search, width: usize, start: Tile, t: Tile) -> Seq<int> {
    walk_dirs(start, tree_walk(s, width, t, s.dist[cell(t, width)]))
}

proof fn lemma_walk_extend<F: Fn(usize, usize) -> bool>(
    f: F,
    width: usize,
    height: usize,
    start: Tile,
    p: Seq<Tile>,
    t: Tile,
)
    requires
        is_walk(f, width, height, start, p),
        step_ok(f, width, height, walk_end(start, p), t),
    ensures
        is_walk(f, width, height, start, p.push(t)),
{
    let q = p.push(t);
    assert forall|i: int| 0 <= i < q.len() implies #[trigger] step_ok(
        f,
        width,
        height,
        walk_prev(start, q, i),
        q[i],
    ) by {
        if i < p.len() {
            assert(walk_prev(start, q, i) == walk_prev(start, p, i));
            assert(step_ok(f, width, height, walk_prev(start, p, i), p[i]));
        }
    }
}

/// Under the search invariant the traced walk to a discovered tile is a legal
/// walk of its recorded distance that ends on it.
proof fn lemma_tree_walk<F: Fn(usize, usize) -> bool>(
    f: F,
    width: usize,
    height: usize,
    start: Tile,
    s: Search,
    t: Tile,
)
    requires
        bfs_inv(f, width, height, start, s),
        in_grid(t, width, height),
        s.visited[cell(t, width)],
    ensures
        is_walk(f, width, height, start, tree_walk(s, width, t, s.dist[cell(t, width)])),
        tree_walk(s, width, t, s.dist[cell(t, width)]).len() == s.dist[cell(t, width)],
        walk_end(start, tree_walk(s, width, t, s.dist[cell(t, width)])) == t,
        s.dist[cell(t, width)] == 0 <==> t == start,
    decreases s.dist[cell(t, width)],
{
    if t == start {
        assert(s.dist[cell(start, width)] == 0);
    } else {
        lemma_parent_at(f, width, height, start, s, t);
        let u = s.came[cell(t, width)]->0;
        lemma_tree_walk(f, width, height, start, s, u);
        let pw = tree_walk(s, width, u, s.dist[cell(u, width)]);
        assert(tree_walk(s, width, t, s.dist[cell(t, width)]) == pw.push(t));
        lemma_walk_extend(f, width, height, start, pw, t);
    }
}

/// The traced walk to `t` is the traced walk to its parent, one step on.
proof fn lemma_tree_key_step<F: Fn(usize, usize) -> bool>(
    f: F,
    width: usize,
    height: usize,
    start: Tile,
    s: Search,
    t: Tile,
)
    requires
        bfs_inv(f, width, height, start, s),
        in_grid(t, width, height),
        s.visited[cell(t, width)],
        t != start,
    ensures
        tree_key(s, width, start, t) == tree_key(s, width, start, s.came[cell(t, width)]->0).push(
            step_rank(s.came[cell(t, width)]->0, t),
        ),
{
    lemma_parent_at(f, width, height, start, s, t);
    let u = s.came[cell(t, width)]->0;
    lemma_tree_walk(f, width, height, start, s, u);
    let pw = tree_walk(s, width, u, s.dist[cell(u, width)]);
    assert(tree_walk(s, width, t, s.dist[cell(t, width)]) == pw.push(t));
    lemma_walk_dirs_push(start, pw, t);
}

/// Changing only parent links of undiscovered tiles leaves every traced walk
/// of a discovered tile as it was.
proof fn lemma_tree_walk_stable<F: Fn(usize, usize) -> bool>(
    f: F,
    width: usize,
    height: usize,
    start: Tile,
    s: Search,
    s2: Search,
    x: Tile,
)
    requires
        bfs_inv(f, width, height, start, s),
        in_grid(x, width, height),
        s.visited[cell(x, width)],
        forall|y: Tile|
            #![trigger s.visited[cell(y, width)]]
            in_grid(y, width, height) && s.visited[cell(y, width)] ==> s2.came[cell(y, width)]
                == s.came[cell(y, width)],
    ensures
        tree_walk(s2, width, x, s.dist[cell(x, width)]) == tree_walk(s, width, x, s.dist[cell(x, width)]),
    decreases s.dist[cell(x, width)],
{
    lemma_tree_walk(f, width, height, start, s, x);
    if x != start {
        lemma_parent_at(f, width, height, start, s, x);
        let u = s.came[cell(x, width)]->0;
        lemma_tree_walk_stable(f, width, height, start, s, s2, u);
        assert(s2.came[cell(x, width)] == s.came[cell(x, width)]);
    }
}

// ─── Which shortest walk the search keeps ───────────────

/// Each queued tile's traced walk comes first, in dictionary order of its
/// directions, among the walks of its recorded distance that reach it.
#[verifier::opaque]
spec fn inv_lexmin<F: Fn(usize, usize) -> bool>(
    f: F,
    width: usize,
    height: usize,
    start: Tile,
    s: Search,
) -> bool {
    forall|i: int, q: Seq<Tile>|
        #![trigger s.hist[i], is_walk(f, width, height, start, q)]
        0 <= i < s.hist.len() && is_walk(f, width, height, start, q) && walk_end(start, q)
            == s.hist[i] && q.len() == s.dist[cell(s.hist[i], width)] ==> lex_le(
            tree_key(s, width, start, s.hist[i]),
            walk_dirs(start, q),
        )
}

/// Queued tiles of one distance are queued in dictionary order of their
/// traced walks.
#[verifier::opaque]
spec fn inv_order(width: usize, start: Tile, s: Search) -> bool {
    forall|i: int, j: int|
        #![trigger s.hist[i], s.hist[j]]
        0 <= i < j < s.hist.len() && s.dist[cell(s.hist[i], width)] == s.dist[cell(s.hist[j], width)]
            ==> lex_lt(tree_key(s, width, start, s.hist[i]), tree_key(s, width, start, s.hist[j]))
}

/// Every queued tile but the start was reached from a tile queued before
/// position `bound`.
#[verifier::opaque]
spec fn parents_before(width: usize, s: Search, bound: int) -> bool {
    forall|i: int|
        #![trigger s.hist[i]]
        0 < i < s.hist.len() ==> s.pos[cell(s.came[cell(s.hist[i], width)]->0, width)] < bound
}

proof fn lemma_lexmin_at<F: Fn(usize, usize) -> bool>(
    f: F,
    width: usize,
    height: usize,
    start: Tile,
    s: Search,
    i: int,
    q: Seq<Tile>,
)
    requires
        inv_lexmin(f, width, height, start, s),
        0 <= i < s.hist.len(),
        is_walk(f, width, height, start, q),
        walk_end(start, q) == s.hist[i],
        q.len() == s.dist[cell(s.hist[i], width)],
    ensures
        lex_le(tree_key(s, width, start, s.hist[i]), walk_dirs(start, q)),
{
    reveal(inv_lexmin);
}

proof fn lemma_order_at(width: usize, start: Tile, s: Search, i: int, j: int)
    requires
        inv_order(width, start, s),
        0 <= i < j < s.hist.len(),
        s.dist[cell(s.hist[i], width)] == s.dist[cell(s.hist[j], width)],
    ensures
        lex_lt(tree_key(s, width, start, s.hist[i]), tree_key(s, width, start, s.hist[j])),
{
    reveal(inv_order);
}

proof fn lemma_parents_at(width: usize, s: Search, bound: int, i: int)
    requires
        parents_before(width, s, bound),
        0 < i < s.hist.len(),
    ensures
        s.pos[cell(s.came[cell(s.hist[i], width)]->0, width)] < bound,
{
    reveal(parents_before);
}

/// A parent recorded for a queued tile other than the start is itself queued,
/// one step nearer, at its recorded position.
proof fn lemma_parent_of_queued<F: Fn(usize, usize) -> bool>(
    f: F,
    width: usize,
    height: usize,
    start: Tile,
    s: Search,
    i: int,
)
    requires
        bfs_inv(f, width, height, start, s),
        0 < i < s.hist.len(),
    ensures
        s.hist[i] != start,
        parent_ok(f, width, height, s, s.hist[i]),
        0 <= s.pos[cell(s.came[cell(s.hist[i], width)]->0, width)] < s.hist.len(),
        s.hist[s.pos[cell(s.came[cell(s.hist[i], width)]->0, width)]] == s.came[cell(
            s.hist[i],
            width,
        )]->0,
{
    lemma_hist_at(width, height, s, i);
    lemma_hist_at(width, height, s, 0);
    lemma_parent_at(f, width, height, start, s, s.hist[i]);
    let u = s.came[cell(s.hist[i], width)]->0;
    lemma_pos_at(width, height, s, u);
}

/// The lex invariants hold for the search right after queuing the start.
proof fn lemma_init_lex<F: Fn(usize, usize) -> bool>(
    f: F,
    width: usize,
    height: usize,
    start: Tile,
    s: Search,
)
    requires
        bfs_inv(f, width, height, start, s),
        s.hist == seq![start],
        s.head == 0,
    ensures
        inv_lexmin(f, width, height, start, s),
        inv_order(width, start, s),
        parents_before(width, s, s.head),
{
    reveal(inv_lexmin);
    reveal(inv_order);
    reveal(parents_before);
    assert forall|i: int, q: Seq<Tile>|
        #![trigger s.hist[i], is_walk(f, width, height, start, q)]
        0 <= i < s.hist.len() && is_walk(f, width, height, start, q) && walk_end(start, q)
            == s.hist[i] && q.len() == s.dist[cell(s.hist[i], width)] implies lex_le(
        tree_key(s, width, start, s.hist[i]),
        walk_dirs(start, q),
    ) by {
        assert(s.hist[i] == start);
        assert(q.len() == 0);
        assert(walk_dirs(start, q) =~= tree_key(s, width, start, start));
    }
}

/// Only the head moving on keeps the lex invariants.
proof fn lemma_expanded_lex<F: Fn(usize, usize) -> bool>(
    f: F,
    width: usize,
    height: usize,
    start: Tile,
    s: Search,
)
    requires
        bfs_inv(f, width, height, start, s),
        inv_lexmin(f, width, height, start, s),
        inv_order(width, start, s),
        parents_before(width, s, s.head + 1),
    ensures
        inv_lexmin(f, width, height, start, Search { head: s.head + 1, ..s }),
        inv_order(width, start, Search { head: s.head + 1, ..s }),
        parents_before(width, Search { head: s.head + 1, ..s }, s.head + 1),
{
    let s2 = Search { head: s.head + 1, ..s };
    reveal(parents_before);
    assert forall|x: Tile| in_grid(x, width, height) && s.visited[cell(x, width)] implies tree_key(
        s2,
        width,
        start,
        x,
    ) == tree_key(s, width, start, x) by {
        lemma_tree_walk_stable(f, width, height, start, s, s2, x);
    }
    reveal(inv_lexmin);
    reveal(inv_order);
    assert forall|i: int, q: Seq<Tile>|
        #![trigger s2.hist[i], is_walk(f, width, height, start, q)]
        0 <= i < s2.hist.len() && is_walk(f, width, height, start, q) && walk_end(start, q)
            == s2.hist[i] && q.len() == s2.dist[cell(s2.hist[i], width)] implies lex_le(
        tree_key(s2, width, start, s2.hist[i]),
        walk_dirs(start, q),
    ) by {
        lemma_hist_at(width, height, s, i);
        assert(s.hist[i] == s2.hist[i]);
    }
    assert forall|i: int, j: int|
        #![trigger s2.hist[i], s2.hist[j]]
        0 <= i < j < s2.hist.len() && s2.dist[cell(s2.hist[i], width)] == s2.dist[cell(
            s2.hist[j],
            width,
        )] implies lex_lt(tree_key(s2, width, start, s2.hist[i]), tree_key(s2, width, start, s2.hist[j])) by {
        lemma_hist_at(width, height, s, i);
        lemma_hist_at(width, height, s, j);
        assert(s.hist[i] == s2.hist[i]);
        assert(s.hist[j] == s2.hist[j]);
    }
}

/// Discovering `t` from the head tile `cur` keeps the lex invariants, given
/// that every tile already reached from `cur` was reached by a lower-ranked
/// step than `t`.
#[verifier::rlimit(40)]
proof fn lemma_discover_lex<F: Fn(usize, usize) -> bool>(
    f: F,
    width: usize,
    height: usize,
    start: Tile,
    s: Search,
    cur: Tile,
    t: Tile,
)
    requires
        bfs_inv(f, width, height, start, s),
        inv_lexmin(f, width, height, start, s),
        inv_order(width, start, s),
        parents_before(width, s, s.head + 1),
        s.head < s.hist.len(),
        cur == s.hist[s.head],
        step_ok(f, width, height, cur, t),
        !s.visited[cell(t, width)],
        forall|i: int|
            0 <= i < s.hist.len() ==> #[trigger] s.dist[cell(s.hist[i], width)] <= s.dist[cell(
                cur,
                width,
            )] + 1,
        forall|i: int|
            s.head <= i < s.hist.len() ==> s.dist[cell(cur, width)] <= #[trigger] s.dist[cell(
                s.hist[i],
                width,
            )],
        forall|j: int|
            0 < j < s.hist.len() && s.pos[cell(s.came[cell(s.hist[j], width)]->0, width)] == s.head
                ==> step_rank(cur, #[trigger] s.hist[j]) < step_rank(cur, t),
    ensures
        inv_lexmin(f, width, height, start, discovered(s, width, cur, t)),
        inv_order(width, start, discovered(s, width, cur, t)),
        parents_before(width, discovered(s, width, cur, t), s.head + 1),
        forall|j: int|
            0 < j < s.hist.len() ==> #[trigger] discovered(s, width, cur, t).pos[cell(
                discovered(s, width, cur, t).came[cell(discovered(s, width, cur, t).hist[j], width)]->0,
                width,
            )] == s.pos[cell(s.came[cell(s.hist[j], width)]->0, width)],
        discovered(s, width, cur, t).pos[cell(
            discovered(s, width, cur, t).came[cell(t, width)]->0,
            width,
        )] == s.head,
{
    let s2 = discovered(s, width, cur, t);
    let n = s.hist.len() as int;
    let d = s.dist[cell(cur, width)];
    lemma_discover(f, width, height, start, s, cur, t);
    lemma_cell_bounds(t, width, height);
    lemma_hist_at(width, height, s, s.head);
    lemma_hist_at(width, height, s, 0);
    assert(s2.hist[n] == t);
    // Walks traced to already-discovered tiles are unchanged.
    assert forall|y: Tile|
        #![trigger s.visited[cell(y, width)]]
        in_grid(y, width, height) && s.visited[cell(y, width)] implies s2.came[cell(y, width)]
        == s.came[cell(y, width)] && s2.pos[cell(y, width)] == s.pos[cell(y, width)] by {
        lemma_cell_bounds(y, width, height);
        if cell(y, width) == cell(t, width) {
            lemma_cell_injective(y, t, width, height);
        }
    }
    assert forall|x: Tile| in_grid(x, width, height) && s.visited[cell(x, width)] implies tree_key(
        s2,
        width,
        start,
        x,
    ) == tree_key(s, width, start, x) by {
        lemma_tree_walk_stable(f, width, height, start, s, s2, x);
    }
    // The new tile's traced walk is the head's, one step on.
    lemma_tree_key_step(f, width, height, start, s2, t);
    assert(s2.came[cell(t, width)] == Some(cur));
    assert(tree_key(s2, width, start, t) == tree_key(s, width, start, cur).push(step_rank(cur, t)));
    assert(s2.dist[cell(t, width)] == d + 1);
    reveal(parents_before);
    reveal(inv_lexmin);
    reveal(inv_order);
    assert forall|i: int, q: Seq<Tile>|
        #![trigger s2.hist[i], is_walk(f, width, height, start, q)]
        0 <= i < s2.hist.len() && is_walk(f, width, height, start, q) && walk_end(start, q)
            == s2.hist[i] && q.len() == s2.dist[cell(s2.hist[i], width)] implies lex_le(
        tree_key(s2, width, start, s2.hist[i]),
        walk_dirs(start, q),
    ) by {
        if i < n {
            lemma_hist_at(width, height, s, i);
            assert(s2.hist[i] == s.hist[i]);
            lemma_lexmin_at(f, width, height, start, s, i, q);
        } else {
            assert(s2.hist[i] == t);
            let q2 = q.drop_last();
            lemma_prefix_walk(f, width, height, start, q);
            lemma_walk_discovered(f, width, height, start, s, q2);
            let u = walk_end(start, q2);
            lemma_pos_at(width, height, s, u);
            let j = s.pos[cell(u, width)];
            if j < s.head {
                lemma_closed_at(f, width, height, s, j, t);
                assert(false);
            }
            lemma_mono_at(width, s, s.head, j);
            assert(s.dist[cell(u, width)] == d);
            lemma_lexmin_at(f, width, height, start, s, j, q2);
            assert(q2.push(q.last()) =~= q);
            lemma_walk_dirs_push(start, q2, t);
            let ku = tree_key(s, width, start, u);
            let kc = tree_key(s, width, start, cur);
            if j == s.head {
                lemma_lex_push(ku, walk_dirs(start, q2), step_rank(cur, t), step_rank(u, t));
            } else {
                lemma_order_at(width, start, s, s.head, j);
                lemma_lex_trans(kc, ku, walk_dirs(start, q2));
                lemma_lex_push(kc, walk_dirs(start, q2), step_rank(cur, t), step_rank(u, t));
            }
        }
    }
    assert forall|i: int, j: int|
        #![trigger s2.hist[i], s2.hist[j]]
        0 <= i < j < s2.hist.len() && s2.dist[cell(s2.hist[i], width)] == s2.dist[cell(
            s2.hist[j],
            width,
        )] implies lex_lt(tree_key(s2, width, start, s2.hist[i]), tree_key(s2, width, start, s2.hist[j])) by {
        lemma_hist_at(width, height, s, i);
        assert(s2.hist[i] == s.hist[i]);
        if j < n {
            lemma_hist_at(width, height, s, j);
            assert(s2.hist[j] == s.hist[j]);
            lemma_order_at(width, start, s, i, j);
        } else {
            assert(s2.hist[j] == t);
            let x = s.hist[i];
            assert(s.dist[cell(x, width)] == d + 1);
            assert(i > 0);
            lemma_parent_of_queued(f, width, height, start, s, i);
            let u = s.came[cell(x, width)]->0;
            let pu = s.pos[cell(u, width)];
            lemma_parents_at(width, s, s.head + 1, i);
            lemma_tree_key_step(f, width, height, start, s, x);
            let ku = tree_key(s, width, start, u);
            let kc = tree_key(s, width, start, cur);
            if pu < s.head {
                lemma_hist_at(width, height, s, pu);
                lemma_order_at(width, start, s, pu, s.head);
                lemma_lex_push(ku, kc, step_rank(u, x), step_rank(cur, t));
            } else {
                assert(u == cur);
                assert(step_rank(cur, s.hist[i]) < step_rank(cur, t));
                lemma_lex_push(kc, kc, step_rank(u, x), step_rank(cur, t));
            }
        }
    }
    assert forall|i: int| #![trigger s2.hist[i]] 0 < i < s2.hist.len() implies s2.pos[cell(
        s2.came[cell(s2.hist[i], width)]->0,
        width,
    )] < s.head + 1 by {
        if i < n {
            lemma_parent_of_queued(f, width, height, start, s, i);
            assert(s2.hist[i] == s.hist[i]);
            lemma_hist_at(width, height, s, i);
            let u = s.came[cell(s.hist[i], width)]->0;
            assert(s.visited[cell(u, width)]);
        } else {
            assert(s2.hist[i] == t);
            lemma_cell_bounds(cur, width, height);
            assert(cell(cur, width) != cell(t, width));
        }
    }
    assert forall|j: int| 0 < j < s.hist.len() implies #[trigger] s2.pos[cell(
        s2.came[cell(s2.hist[j], width)]->0,
        width,
    )] == s.pos[cell(s.came[cell(s.hist[j], width)]->0, width)] by {
        lemma_parent_of_queued(f, width, height, start, s, j);
        assert(s2.hist[j] == s.hist[j]);
        lemma_hist_at(width, height, s, j);
        let u = s.came[cell(s.hist[j], width)]->0;
        assert(s.visited[cell(u, width)]);
    }
    lemma_cell_bounds(cur, width, height);
    assert(cell(cur, width) != cell(t, width));
}

/// Follow parent links from `goal` back to `start` and return the walk from
/// `start` to `goal`.
/// Every discovered tile but the start was asked about, and the predicate
/// said it is walkable.
spec fn called<F: Fn(usize, usize) -> bool>(f: F, width: usize, height: usize, start: Tile, s: Search) -> bool {
    forall|t: Tile|
        #![trigger s.visited[cell(t, width)]]
        in_grid(t, width, height) && s.visited[cell(t, width)] && t != start ==> call_ensures(f, (t.0, t.1), true)
}

/// Every tile of a traced walk was answered walkable.
proof fn lemma_tree_walk_called<F: Fn(usize, usize) -> bool>(
    f: F,
    width: usize,
    height: usize,
    start: Tile,
    s: Search,
    t: Tile,
)
    requires
        bfs_inv(f, width, height, start, s),
        called(f, width, height, start, s),
        in_grid(t, width, height),
        s.visited[cell(t, width)],
    ensures
        forall|i: int|
            0 <= i < tree_walk(s, width, t, s.dist[cell(t, width)]).len() ==> call_ensures(
                f,
                (
                    #[trigger] tree_walk(s, width, t, s.dist[cell(t, width)])[i].0,
                    tree_walk(s, width, t, s.dist[cell(t, width)])[i].1,
                ),
                true,
            ),
    decreases s.dist[cell(t, width)],
{
    lemma_tree_walk(f, width, height, start, s, t);
    if t != start {
        lemma_parent_at(f, width, height, start, s, t);
        let u = s.came[cell(t, width)]->0;
        lemma_tree_walk_called(f, width, height, start, s, u);
        let pw = tree_walk(s, width, u, s.dist[cell(u, width)]);
        let w = tree_walk(s, width, t, s.dist[cell(t, width)]);
        assert(w == pw.push(t));
        assert forall|i: int| 0 <= i < w.len() implies call_ensures(f, (#[trigger] w[i].0, w[i].1), true) by {
            if i < pw.len() {
                assert(w[i] == pw[i]);
            } else {
                assert(w[i] == t);
            }
        }
    } else {
        assert(s.dist[cell(t, width)] == 0);
    }
}

fn reconstruct<F: Fn(usize, usize) -> bool>(
    came_from: &Vec<Option<Tile>>,
    start: Tile,
    goal: Tile,
    width: usize,
    height: usize,
    Ghost(f): Ghost<F>,
    Ghost(s): Ghost<Search>,
) -> (path: Vec<Tile>)
    requires
        bfs_inv(f, width, height, start, s),
        s.came == came_from@,
        in_grid(goal, width, height),
        s.visited[cell(goal, width)],
        goal != start,
        width * height <= usize::MAX,
    ensures
        is_walk(f, width, height, start, path@),
        path@.len() == s.dist[cell(goal, width)],
        path@.len() > 0,
        path@.last() == goal,
        path@ == tree_walk(s, width, goal, s.dist[cell(goal, width)]),
{
    let mut rev: Vec<Tile> = Vec::new();
    rev.push(goal);
    let mut cur = goal;
    proof {
        lemma_tree_walk(f, width, height, start, s, goal);
        assert(tree_walk(s, width, goal, s.dist[cell(goal, width)]) =~= tree_walk(
            s,
            width,
            cur,
            s.dist[cell(cur, width)],
        ) + rev@.reverse().subrange(1, rev@.len() as int));
    }
    loop
        invariant_except_break
            bfs_inv(f, width, height, start, s),
            s.came == came_from@,
            width * height <= usize::MAX,
            in_grid(cur, width, height),
            s.visited[cell(cur, width)],
            cur != start,
            rev@.len() + s.dist[cell(cur, width)] == s.dist[cell(goal, width)] + 1,
            rev@.len() > 0,
            rev@[0] == goal,
            rev@.last() == cur,
            forall|k: int|
                0 <= k < rev@.len() - 1 ==> #[trigger] step_ok(
                    f,
                    width,
                    height,
                    rev@[k + 1],
                    rev@[k],
                ),
            tree_walk(s, width, goal, s.dist[cell(goal, width)]) == tree_walk(
                s,
                width,
                cur,
                s.dist[cell(cur, width)],
            ) + rev@.reverse().subrange(1, rev@.len() as int),
        ensures
            rev@.reverse() == tree_walk(s, width, goal, s.dist[cell(goal, width)]),
            rev@.len() == s.dist[cell(goal, width)],
            rev@.len() > 0,
            rev@[0] == goal,
            step_ok(f, width, height, start, rev@.last()),
            forall|k: int|
                0 <= k < rev@.len() - 1 ==> #[trigger] step_ok(
                    f,
                    width,
                    height,
                    rev@[k + 1],
                    rev@[k],
                ),
        decreases s.dist[cell(cur, width)],
    {
        proof {
            lemma_cell_bounds(cur, width, height);
            lemma_parent_at(f, width, height, start, s, cur);
        }
        let i = cur.1 * width + cur.0;
        match came_from[i] {
            Some(prev) => {
                if prev.0 == start.0 && prev.1 == start.1 {
                    proof {
                        assert(prev == start);
                        lemma_hist_at(width, height, s, 0);
                        assert(s.dist[cell(cur, width)] == 1);
                        assert(tree_walk(s, width, cur, 1) == tree_walk(s, width, start, 0).push(cur));
                        assert(tree_walk(s, width, cur, 1) =~= seq![cur]);
                        assert(rev@.reverse()[0] == cur);
                        assert(rev@.reverse() =~= seq![cur] + rev@.reverse().subrange(1, rev@.len() as int));
                    }
                    break ;
                }
                proof {
                    lemma_parent_at(f, width, height, start, s, prev);
                }
                let ghost old_rev = rev@;
                rev.push(prev);
                proof {
                    lemma_tree_walk(f, width, height, start, s, prev);
                    assert(tree_walk(s, width, cur, s.dist[cell(cur, width)]) == tree_walk(
                        s,
                        width,
                        prev,
                        s.dist[cell(prev, width)],
                    ).push(cur));
                    assert(rev@.reverse() =~= seq![prev] + old_rev.reverse());
                    assert(old_rev.reverse()[0] == cur);
                    assert(old_rev.reverse() =~= seq![cur] + old_rev.reverse().subrange(1, old_rev.len() as int));
                    assert(tree_walk(s, width, goal, s.dist[cell(goal, width)]) =~= tree_walk(
                        s,
                        width,
                        prev,
                        s.dist[cell(prev, width)],
                    ) + rev@.reverse().subrange(1, rev@.len() as int));
                    assert forall|k: int| 0 <= k < rev@.len() - 1 implies #[trigger] step_ok(
                        f,
                        width,
                        height,
                        rev@[k + 1],
                        rev@[k],
                    ) by {
                        if k < old_rev.len() - 1 {
                            assert(rev@[k + 1] == old_rev[k + 1]);
                            assert(rev@[k] == old_rev[k]);
                        } else {
                            assert(rev@[k] == cur);
                            assert(rev@[k + 1] == prev);
                        }
                    }
                }
                cur = prev;
            },
            None => {
                proof {
                    assert(false);
                }
                break ;
            },
        }
    }
    let mut path: Vec<Tile> = Vec::new();
    let mut k = rev.len();
    while k > 0
        invariant
            0 <= k <= rev@.len(),
            rev@.len() > 0,
            path@.len() + k == rev@.len(),
            forall|i: int| 0 <= i < path@.len() ==> path@[i] == rev@[rev@.len() - 1 - i],
        decreases k,
    {
        k = k - 1;
        path.push(rev[k]);
    }
    proof {
        let n = rev@.len();
        assert forall|i: int| 0 <= i < path@.len() implies #[trigger] step_ok(
            f,
            width,
            height,
            walk_prev(start, path@, i),
            path@[i],
        ) by {
            if i == 0 {
                assert(path@[0] == rev@.last());
            } else {
                let k = n - 1 - i;
                assert(step_ok(f, width, height, rev@[k + 1], rev@[k]));
                assert(path@[i - 1] == rev@[k + 1]);
            }
        }
        assert(path@.last() == rev@[0]);
        assert(path@ =~= rev@.reverse());
    }
    path
}

/// Breadth-first search from `start` to the nearest tile of `targets`
/// (other than `start` itself), moving over walkable grid tiles.
fn bfs<F: Fn(usize, usize) -> bool>(
    start: Tile,
    targets: &Vec<Tile>,
    width: usize,
    height: usize,
    is_walkable: &F,
) -> (res: Option<Vec<Tile>>)
    requires
        callable_on_grid(*is_walkable, width, height),
        deterministic(*is_walkable),
        width * height <= usize::MAX,
        !targets@.contains(start),
    ensures
        res matches Some(p) ==> {
            &&& in_grid(start, width, height)
            &&& p@.len() > 0
            &&& is_walk(*is_walkable, width, height, start, p@)
            &&& targets@.contains(p@.last())
            &&& forall|q: Seq<Tile>|
                is_walk(*is_walkable, width, height, start, q) && q.len() > 0 && targets@.contains(
                    q.last(),
                ) ==> p@.len() <= q.len()
            &&& forall|q: Seq<Tile>|
                is_walk(*is_walkable, width, height, start, q) && q.len() == p@.len()
                    && targets@.contains(q.last()) ==> lex_le(walk_dirs(start, p@), walk_dirs(start, q))
            &&& forall|i: int|
                0 <= i < p@.len() ==> call_ensures(*is_walkable, (#[trigger] p@[i].0, p@[i].1), true)
        },
        res is None ==> (!in_grid(start, width, height) || forall|q: Seq<Tile>|
            is_walk(*is_walkable, width, height, start, q) && q.len() > 0 ==> !targets@.contains(
                q.last(),
            )),
{
    if !in_bounds(start, width, height) {
        return None;
    }
    let ghost f = *is_walkable;
    let n = width * height;
    let mut visited: Vec<bool> = Vec::new();
    let mut came_from: Vec<Option<Tile>> = Vec::new();
    let mut j: usize = 0;
    while j < n
        invariant
            j <= n,
            n == width * height,
            visited@.len() == j,
            came_from@.len() == j,
            forall|i: int| 0 <= i < j ==> !visited@[i] && came_from@[i] is None,
        decreases n - j,
    {
        visited.push(false);
        came_from.push(None);
        j = j + 1;
    }
    proof {
        lemma_cell_bounds(start, width, height);
    }
    let si = start.1 * width + start.0;
    visited.set(si, true);
    let ghost mut s = Search {
        visited: visited@,
        came: came_from@,
        dist: Seq::new(n as nat, |i: int| 0nat),
        pos: Seq::new(n as nat, |i: int| 0int),
        hist: seq![start],
        head: 0,
    };
    let mut queue: VecDeque<Tile> = VecDeque::new();
    queue.push_back(start);
    proof {
        lemma_init(f, width, height, start, s);
        lemma_init_lex(f, width, height, start, s);
        assert forall|t: Tile| #![trigger s.visited[cell(t, width)]]
            in_grid(t, width, height) && s.visited[cell(t, width)] && t != start implies call_ensures(
            f,
            (t.0, t.1),
            true,
        ) by {
            lemma_cell_bounds(t, width, height);
            lemma_cell_injective(t, start, width, height);
        }
        assert(queue@ =~= s.hist.subrange(s.head, s.hist.len() as int));
    }
    loop
        invariant
            bfs_inv(f, width, height, start, s),
            s.visited == visited@,
            s.came == came_from@,
            *is_walkable == f,
            callable_on_grid(f, width, height),
            deterministic(f),
            width * height <= usize::MAX,
            n == width * height,
            !targets@.contains(start),
            s.hist.len() <= n,
            queue@ == s.hist.subrange(s.head, s.hist.len() as int),
            s.head < s.hist.len() ==> forall|i: int|
                0 <= i < s.hist.len() ==> #[trigger] s.dist[cell(s.hist[i], width)] <= s.dist[cell(
                    s.hist[s.head],
                    width,
                )] + 1,
            forall|i: int| 0 <= i < s.head ==> !targets@.contains(#[trigger] s.hist[i]),
            inv_lexmin(f, width, height, start, s),
            inv_order(width, start, s),
            parents_before(width, s, s.head),
            called(f, width, height, start, s),
        ensures
            s.head == s.hist.len(),
            bfs_inv(f, width, height, start, s),
            forall|i: int| 0 <= i < s.head ==> !targets@.contains(#[trigger] s.hist[i]),
        decreases n - s.head,
    {
        let popped = queue.pop_front();
        let cur = match popped {
            Some(c) => c,
            None => {
                break ;
            },
        };
        proof {
            assert(cur == s.hist[s.head]);
            lemma_hist_at(width, height, s, s.head);
        }
        if contains_tile(targets, cur) && !(cur.0 == start.0 && cur.1 == start.1) {
            proof {
                let d = s.dist[cell(cur, width)];
                assert forall|q: Seq<Tile>|
                    is_walk(f, width, height, start, q) && q.len() > 0 && targets@.contains(
                        q.last(),
                    ) implies d <= q.len() by {
                    if q.len() < d {
                        lemma_walk_discovered(f, width, height, start, s, q);
                        let t = q.last();
                        lemma_pos_at(width, height, s, t);
                        let jj = s.pos[cell(t, width)];
                        if jj >= s.head {
                            lemma_mono_at(width, s, s.head, jj);
                        }
                        assert(!targets@.contains(s.hist[jj]));
                    }
                }
            }
            let path = reconstruct::<F>(&came_from, start, cur, width, height, Ghost(f), Ghost(s));
            proof {
                lemma_tree_walk_called(f, width, height, start, s, cur);
                let d = s.dist[cell(cur, width)];
                assert(walk_dirs(start, path@) == tree_key(s, width, start, cur));
                assert forall|q: Seq<Tile>|
                    is_walk(f, width, height, start, q) && q.len() == path@.len() && targets@.contains(
                        q.last(),
                    ) implies lex_le(walk_dirs(start, path@), walk_dirs(start, q)) by {
                    lemma_walk_discovered(f, width, height, start, s, q);
                    let x = q.last();
                    lemma_pos_at(width, height, s, x);
                    let jj = s.pos[cell(x, width)];
                    if jj < s.head {
                        assert(!targets@.contains(s.hist[jj]));
                    }
                    lemma_mono_at(width, s, s.head, jj);
                    lemma_lexmin_at(f, width, height, start, s, jj, q);
                    if jj > s.head {
                        lemma_order_at(width, start, s, s.head, jj);
                        lemma_lex_trans(
                            tree_key(s, width, start, cur),
                            tree_key(s, width, start, x),
                            walk_dirs(start, q),
                        );
                    }
                }
            }
            return Some(path);
        }
        proof {
            lemma_cell_bounds(cur, width, height);
            if cur == start {
                assert(!targets@.contains(cur));
            }
            assert forall|i: int| s.head <= i < s.hist.len() implies s.dist[cell(cur, width)]
                <= #[trigger] s.dist[cell(s.hist[i], width)] by {
                lemma_mono_at(width, s, s.head, i);
            }
        }
        let nbrs = neighbors(cur, width, height);
        let ghost head0 = s.head;
        proof {
            assert forall|j: int| #![trigger s.hist[j]] 0 < j < s.hist.len() implies s.pos[cell(
                s.came[cell(s.hist[j], width)]->0,
                width,
            )] < s.head + 1 by {
                lemma_parents_at(width, s, s.head, j);
            }
            reveal(parents_before);
            assert forall|j: int| #![trigger s.hist[j]]
                0 < j < s.hist.len() && s.pos[cell(s.came[cell(s.hist[j], width)]->0, width)]
                    == s.head implies exists|i: int| 0 <= i < 0 && nbrs@[i] == s.hist[j] by {
                lemma_parents_at(width, s, s.head, j);
            }
        }
        let mut k: usize = 0;
        while k < nbrs.len()
            invariant
                0 <= k <= nbrs@.len(),
                bfs_inv(f, width, height, start, s),
                s.visited == visited@,
                s.came == came_from@,
                *is_walkable == f,
                callable_on_grid(f, width, height),
                deterministic(f),
                width * height <= usize::MAX,
                n == width * height,
                s.head == head0,
                s.head < s.hist.len(),
                cur == s.hist[s.head],
                in_grid(cur, width, height),
                queue@ == s.hist.subrange(s.head + 1, s.hist.len() as int),
                forall|i: int|
                    0 <= i < s.hist.len() ==> #[trigger] s.dist[cell(s.hist[i], width)] <= s.dist[cell(
                        cur,
                        width,
                    )] + 1,
                forall|i: int|
                    s.head <= i < s.hist.len() ==> s.dist[cell(cur, width)] <= #[trigger] s.dist[cell(
                        s.hist[i],
                        width,
                    )],
                forall|i: int|
                    0 <= i < nbrs@.len() ==> adjacent(#[trigger] nbrs@[i], cur) && in_grid(
                        nbrs@[i],
                        width,
                        height,
                    ),
                forall|x: Tile|
                    #![trigger adjacent(x, cur)]
                    in_grid(x, width, height) && adjacent(x, cur) ==> nbrs@.contains(x),
                !targets@.contains(cur),
                forall|i: int| 0 <= i < s.head ==> !targets@.contains(#[trigger] s.hist[i]),
                forall|i: int|
                    0 <= i < k && step_ok(f, width, height, cur, #[trigger] nbrs@[i])
                        ==> s.visited[cell(nbrs@[i], width)] && s.dist[cell(nbrs@[i], width)]
                        <= s.dist[cell(cur, width)] + 1,
                inv_lexmin(f, width, height, start, s),
                inv_order(width, start, s),
                parents_before(width, s, s.head + 1),
                called(f, width, height, start, s),
                forall|i: int, j: int|
                    0 <= i < j < nbrs@.len() ==> step_rank(cur, #[trigger] nbrs@[i]) < step_rank(
                        cur,
                        #[trigger] nbrs@[j],
                    ),
                forall|j: int|
                    #![trigger s.hist[j]]
                    0 < j < s.hist.len() && s.pos[cell(s.came[cell(s.hist[j], width)]->0, width)]
                        == s.head ==> exists|i: int| 0 <= i < k && nbrs@[i] == s.hist[j],
            decreases nbrs@.len() - k,
        {
            let t = nbrs[k];
            proof {
                lemma_cell_bounds(t, width, height);
            }
            let ti = t.1 * width + t.0;
            if !visited[ti] {
                let ok = is_walkable(t.0, t.1);
                proof {
                    lemma_walkable_result(f, t.0, t.1, ok);
                }
                if ok {
                    let ghost old_s = s;
                    visited.set(ti, true);
                    came_from.set(ti, Some(cur));
                    queue.push_back(t);
                    proof {
                        lemma_discover(f, width, height, start, old_s, cur, t);
                        assert forall|j: int|
                            0 < j < old_s.hist.len() && old_s.pos[cell(
                                old_s.came[cell(old_s.hist[j], width)]->0,
                                width,
                            )] == old_s.head implies step_rank(cur, #[trigger] old_s.hist[j])
                            < step_rank(cur, t) by {
                            let i = choose|i: int| 0 <= i < k && nbrs@[i] == old_s.hist[j];
                            assert(step_rank(cur, nbrs@[i]) < step_rank(cur, nbrs@[k as int]));
                        }
                        lemma_discover_lex(f, width, height, start, old_s, cur, t);
                        s = discovered(old_s, width, cur, t);
                        assert forall|x: Tile| #![trigger s.visited[cell(x, width)]]
                            in_grid(x, width, height) && s.visited[cell(x, width)] && x != start
                                implies call_ensures(f, (x.0, x.1), true) by {
                            lemma_cell_bounds(x, width, height);
                            if cell(x, width) == cell(t, width) {
                                lemma_cell_injective(x, t, width, height);
                            } else {
                                assert(old_s.visited[cell(x, width)]);
                            }
                        }
                        assert forall|j: int| #![trigger s.hist[j]]
                            0 < j < s.hist.len() && s.pos[cell(s.came[cell(s.hist[j], width)]->0, width)]
                                == s.head implies exists|i: int| 0 <= i < k + 1 && nbrs@[i] == s.hist[j] by {
                            if j < old_s.hist.len() {
                                assert(s.hist[j] == old_s.hist[j]);
                                assert(old_s.pos[cell(old_s.came[cell(old_s.hist[j], width)]->0, width)]
                                    == old_s.head);
                                let i = choose|i: int| 0 <= i < k && nbrs@[i] == old_s.hist[j];
                                assert(nbrs@[i] == s.hist[j]);
                            } else {
                                assert(s.hist[j] == t);
                                assert(nbrs@[k as int] == s.hist[j]);
                            }
                        }
                        assert(visited@ == s.visited);
                        assert(came_from@ == s.came);
                        assert(queue@ =~= s.hist.subrange(s.head + 1, s.hist.len() as int));
                        assert forall|i: int|
                            0 <= i < k + 1 && step_ok(f, width, height, cur, #[trigger] nbrs@[i])
                                implies s.visited[cell(nbrs@[i], width)] && s.dist[cell(
                            nbrs@[i],
                            width,
                        )] <= s.dist[cell(cur, width)] + 1 by {
                            lemma_cell_bounds(nbrs@[i], width, height);
                            if i < k {
                                assert(old_s.visited[cell(nbrs@[i], width)]);
                            } else {
                                assert(nbrs@[i] == t);
                            }
                        }
                    }
                }
            } else {
                proof {
                    lemma_pos_at(width, height, s, t);
                    let jj = s.pos[cell(t, width)];
                    assert(s.dist[cell(s.hist[jj], width)] <= s.dist[cell(cur, width)] + 1);
                }
            }
            k = k + 1;
        }
        proof {
            assert forall|x: Tile| #[trigger]
                step_ok(f, width, height, s.hist[s.head], x) implies s.visited[cell(x, width)]
                && s.dist[cell(x, width)] <= s.dist[cell(s.hist[s.head], width)] + 1 by {
                assert(adjacent(x, cur));
                assert(nbrs@.contains(x));
                let ii = choose|ii: int| 0 <= ii < nbrs@.len() && nbrs@[ii] == x;
                assert(step_ok(f, width, height, cur, nbrs@[ii]));
            }
            lemma_expanded(f, width, height, start, s);
            lemma_expanded_lex(f, width, height, start, s);
            let old_head = s.head;
            s = Search { head: s.head + 1, ..s };
            lemma_hist_fits(width, height, s);
            if s.head < s.hist.len() {
                lemma_mono_at(width, s, old_head, s.head);
                assert forall|i: int| 0 <= i < s.hist.len() implies #[trigger] s.dist[cell(
                    s.hist[i],
                    width,
                )] <= s.dist[cell(s.hist[s.head], width)] + 1 by {}
            }
            assert forall|i: int| 0 <= i < s.head implies !targets@.contains(
                #[trigger] s.hist[i],
            ) by {
                if i == old_head {
                    assert(s.hist[i] == cur);
                }
            }
        }
    }
    proof {
        assert forall|q: Seq<Tile>|
            is_walk(f, width, height, start, q) && q.len() > 0 implies !targets@.contains(
            q.last(),
        ) by {
            lemma_walk_discovered(f, width, height, start, s, q);
            let t = q.last();
            lemma_pos_at(width, height, s, t);
        }
    }
    None
}

/// `v` holds `t`.
fn contains_tile(v: &Vec<Tile>, t: Tile) -> (res: bool)
    ensures
        res == v@.contains(t),
{
    let mut i: usize = 0;
    while i < v.len()
        invariant
            0 <= i <= v@.len(),
            forall|j: int| 0 <= j < i ==> v@[j] != t,
        decreases v@.len() - i,
    {
        if v[i].0 == t.0 && v[i].1 == t.1 {
            proof {
                assert(v@[i as int] == t);
            }
            return true;
        }
        i = i + 1;
    }
    false
}

} // verus!
