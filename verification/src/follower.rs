//! Path-following for entities that trail the player.
//!
//! `Pathing` owns the queue of tiles the player walked through and decides,
//! each frame, whether the follower should hold still or step toward the next
//! queued tile. It knows nothing about rendering.
use crate::movement::{Direction, MoveIntent};
use crate::npc::facing_of;
use crate::sprites::Dir;
use vstd::prelude::*;

verus! {

/// A follower's decision for one frame.
#[derive(Clone, Copy, PartialEq, Eq, Debug, Structural)]
pub struct FollowDecision {
    pub intent: MoveIntent,
    /// Direction to face this frame, if the follower should turn. `None` keeps
    /// the current facing (used when mid-step or holding still with no signal).
    pub face: Option<Dir>,
}

impl FollowDecision {
    fn stay() -> (d: Self)
        ensures
            d == stay_decision(),
    {
        FollowDecision { intent: MoveIntent::Stay, face: None }
    }
}

/// Hold still without turning.
pub open spec fn stay_decision() -> FollowDecision {
    FollowDecision { intent: MoveIntent::Stay, face: None }
}

/// Manhattan distance between two tiles.
pub open spec fn manhattan(a: (usize, usize), b: (usize, usize)) -> int {
    (if a.0 >= b.0 { a.0 - b.0 } else { b.0 - a.0 }) + (if a.1 >= b.1 { a.1 - b.1 } else { b.1 - a.1 })
}

/// Which way to face to look from `at` toward `target`: horizontal first,
/// `None` when they share a tile.
pub open spec fn facing_toward(at: (usize, usize), target: (usize, usize)) -> Option<Dir> {
    if target.0 < at.0 {
        Some(Dir::Left)
    } else if target.0 > at.0 {
        Some(Dir::Right)
    } else if target.1 < at.1 {
        Some(Dir::Up)
    } else if target.1 > at.1 {
        Some(Dir::Down)
    } else {
        None
    }
}

/// The straight-line direction from `at` toward `next`, if they share a row
/// or a column (and are different tiles).
pub open spec fn step_toward(at: (usize, usize), next: (usize, usize)) -> Option<(Direction, Dir)> {
    if next.1 == at.1 && next.0 < at.0 {
        Some((Direction::Left, Dir::Left))
    } else if next.1 == at.1 && next.0 > at.0 {
        Some((Direction::Right, Dir::Right))
    } else if next.0 == at.0 && next.1 < at.1 {
        Some((Direction::Up, Dir::Up))
    } else if next.0 == at.0 && next.1 > at.1 {
        Some((Direction::Down, Dir::Down))
    } else {
        None
    }
}

/// The tile arithmetic of a frame's decision stays within 32-bit signed
/// numbers: the follower, the player and the next queued tile have
/// coordinates up to `i32::MAX`, and the follower-to-player distance fits.
pub open spec fn follow_in_range(
    queue: Seq<(usize, usize)>,
    at: (usize, usize),
    moving: bool,
    player_at: (usize, usize),
) -> bool {
    !moving && queue.len() > 0 ==> {
        &&& at.0 <= i32::MAX && at.1 <= i32::MAX
        &&& player_at.0 <= i32::MAX && player_at.1 <= i32::MAX
        &&& queue[0].0 <= i32::MAX && queue[0].1 <= i32::MAX
        &&& manhattan(at, player_at) <= i32::MAX
    }
}

/// The queue after one frame's decision, and the decision itself.
pub open spec fn follow_step(
    queue: Seq<(usize, usize)>,
    at: (usize, usize),
    moving: bool,
    player_at: (usize, usize),
) -> (Seq<(usize, usize)>, FollowDecision) {
    if moving || queue.len() == 0 {
        (queue, stay_decision())
    } else if manhattan(at, player_at) <= 1 {
        (Seq::empty(), FollowDecision { intent: MoveIntent::Stay, face: facing_toward(at, player_at) })
    } else if queue[0] == player_at {
        (queue.drop_first(), stay_decision())
    } else {
        match step_toward(at, queue[0]) {
            Some((dir, face)) => (queue, FollowDecision { intent: MoveIntent::Move(dir), face: Some(face) }),
            None => (queue, stay_decision()),
        }
    }
}

/// The queue after recording that the player stands on `tile`.
pub open spec fn recorded(queue: Seq<(usize, usize)>, tile: (usize, usize)) -> Seq<(usize, usize)> {
    if queue.len() > 0 && queue.last() == tile {
        queue
    } else {
        queue.push(tile)
    }
}

/// The queue after a granted move: the head entry is consumed.
pub open spec fn granted(queue: Seq<(usize, usize)>) -> Seq<(usize, usize)> {
    if queue.len() > 0 {
        queue.drop_first()
    } else {
        queue
    }
}

/// No tile follows itself in `queue`.
pub open spec fn no_stutter(queue: Seq<(usize, usize)>) -> bool {
    forall|i: int, j: int| 0 <= i && j == i + 1 && j < queue.len() ==> #[trigger] queue[i] != #[trigger] queue[j]
}

/// The tiles a follower still has to retrace, oldest first. The same tile
/// never stands twice in a row.
pub struct Pathing {
    queue: Vec<(usize, usize)>,
}

impl Default for Pathing {
    fn default() -> (p: Self)
        ensures
            p@ == Seq::<(usize, usize)>::empty(),
    {
        Pathing::new()
    }
}

impl Clone for Pathing {
    fn clone(&self) -> (p: Self)
        ensures
            p@ == self@,
    {
        proof {
            use_type_invariant(self);
        }
        let mut queue: Vec<(usize, usize)> = Vec::new();
        let mut i: usize = 0;
        while i < self.queue.len()
            invariant
                i <= self.queue@.len(),
                queue@ =~= self.queue@.subrange(0, i as int),
            decreases self.queue@.len() - i,
        {
            queue.push(self.queue[i]);
            i += 1;
        }
        proof {
            assert(queue@ =~= self.queue@);
        }
        Pathing { queue }
    }
}

impl View for Pathing {
    type V = Seq<(usize, usize)>;

    closed spec fn view(&self) -> Seq<(usize, usize)> {
        self.queue@
    }
}

impl Pathing {
    #[verifier::type_invariant]
    spec fn wf(self) -> bool {
        no_stutter(self.queue@)
    }

    pub fn new() -> (p: Self)
        ensures
            p@ == Seq::<(usize, usize)>::empty(),
    {
        Pathing { queue: Vec::new() }
    }

    /// The queued tiles, oldest first.
    pub fn queue(&self) -> (q: &Vec<(usize, usize)>)
        ensures
            q@ == self@,
            no_stutter(self@),
    {
        proof {
            use_type_invariant(self);
        }
        &self.queue
    }

    pub fn clear(&mut self)
        ensures
            final(self)@ == Seq::<(usize, usize)>::empty(),
    {
        self.queue = Vec::new();
    }

    pub fn is_empty(&self) -> (b: bool)
        ensures
            b == (self@.len() == 0),
    {
        self.queue.len() == 0
    }

    /// Record the player's current tile. Idempotent — re-recording the most
    /// recent tile is a no-op, so it's safe to call every frame.
    pub fn record_player_pos(&mut self, tx: usize, ty: usize)
        ensures
            final(self)@ == recorded(old(self)@, (tx, ty)),
    {
        proof {
            use_type_invariant(&*self);
        }
        let n = self.queue.len();
        if n > 0 && self.queue[n - 1].0 == tx && self.queue[n - 1].1 == ty {
            return;
        }
        let mut q = Vec::new();
        std::mem::swap(&mut q, &mut self.queue);
        q.push((tx, ty));
        self.queue = q;
    }

    /// Decide what the follower at `at` wants to do this frame, given the
    /// player is at `player_at`. `moving` is true if the follower is mid-step.
    ///
    /// Does NOT pop the queue on Move — the apply phase calls `on_move_granted`
    /// after the resolver, so a denied move retries on the next frame.
    pub fn next_intent(
        &mut self,
        at: (usize, usize),
        moving: bool,
        player_at: (usize, usize),
    ) -> (d: FollowDecision)
        requires
            follow_in_range(old(self)@, at, moving, player_at),
        ensures
            (final(self)@, d) == follow_step(old(self)@, at, moving, player_at),
    {
        proof {
            use_type_invariant(&*self);
        }
        if moving || self.queue.len() == 0 {
            return FollowDecision::stay();
        }
        // Already adjacent: drop any backlog, just face the player.
        let dx_abs = if at.0 >= player_at.0 { at.0 - player_at.0 } else { player_at.0 - at.0 };
        let dy_abs = if at.1 >= player_at.1 { at.1 - player_at.1 } else { player_at.1 - at.1 };
        if dx_abs <= 1 && dy_abs <= 1 - dx_abs {
            self.queue = Vec::new();
            let face = if player_at.0 < at.0 {
                Some(Dir::Left)
            } else if player_at.0 > at.0 {
                Some(Dir::Right)
            } else if player_at.1 < at.1 {
                Some(Dir::Up)
            } else if player_at.1 > at.1 {
                Some(Dir::Down)
            } else {
                None
            };
            return FollowDecision { intent: MoveIntent::Stay, face };
        }
        // Peek the next queue entry. Don't pop -- the apply phase pops on grant.
        let (nx, ny) = self.queue[0];
        if nx == player_at.0 && ny == player_at.1 {
            // Next step would land on the player. Skip it; try again next frame.
            self.drop_head();
            return FollowDecision::stay();
        }
        if ny == at.1 && nx < at.0 {
            FollowDecision { intent: MoveIntent::Move(Direction::Left), face: Some(Dir::Left) }
        } else if ny == at.1 && nx > at.0 {
            FollowDecision { intent: MoveIntent::Move(Direction::Right), face: Some(Dir::Right) }
        } else if nx == at.0 && ny < at.1 {
            FollowDecision { intent: MoveIntent::Move(Direction::Up), face: Some(Dir::Up) }
        } else if nx == at.0 && ny > at.1 {
            FollowDecision { intent: MoveIntent::Move(Direction::Down), face: Some(Dir::Down) }
        } else {
            FollowDecision::stay()
        }
    }

    /// Call after the resolver grants a Move for this follower so the queue
    /// advances. Denied moves don't pop, so the follower retries next frame.
    pub fn on_move_granted(&mut self)
        ensures
            final(self)@ == granted(old(self)@),
    {
        proof {
            use_type_invariant(&*self);
        }
        if self.queue.len() > 0 {
            self.drop_head();
        }
    }

    /// Drop the oldest queued tile.
    fn drop_head(&mut self)
        requires
            old(self)@.len() > 0,
        ensures
            final(self)@ == old(self)@.drop_first(),
    {
        proof {
            use_type_invariant(&*self);
        }
        let mut q = Vec::new();
        std::mem::swap(&mut q, &mut self.queue);
        q.remove(0);
        proof {
            assert(q@ =~= old(self)@.drop_first());
            assert forall|i: int, j: int| 0 <= i && j == i + 1 && j < q@.len() implies #[trigger] q@[i] != #[trigger] q@[j] by {
                assert(q@[i] == old(self)@[i + 1]);
                assert(q@[j] == old(self)@[j + 1]);
            }
        }
        self.queue = q;
    }
}

/// Recording the same tile twice in a row is the same as recording it once.
pub proof fn lemma_record_idempotent(queue: Seq<(usize, usize)>, tile: (usize, usize))
    ensures
        recorded(recorded(queue, tile), tile) == recorded(queue, tile),
{
}

/// After recording a tile, it is the last entry of the queue.
pub proof fn lemma_record_ends_with(queue: Seq<(usize, usize)>, tile: (usize, usize))
    ensures
        recorded(queue, tile).len() > 0,
        recorded(queue, tile).last() == tile,
{
}

/// A frame's decision never lengthens the queue, and only ever drops entries
/// from its front: a move is not consumed until the resolver grants it.
pub proof fn lemma_follow_step_only_consumes(
    queue: Seq<(usize, usize)>,
    at: (usize, usize),
    moving: bool,
    player_at: (usize, usize),
)
    ensures
        ({
            let (q2, d) = follow_step(queue, at, moving, player_at);
            &&& q2.len() <= queue.len()
            &&& q2 =~= queue.subrange(queue.len() - q2.len(), queue.len() as int)
            &&& (d.intent is Move ==> q2 == queue)
        }),
{
}

/// The tile one step from `at` in direction `d`.
pub open spec fn stepped(at: (usize, usize), d: Direction) -> (int, int) {
    match d {
        Direction::Up => (at.0 as int, at.1 - 1),
        Direction::Down => (at.0 as int, at.1 + 1),
        Direction::Left => (at.0 - 1, at.1 as int),
        Direction::Right => (at.0 + 1, at.1 as int),
    }
}

/// Manhattan distance from a point to a tile.
pub open spec fn gap_to(a: (int, int), b: (usize, usize)) -> int {
    (if a.0 >= b.0 { a.0 - b.0 } else { b.0 - a.0 }) + (if a.1 >= b.1 { a.1 - b.1 } else { b.1 - a.1 })
}

/// A follower only ever steps toward the head of its queue, and turns to
/// face where it steps: the tile one step in the move's direction is
/// strictly closer to the queued tile than the follower is. It moves at
/// all only when it is standing still, has a queue, the player is more than
/// one step away and the head is not the player's tile; and then, when the
/// head shares its row or column, it does move.
pub proof fn lemma_follow_steps_toward_head(
    queue: Seq<(usize, usize)>,
    at: (usize, usize),
    moving: bool,
    player_at: (usize, usize),
)
    ensures
        ({
            let (q2, d) = follow_step(queue, at, moving, player_at);
            &&& d.intent matches MoveIntent::Move(dir) ==> {
                &&& !moving && queue.len() > 0 && manhattan(at, player_at) > 1 && queue[0] != player_at
                &&& gap_to(stepped(at, dir), queue[0]) < gap_to((at.0 as int, at.1 as int), queue[0])
                &&& d.face == Some(facing_of(dir))
            }
            &&& (!moving && queue.len() > 0 && manhattan(at, player_at) > 1 && queue[0] != player_at
                && queue[0] != at && (queue[0].0 == at.0 || queue[0].1 == at.1)) ==> d.intent is Move
        }),
{
}

/// A granted move retires the oldest queued tile and nothing else: the
/// tiles still to retrace keep their order, and the newest one stays last.
/// Recording the player's tile and then retiring it leaves an empty queue
/// as it was.
pub proof fn lemma_grant_retires_oldest(queue: Seq<(usize, usize)>, tile: (usize, usize))
    ensures
        queue.len() > 0 ==> granted(queue).len() + 1 == queue.len(),
        forall|i: int| 0 <= i < granted(queue).len() ==> #[trigger] granted(queue)[i] == queue[i + 1],
        queue.len() > 1 ==> granted(queue).last() == queue.last(),
        granted(recorded(Seq::empty(), tile)).len() == 0,
{
}

} // verus!
