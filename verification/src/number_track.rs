//! Embodied number line — Shelly's pearl stones, laid into the world as
//! terrain the kid leaps across. This module is the data (which tiles are
//! stones on which map, and what a pearl there is worth).
//!
//! The stones sit every other tile with a rip current in the gaps, so walking
//! the path is impossible — the only way along it is a leap.
use crate::chars::str_eq;
use vstd::prelude::*;

verus! {

/// A chain of numbered stones. `tiles[i]` is the stone for mark `i`, in order,
/// spaced `STONE_SPACING` tiles apart with current between them. `clam` is
/// where Shelly perches and calls out the trip; `payout` is what one of her
/// pearls is worth here.
pub struct NumberTrack {
    pub id: &'static str,
    pub tiles: &'static [(usize, usize)],
    pub clam: (usize, usize),
    pub payout: u32,
}

/// Tiles between consecutive stones.
pub const STONE_SPACING: usize = 2;

/// The first position of `tile` in `tiles`, if any.
pub open spec fn first_index_of(tiles: Seq<(usize, usize)>, tile: (usize, usize)) -> Option<int> {
    if tiles.contains(tile) {
        Some(choose|i: int| 0 <= i < tiles.len() && tiles[i] == tile && forall|j: int| 0 <= j < i ==> tiles[j] != tile)
    } else {
        None
    }
}

/// The current tiles strictly between two stones of one row.
pub open spec fn gap_run(a: (usize, usize), b: (usize, usize)) -> Seq<(usize, usize)> {
    let lo: int = if a.0 <= b.0 { a.0 as int } else { b.0 as int };
    let hi: int = if a.0 <= b.0 { b.0 as int } else { a.0 as int };
    Seq::new(if hi - lo - 1 > 0 { (hi - lo - 1) as nat } else { 0nat }, |k: int| ((lo + 1 + k) as usize, a.1))
}

/// All the current tiles of a path, pair of stones by pair of stones.
pub open spec fn gaps(tiles: Seq<(usize, usize)>) -> Seq<(usize, usize)>
    decreases tiles.len(),
{
    if tiles.len() < 2 {
        Seq::empty()
    } else {
        gaps(tiles.drop_last()) + gap_run(tiles[tiles.len() - 2], tiles[tiles.len() - 1])
    }
}

/// The reef's stones: thirteen marks, every other tile along row 13.
pub open spec fn reef_stones() -> Seq<(usize, usize)> {
    seq![
        (5usize, 13usize), (7, 13), (9, 13), (11, 13), (13, 13), (15, 13), (17, 13),
        (19, 13), (21, 13), (23, 13), (25, 13), (27, 13), (29, 13),
    ]
}

/// The trench's stones: eight marks, every other tile along row 8.
pub open spec fn trench_stones() -> Seq<(usize, usize)> {
    seq![(4usize, 8usize), (6, 8), (8, 8), (10, 8), (12, 8), (14, 8), (16, 8), (18, 8)]
}

impl NumberTrack {
    /// Mark (index) of `tile` on this path, or `None` if it isn't a stone.
    pub fn index_of(&self, tile: (usize, usize)) -> (r: Option<usize>)
        ensures
            r is None <==> !self.tiles@.contains(tile),
            r matches Some(i) ==> i < self.tiles@.len() && self.tiles@[i as int] == tile && forall|
                j: int,
            | 0 <= j < i ==> self.tiles@[j] != tile,
    {
        let mut i: usize = 0;
        while i < self.tiles.len()
            invariant
                0 <= i <= self.tiles@.len(),
                forall|j: int| 0 <= j < i ==> self.tiles@[j] != tile,
            decreases self.tiles@.len() - i,
        {
            if self.tiles[i].0 == tile.0 && self.tiles[i].1 == tile.1 {
                return Some(i);
            }
            i = i + 1;
        }
        None
    }

    /// The highest mark on the path — the ceiling any generated trip fits in.
    pub fn max_mark(&self) -> (m: u8)
        ensures
            m as int == (if self.tiles@.len() > 0 { self.tiles@.len() - 1 } else { 0 }) % 256,
    {
        let n = self.tiles.len();
        let top = if n > 0 { n - 1 } else { 0 };
        (top % 256) as u8
    }

    /// The tiles between the stones, which the map paints as rip current.
    /// Derived from the stones themselves so the terrain can never drift out
    /// of step with the path.
    pub fn current_tiles(&self) -> (out: Vec<(usize, usize)>)
        ensures
            out@ == gaps(self.tiles@),
    {
        let mut gaps_out: Vec<(usize, usize)> = Vec::new();
        let n = self.tiles.len();
        if n < 2 {
            proof {
                assert(gaps(self.tiles@) =~= Seq::<(usize, usize)>::empty());
            }
            return gaps_out;
        }
        let mut i: usize = 1;
        proof {
            assert(gaps(self.tiles@.subrange(0, 1)) =~= Seq::<(usize, usize)>::empty());
        }
        while i < n
            invariant
                n == self.tiles@.len(),
                1 <= i <= n,
                gaps_out@ == gaps(self.tiles@.subrange(0, i as int)),
            decreases n - i,
        {
            let a = self.tiles[i - 1];
            let b = self.tiles[i];
            let (lo, hi) = if a.0 <= b.0 { (a.0, b.0) } else { (b.0, a.0) };
            let ghost before = gaps_out@;
            if lo < hi {
                let mut x = lo + 1;
                proof {
                    assert(gaps_out@ =~= before + gap_run(a, b).subrange(0, 0));
                }
                while x < hi
                    invariant
                        lo < hi,
                        lo + 1 <= x <= hi,
                        lo == (if a.0 <= b.0 { a.0 } else { b.0 }),
                        hi == (if a.0 <= b.0 { b.0 } else { a.0 }),
                        gaps_out@ == before + gap_run(a, b).subrange(0, x - lo - 1),
                    decreases hi - x,
                {
                    gaps_out.push((x, a.1));
                    x = x + 1;
                    proof {
                        assert(gaps_out@ =~= before + gap_run(a, b).subrange(0, x - lo - 1));
                    }
                }
                proof {
                    assert(gap_run(a, b).subrange(0, x - lo - 1) =~= gap_run(a, b));
                }
            } else {
                proof {
                    assert(gap_run(a, b) =~= Seq::<(usize, usize)>::empty());
                    assert(gaps_out@ =~= before + gap_run(a, b));
                }
            }
            proof {
                let prefix = self.tiles@.subrange(0, i + 1);
                assert(prefix.drop_last() =~= self.tiles@.subrange(0, i as int));
                assert(prefix[prefix.len() - 2] == a);
                assert(prefix[prefix.len() - 1] == b);
            }
            i = i + 1;
        }
        proof {
            assert(self.tiles@.subrange(0, n as int) =~= self.tiles@);
        }
        gaps_out
    }
}

/// Shelly's pearl path for `map_id`, if it has one.
pub fn track_for_map(map_id: &str) -> (r: Option<NumberTrack>)
    ensures
        map_id@ == "reef"@ ==> (r matches Some(t) && t.id@ == "reef_path_1"@ && t.tiles@
            == reef_stones() && t.clam == (3usize, 13usize) && t.payout == 1),
        map_id@ == "trench"@ ==> (r matches Some(t) && t.id@ == "trench_path_1"@ && t.tiles@
            == trench_stones() && t.clam == (2usize, 8usize) && t.payout == 2),
        map_id@ != "reef"@ && map_id@ != "trench"@ ==> r is None,
{
    proof {
        reveal_strlit("reef");
        reveal_strlit("trench");
        assert("trench"@.len() != "reef"@.len());
    }
    if str_eq(map_id, "reef") {
        let tiles: &'static [(usize, usize)] = &[
            (5, 13), (7, 13), (9, 13), (11, 13), (13, 13), (15, 13), (17, 13),
            (19, 13), (21, 13), (23, 13), (25, 13), (27, 13), (29, 13),
        ];
        proof {
            assert(tiles@ =~= reef_stones());
        }
        Some(NumberTrack { id: "reef_path_1", tiles, clam: (3, 13), payout: 1 })
    } else if str_eq(map_id, "trench") {
        let tiles: &'static [(usize, usize)] = &[
            (4, 8), (6, 8), (8, 8), (10, 8), (12, 8), (14, 8), (16, 8), (18, 8),
        ];
        proof {
            assert(tiles@ =~= trench_stones());
        }
        Some(NumberTrack { id: "trench_path_1", tiles, clam: (2, 8), payout: 2 })
    } else {
        None
    }
}

/// Stones run along one row, each `STONE_SPACING` tiles east of the last.
pub open spec fn evenly_spaced(tiles: Seq<(usize, usize)>) -> bool {
    forall|i: int|
        0 <= i < tiles.len() - 1 ==> #[trigger] tiles[i + 1].1 == tiles[i].1 && tiles[i + 1].0
            == tiles[i].0 + STONE_SPACING
}

proof fn lemma_closed_form(tiles: Seq<(usize, usize)>, j: int)
    requires
        evenly_spaced(tiles),
        0 <= j < tiles.len(),
    ensures
        tiles[j].0 == tiles[0].0 + 2 * j,
        tiles[j].1 == tiles[0].1,
    decreases j,
{
    if j > 0 {
        lemma_closed_form(tiles, j - 1);
        assert(tiles[(j - 1) + 1].1 == tiles[j - 1].1);
    }
}

/// The current of an evenly spaced path is exactly one tile between each pair
/// of stones — the tile just east of each stone but the last — and it never
/// covers a stone, so the path can only be leapt, never walked.
#[verifier::spinoff_prover]
pub proof fn lemma_gaps_of_evenly_spaced(tiles: Seq<(usize, usize)>)
    requires
        evenly_spaced(tiles),
        tiles.len() >= 1,
    ensures
        gaps(tiles).len() == tiles.len() - 1,
        forall|i: int|
            0 <= i < tiles.len() - 1 ==> #[trigger] gaps(tiles)[i] == ((tiles[i].0 + 1) as usize, tiles[i].1),
        forall|g: (usize, usize)| gaps(tiles).contains(g) ==> !tiles.contains(g),
    decreases tiles.len(),
{
    if tiles.len() >= 2 {
        let init = tiles.drop_last();
        assert(evenly_spaced(init)) by {
            assert forall|i: int| 0 <= i < init.len() - 1 implies #[trigger] init[i + 1].1 == init[i].1
                && init[i + 1].0 == init[i].0 + STONE_SPACING by {
                assert(tiles[i + 1].1 == tiles[i].1);
            }
        }
        lemma_gaps_of_evenly_spaced(init);
        let n = tiles.len();
        let a = tiles[n - 2];
        let b = tiles[n - 1];
        assert(tiles[(n - 2) + 1].1 == tiles[n - 2].1);
        assert(gap_run(a, b) =~= seq![((a.0 + 1) as usize, a.1)]);
        assert forall|i: int| 0 <= i < tiles.len() - 1 implies #[trigger] gaps(tiles)[i] == (
        (tiles[i].0 + 1) as usize, tiles[i].1) by {
            if i < n - 2 {
                assert(gaps(init)[i] == ((init[i].0 + 1) as usize, init[i].1));
            }
        }
        assert forall|g: (usize, usize)| gaps(tiles).contains(g) implies !tiles.contains(g) by {
            let i = choose|i: int| 0 <= i < gaps(tiles).len() && gaps(tiles)[i] == g;
            assert(gaps(tiles)[i] == ((tiles[i].0 + 1) as usize, tiles[i].1));
            assert(tiles[i + 1].1 == tiles[i].1);
            lemma_closed_form(tiles, i);
            if tiles.contains(g) {
                let j = choose|j: int| 0 <= j < tiles.len() && tiles[j] == g;
                lemma_closed_form(tiles, j);
            }
        }
    } else {
        assert(gaps(tiles) =~= Seq::<(usize, usize)>::empty());
    }
}

/// On an evenly spaced path no two stones share a tile, so every stone's
/// mark is its own position: `index_of(tiles[i])` finds `i`.
pub proof fn lemma_stones_are_distinct(tiles: Seq<(usize, usize)>)
    requires
        evenly_spaced(tiles),
    ensures
        tiles.no_duplicates(),
        forall|i: int| 0 <= i < tiles.len() ==> first_index_of(tiles, #[trigger] tiles[i]) == Some(i),
{
    assert forall|i: int, j: int| 0 <= i < tiles.len() && 0 <= j < tiles.len() && i != j implies tiles[i]
        != tiles[j] by {
        lemma_closed_form(tiles, i);
        lemma_closed_form(tiles, j);
    }
    assert forall|i: int| 0 <= i < tiles.len() implies first_index_of(tiles, #[trigger] tiles[i]) == Some(i) by {
        assert(tiles.contains(tiles[i]));
        let k = choose|k: int| 0 <= k < tiles.len() && tiles[k] == tiles[i] && forall|j: int| 0 <= j < k ==> tiles[j] != tiles[i];
        assert(0 <= i < tiles.len() && tiles[i] == tiles[i] && forall|j: int| 0 <= j < i ==> tiles[j] != tiles[i]);
        if k != i {
            lemma_closed_form(tiles, i);
            lemma_closed_form(tiles, k);
        }
    }
}

/// Both shipped pearl paths are evenly spaced, leave Shelly's perch off the
/// stones, and hold at least five stones.
pub proof fn lemma_shipped_tracks()
    ensures
        evenly_spaced(reef_stones()),
        evenly_spaced(trench_stones()),
        !reef_stones().contains((3usize, 13usize)),
        !trench_stones().contains((2usize, 8usize)),
        reef_stones().len() >= 5,
        trench_stones().len() >= 5,
{
    assert forall|i: int| 0 <= i < reef_stones().len() implies #[trigger] reef_stones()[i].0 >= 5 by {}
    assert forall|i: int| 0 <= i < trench_stones().len() implies #[trigger] trench_stones()[i].0 >= 4 by {}
}

} // verus!
