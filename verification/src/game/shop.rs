//! Answer tiles for the shop's arithmetic: paying for an item (a
//! subtraction) and trading a pile in groups (a division).
use crate::game::{gather, lemma_gather, lemma_gathers, lemma_same_values};
use crate::rng::shuffle;
use rand::rngs::SmallRng;
use vstd::prelude::*;

verus! {

/// Which candidates may become tiles: every one, or (with `skip_zero`)
/// only those above zero. Repeats are skipped either way.
pub open spec fn tile_filter(skip_zero: bool) -> spec_fn(u32) -> bool {
    |x: u32| !skip_zero || x > 0
}

/// `a - b`, or zero when `b` is larger.
pub open spec fn sat_sub(a: u32, b: u32) -> u32 {
    if a >= b {
        (a - b) as u32
    } else {
        0
    }
}

fn contains_u32(v: &Vec<u32>, x: u32) -> (b: bool)
    ensures
        b == v@.contains(x),
{
    let mut i: usize = 0;
    while i < v.len()
        invariant
            0 <= i <= v@.len(),
            forall|j: int| 0 <= j < i ==> v@[j] != x,
        decreases v@.len() - i,
    {
        if v[i] == x {
            assert(v@[i as int] == x);
            return true;
        }
        i = i + 1;
    }
    false
}

/// Start from `out` and add the new values of `cands` in order (only those
/// above zero with `skip_zero`), up to `limit` values.
fn gather_tiles(out: Vec<u32>, cands: Vec<u32>, limit: usize, skip_zero: bool) -> (r: Vec<u32>)
    ensures
        r@ == gather(out@, cands@, limit as nat, tile_filter(skip_zero)),
{
    let mut out = out;
    let ghost start = out@;
    let mut i: usize = 0;
    proof {
        assert(cands@.skip(0) =~= cands@);
    }
    while i < cands.len()
        invariant
            0 <= i <= cands@.len(),
            gather(out@, cands@.skip(i as int), limit as nat, tile_filter(skip_zero)) == gather(
                start,
                cands@,
                limit as nat,
                tile_filter(skip_zero),
            ),
        ensures
            gather(out@, cands@.skip(i as int), limit as nat, tile_filter(skip_zero)) == gather(
                start,
                cands@,
                limit as nat,
                tile_filter(skip_zero),
            ),
            out@.len() >= limit || i == cands@.len(),
            i <= cands@.len(),
        decreases cands@.len() - i,
    {
        if out.len() >= limit {
            break;
        }
        let d = cands[i];
        proof {
            assert(cands@.skip(i as int)[0] == d);
            assert(cands@.skip(i as int).drop_first() =~= cands@.skip(i + 1));
        }
        if (!skip_zero || d > 0) && !contains_u32(&out, d) {
            out.push(d);
        }
        i = i + 1;
    }
    proof {
        assert(cands@.skip(i as int).len() == 0 || out@.len() >= limit);
    }
    out
}

/// The purchase tiles before shuffling: the remainder `balance - cost`,
/// then the slips (forgot to subtract, one over, one under, two over), new
/// values above zero only, three tiles at most.
pub open spec fn subtraction_candidates(balance: u32, cost: u32) -> Seq<u32> {
    let answer = sat_sub(balance, cost);
    gather(
        seq![answer],
        seq![balance, (answer + 1) as u32, sat_sub(answer, 1), (answer + 2) as u32],
        3,
        tile_filter(true),
    )
}

/// The trade tiles before shuffling: the quotient, then one over, one
/// under, the whole pile counted as singles, two over; new values only,
/// three tiles at most.
pub open spec fn division_candidates(answer: u32, offered: u32) -> Seq<u32> {
    gather(
        seq![answer],
        seq![(answer + 1) as u32, sat_sub(answer, 1), offered, (answer + 2) as u32],
        3,
        tile_filter(false),
    )
}

/// The tiles for "balance − cost = ?", shuffled by `rng`: the remainder and
/// two distractors above zero.
pub fn subtraction_choices(balance: u32, cost: u32, rng: &mut SmallRng) -> (v: Vec<u32>)
    requires
        sat_sub(balance, cost) + 2 <= u32::MAX,
    ensures
        v@.to_multiset() == subtraction_candidates(balance, cost).to_multiset(),
        v@.contains(sat_sub(balance, cost)),
        v@.no_duplicates(),
        v@.len() == 3,
        forall|i: int| 0 <= i < v@.len() && v@[i] != sat_sub(balance, cost) ==> v@[i] > 0,
{
    let answer = balance.saturating_sub(cost);
    let start = vec![answer];
    let cands = vec![balance, answer + 1, answer.saturating_sub(1), answer + 2];
    let ghost cs = seq![balance, (answer + 1) as u32, sat_sub(answer, 1), (answer + 2) as u32];
    proof {
        assert(start@ =~= seq![answer]);
        assert(cands@ =~= cs);
    }
    let mut v = gather_tiles(start, cands, 3, true);
    shuffle(&mut v, rng);
    proof {
        let xs = seq![(answer + 1) as u32, (answer + 2) as u32];
        assert(cs[1] == xs[0] && cs[3] == xs[1]);
        lemma_tiles(answer, cs, true, xs);
        lemma_same_values(v@, subtraction_candidates(balance, cost));
        assert forall|i: int| 0 <= i < v@.len() && v@[i] != answer implies v@[i] > 0 by {
            assert(subtraction_candidates(balance, cost).contains(v@[i]));
        }
    }
    v
}

/// The tiles for "how many groups are in this pile?", shuffled by `rng`.
pub fn division_choices(answer: u32, offered: u32, rng: &mut SmallRng) -> (v: Vec<u32>)
    requires
        answer + 2 <= u32::MAX,
    ensures
        v@.to_multiset() == division_candidates(answer, offered).to_multiset(),
        v@.contains(answer),
        v@.no_duplicates(),
        2 <= v@.len() <= 3,
{
    let start = vec![answer];
    let cands = vec![answer + 1, answer.saturating_sub(1), offered, answer + 2];
    let ghost cs = seq![(answer + 1) as u32, sat_sub(answer, 1), offered, (answer + 2) as u32];
    proof {
        assert(start@ =~= seq![answer]);
        assert(cands@ =~= cs);
    }
    let mut v = gather_tiles(start, cands, 3, false);
    shuffle(&mut v, rng);
    proof {
        let xs = seq![(answer + 1) as u32];
        assert(cs[0] == xs[0]);
        lemma_tiles(answer, cs, false, xs);
        lemma_same_values(v@, division_candidates(answer, offered));
    }
    v
}

/// Tiles gathered from the answer hold the answer, never repeat, number at
/// most three, and at least one more than the distinct accepted candidates
/// `xs` (other than the answer) that the candidates offer; every other tile
/// passes the filter.
pub proof fn lemma_tiles(answer: u32, cands: Seq<u32>, skip_zero: bool, xs: Seq<u32>)
    requires
        xs.len() <= 2,
        xs.no_duplicates(),
        forall|k: int|
            0 <= k < xs.len() ==> cands.contains(#[trigger] xs[k]) && tile_filter(skip_zero)(xs[k])
                && xs[k] != answer,
    ensures
        gather(seq![answer], cands, 3, tile_filter(skip_zero)).contains(answer),
        gather(seq![answer], cands, 3, tile_filter(skip_zero)).no_duplicates(),
        1 + xs.len() <= gather(seq![answer], cands, 3, tile_filter(skip_zero)).len() <= 3,
        forall|i: int|
            0 <= i < gather(seq![answer], cands, 3, tile_filter(skip_zero)).len() && #[trigger] gather(
                seq![answer],
                cands,
                3,
                tile_filter(skip_zero),
            )[i] != answer ==> tile_filter(skip_zero)(
                gather(seq![answer], cands, 3, tile_filter(skip_zero))[i],
            ),
{
    let keep = tile_filter(skip_zero);
    let g = gather(seq![answer], cands, 3, keep);
    lemma_gather(seq![answer], cands, 3, keep);
    assert(g.subrange(0, 1)[0] == answer);
    assert(g[0] == answer);
    assert forall|k: int| 0 <= k < xs.len() implies cands.contains(#[trigger] xs[k]) && keep(xs[k])
        && !seq![answer].contains(xs[k]) by {
        assert(xs[k] != seq![answer][0]);
    }
    lemma_gathers(seq![answer], cands, 3, keep, xs);
    assert forall|i: int| 0 <= i < g.len() && #[trigger] g[i] != answer implies keep(g[i]) by {
        if i >= 1 {
        }
    }
}

} // verus!
