//! Move ordering: the hash move first, then the killer move, then the rest.
//! Ordering is a heuristic only — it decides how fast the search prunes,
//! never what it concludes — so the one promise made is that exactly the
//! given moves come out, each of them one of the moves that went in.

use vstd::prelude::*;

use vstd::pervasive::VecAdditionalExecFns;

use crate::game::{Edge, Move};

verus! {

/// How many plies from the root a killer move can be remembered for.
pub const KILLER_TABLE_SIZE: usize = 256;

/// Per-depth cache of quiet moves that caused a beta cutoff elsewhere, used
/// purely to bias move order.
pub struct KillerTable {
    /// One remembered move per depth.
    pub killers: Vec<Option<Move>>,
}

impl KillerTable {
    /// The table always covers every reachable depth.
    pub open spec fn wf(&self) -> bool {
        self.killers@.len() == KILLER_TABLE_SIZE
    }

    /// An empty killer table.
    pub fn new() -> (t: Self)
        ensures
            t.wf(),
            forall|d: int| 0 <= d < t.killers@.len() ==> #[trigger] t.killers@[d] is None,
    {
        let mut killers: Vec<Option<Move>> = Vec::new();
        let mut i: usize = 0;
        while i < KILLER_TABLE_SIZE
            invariant
                i <= KILLER_TABLE_SIZE,
                killers@.len() == i,
                forall|d: int| 0 <= d < i ==> #[trigger] killers@[d] is None,
            decreases KILLER_TABLE_SIZE - i,
        {
            killers.push(None);
            i = i + 1;
        }
        Self { killers }
    }

    /// The killer remembered at `depth`, if any.
    pub fn get(&self, depth: u8) -> (r: Option<Move>)
        requires
            self.wf(),
        ensures
            r == self.killers@[depth as int],
    {
        self.killers[depth as usize]
    }

    /// Remembers `m` as the killer at `depth`.
    pub fn insert(&mut self, depth: u8, m: Move)
        requires
            old(self).wf(),
        ensures
            final(self).wf(),
            final(self).killers@ == old(self).killers@.update(depth as int, Some(m)),
    {
        self.killers.set(depth as usize, Some(m));
    }
}

/// The first index at or past `start` whose edge plays `m`, if any.
fn find_move(edges: &Vec<Edge>, start: usize, m: Move) -> (r: Option<usize>)
    requires
        start <= edges@.len(),
    ensures
        match r {
            Some(i) => start <= i < edges@.len() && edges@[i as int].mv == m,
            None => true,
        },
{
    let mut i: usize = start;
    while i < edges.len()
        invariant
            start <= i <= edges@.len(),
        decreases edges@.len() - i,
    {
        if edges[i].mv == m {
            return Some(i);
        }
        i = i + 1;
    }
    None
}

/// Produces the given moves in search priority order: the hash move first
/// when it is among them, then the killer move, then the rest in the order
/// they were generated.
pub fn order_moves(moves: &Vec<Edge>, hash_move: Option<Move>, killer: Option<Move>) -> (ordered:
    Vec<Edge>)
    ensures
        ordered@.len() == moves@.len(),
        forall|i: int| 0 <= i < ordered@.len() ==> moves@.contains(#[trigger] ordered@[i]),
        forall|e: Edge| moves@.contains(e) ==> ordered@.contains(e),
{
    let mut ordered: Vec<Edge> = Vec::new();
    let mut i: usize = 0;
    while i < moves.len()
        invariant
            i <= moves@.len(),
            ordered@.len() == i,
            forall|k: int| 0 <= k < i ==> ordered@[k] == moves@[k],
            forall|k: int| 0 <= k < ordered@.len() ==> moves@.contains(#[trigger] ordered@[k]),
        decreases moves@.len() - i,
    {
        let e = moves[i];
        proof {
            assert(moves@[i as int] == e);
            assert(moves@.contains(e));
        }
        ordered.push(e);
        i = i + 1;
    }
    proof {
        assert forall|e: Edge| moves@.contains(e) implies ordered@.contains(e) by {
            let k = choose|k: int| 0 <= k < moves@.len() && moves@[k] == e;
            assert(ordered@[k] == e);
        }
    }

    let mut placed: usize = 0;
    if let Some(hm) = hash_move {
        if placed < ordered.len() {
            if let Some(at) = find_move(&ordered, placed, hm) {
                bring_forward(&mut ordered, placed, at, moves);
                placed = placed + 1;
            }
        }
    }
    if let Some(km) = killer {
        if placed < ordered.len() {
            if let Some(at) = find_move(&ordered, placed, km) {
                bring_forward(&mut ordered, placed, at, moves);
            }
        }
    }
    ordered
}

/// Swaps the edge at `at` into position `to`, keeping length and membership
/// both ways.
fn bring_forward(ordered: &mut Vec<Edge>, to: usize, at: usize, moves: &Vec<Edge>)
    requires
        to <= at < old(ordered)@.len(),
        forall|k: int| 0 <= k < old(ordered)@.len() ==> moves@.contains(#[trigger] old(ordered)@[k]),
        forall|e: Edge| moves@.contains(e) ==> old(ordered)@.contains(e),
    ensures
        final(ordered)@.len() == old(ordered)@.len(),
        forall|k: int|
            0 <= k < final(ordered)@.len() ==> moves@.contains(#[trigger] final(ordered)@[k]),
        forall|e: Edge| moves@.contains(e) ==> final(ordered)@.contains(e),
{
    let a = ordered[to];
    let b = ordered[at];
    ordered.set(to, b);
    ordered.set(at, a);
    proof {
        assert forall|k: int| 0 <= k < ordered@.len() implies moves@.contains(
            #[trigger] ordered@[k],
        ) by {
            if k == to as int {
                assert(ordered@[k] == old(ordered)@[at as int]);
            } else if k == at as int {
                assert(ordered@[k] == old(ordered)@[to as int]);
            } else {
                assert(ordered@[k] == old(ordered)@[k]);
            }
        }
        assert forall|e: Edge| moves@.contains(e) implies ordered@.contains(e) by {
            let k = choose|k: int| 0 <= k < old(ordered)@.len() && old(ordered)@[k] == e;
            if k == to as int {
                assert(ordered@[at as int] == e);
            } else if k == at as int {
                assert(ordered@[to as int] == e);
            } else {
                assert(ordered@[k] == e);
            }
        }
    }
}

} // verus!
