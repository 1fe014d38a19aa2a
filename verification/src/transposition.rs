//! The transposition table: a fixed-capacity cache from position hash to the
//! score, bound kind, best move and depth last computed for that hash.
//! Slots are picked by hash modulo capacity and simply overwritten on
//! collision; staleness policy beyond that is the caller's business.

use vstd::prelude::*;

use vstd::pervasive::VecAdditionalExecFns;

use crate::game::{Game, Move, has_move};
use crate::search::{MAX_SCORE, MIN_SCORE, Score};

verus! {

/// One cached search outcome, keyed by position hash.
#[derive(Clone, Copy, Debug)]
pub struct TranspositionEntry {
    /// Hash of the position the entry was computed for.
    pub hash: u64,
    /// Best move found at that position.
    pub best_move: Move,
    /// Score and bound kind the search settled on.
    pub score: Score,
    /// Remaining depth the entry was computed at.
    pub ply: u8,
}

/// Fixed-capacity hash-keyed cache of search outcomes.
pub struct TranspositionTable {
    /// One slot per `hash % capacity` value.
    pub entries: Vec<Option<TranspositionEntry>>,
}

impl TranspositionTable {
    /// The slot `hash` maps to.
    pub open spec fn slot(&self, hash: u64) -> int {
        hash as int % self.entries@.len() as int
    }

    /// The entry stored for `hash`, if its slot holds exactly that hash.
    pub open spec fn lookup(&self, hash: u64) -> Option<TranspositionEntry> {
        if self.entries@.len() == 0 {
            None
        } else {
            match self.entries@[self.slot(hash)] {
                Some(e) => if e.hash == hash {
                    Some(e)
                } else {
                    None
                },
                None => None,
            }
        }
    }

    /// Every stored entry carries a representable score and a best move that
    /// is legal in some position of `game` bearing the entry's hash — all a
    /// hash-keyed cache can promise, since distinct positions may share one.
    pub open spec fn wf_for(&self, game: Game) -> bool {
        &&& self.entries@.len() >= 1
        &&& forall|s: int|
            0 <= s < self.entries@.len() ==> match #[trigger] self.entries@[s] {
                Some(e) => {
                    &&& MIN_SCORE <= e.score.spec_inner() <= MAX_SCORE
                    &&& exists|i: int|
                        0 <= i < game.nodes@.len() && game.nodes@[i].hash == e.hash && has_move(
                            game.nodes@[i],
                            e.best_move,
                        )
                },
                None => true,
            }
    }

    /// An empty table of `capacity` slots.
    pub fn new(capacity: usize) -> (t: Self)
        requires
            capacity >= 1,
        ensures
            t.entries@.len() == capacity,
            forall|s: int| 0 <= s < t.entries@.len() ==> #[trigger] t.entries@[s] is None,
            forall|g: Game| t.wf_for(g),
    {
        let mut entries: Vec<Option<TranspositionEntry>> = Vec::new();
        let mut i: usize = 0;
        while i < capacity
            invariant
                i <= capacity,
                entries@.len() == i,
                forall|s: int| 0 <= s < i ==> #[trigger] entries@[s] is None,
            decreases capacity - i,
        {
            entries.push(None);
            i = i + 1;
        }
        Self { entries }
    }

    /// Reads the entry cached for `hash`, if any.
    pub fn get(&self, hash: u64) -> (r: Option<TranspositionEntry>)
        requires
            self.entries@.len() >= 1,
        ensures
            r == self.lookup(hash),
    {
        let capacity = self.entries.len();
        let index = (hash % (capacity as u64)) as usize;
        match self.entries[index] {
            Some(e) => if e.hash == hash {
                Some(e)
            } else {
                None
            },
            None => None,
        }
    }

    /// Stores `entry` in the slot its hash maps to, overwriting whatever was
    /// there.
    pub fn insert(&mut self, entry: TranspositionEntry)
        requires
            old(self).entries@.len() >= 1,
        ensures
            final(self).entries@ == old(self).entries@.update(
                old(self).slot(entry.hash),
                Some(entry),
            ),
    {
        let capacity = self.entries.len();
        let index = (entry.hash % (capacity as u64)) as usize;
        self.entries.set(index, Some(entry));
    }
}

} // verus!
