//! The game as the search sees it: a finite table of positions, each with its
//! legal moves and the position every move leads to.
//!
//! Move generation, legality and hashing are owed by outside collaborators;
//! what the search reads of them is laid out here as plain values.  Edges
//! always lead to a strictly larger table index, so every line of play in the
//! table is finite, which is what bounds the search's recursion (in real play
//! capture chains are finite because captures consume material).

use vstd::prelude::*;

use crate::search::{MAX_CAPTURE_VALUE, MAX_EVAL};

verus! {

/// A single move, carrying the plain facts the search reads of it.
#[derive(Clone, Copy, Debug, PartialEq, Eq, Structural)]
pub struct Move {
    /// Square the moving piece starts on (0..64).
    pub origin: u8,
    /// Square the moving piece lands on (0..64).
    pub target: u8,
    /// Whether the move captures a piece.
    pub is_capture: bool,
    /// Whether the piece standing on `target` once the move is made is a pawn.
    pub moved_piece_is_pawn: bool,
    /// Centipawn value of the piece standing on `target` before the move; a
    /// pawn's value when the victim stands elsewhere (en passant).
    pub victim_value: i16,
}

/// A legal move of a position together with the position it leads to.
#[derive(Clone, Copy, Debug, PartialEq, Eq, Structural)]
pub struct Edge {
    /// The move itself.
    pub mv: Move,
    /// Index in the game table of the position the move leads to.
    pub child: usize,
}

/// One position of the game table.
pub struct Node {
    /// Static evaluation of the position, in centipawns, from the side to
    /// move's perspective.
    pub eval: i16,
    /// Whether the side to move is in check.
    pub in_check: bool,
    /// Plies since the last capture or pawn move.
    pub half_move_clock: u8,
    /// Zobrist-style hash of the position.
    pub hash: u64,
    /// Every legal move of the position.  Empty means checkmate or stalemate.
    pub moves: Vec<Edge>,
}

/// A finite game: positions indexed by `usize`, edges pointing forward.
pub struct Game {
    /// The position table.
    pub nodes: Vec<Node>,
}

/// Whether `m` is one of the legal moves of `n`.
pub open spec fn has_move(n: Node, m: Move) -> bool {
    exists|j: int| 0 <= j < n.moves@.len() && n.moves@[j].mv == m
}

/// Whether some position of `game` carries `hash` and admits `m`.  This is
/// exactly what the transposition table can witness of a stored best move:
/// entries are keyed by hash, and two positions may share one.
pub open spec fn legal_for_hash(game: Game, hash: u64, m: Move) -> bool {
    exists|i: int|
        0 <= i < game.nodes@.len() && game.nodes@[i].hash == hash && has_move(game.nodes@[i], m)
}

impl Game {
    /// A well-formed edge of node `i`: it stays inside the table, leads
    /// strictly forward, and its move's square and victim value are in range.
    pub open spec fn wf_edge(&self, i: int, e: Edge) -> bool {
        &&& i < e.child < self.nodes@.len()
        &&& e.mv.target < 64
        &&& 0 <= e.mv.victim_value <= MAX_CAPTURE_VALUE
    }

    /// Well-formedness of the whole table: evaluations are genuine static
    /// scores (never of checkmate magnitude) and every edge is well formed.
    pub open spec fn wf(&self) -> bool {
        forall|i: int|
            0 <= i < self.nodes@.len() ==> {
                let n = #[trigger] self.nodes@[i];
                &&& -MAX_EVAL <= n.eval <= MAX_EVAL
                &&& forall|j: int|
                    0 <= j < n.moves@.len() ==> self.wf_edge(i, #[trigger] n.moves@[j])
            }
    }
}

} // verus!
