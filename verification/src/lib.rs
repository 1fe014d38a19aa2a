//! Move-search core of a two-player chess engine: recursive negamax with
//! alpha-beta pruning, quiescence extension, search-depth extensions and a
//! transposition-table cache, together with the positional evaluation terms
//! it is tuned against.
//!
//! Move generation, board hashing and the static evaluator proper are outside
//! collaborators; the search consumes them as plain data: a [`game::Game`]
//! table lists, for every reachable position, its legal moves, successor
//! positions, hash, half-move clock and static evaluation.

pub mod board;
pub mod game;
pub mod move_ordering;
pub mod positioning;
pub mod search;
pub mod tables;
pub mod transposition;
