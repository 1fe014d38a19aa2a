//! Board primitives the positional evaluation reads: the two sides, the six
//! piece kinds, and square sets.  Squares are numbered rank-major, index
//! `8 * rank + file`, with White's back rank at rank 0 and promotion ranks
//! at 0 and 7.

use vstd::prelude::*;

use vstd::pervasive::VecAdditionalExecFns;

verus! {

/// The two sides.
#[derive(Clone, Copy, Debug, PartialEq, Eq, Structural)]
pub enum Color {
    /// The side whose pawns advance toward rank 7.
    White,
    /// The side whose pawns advance toward rank 0.
    Black,
}

impl Color {
    /// The other side.
    pub open spec fn spec_opposite(&self) -> Color {
        match *self {
            Color::White => Color::Black,
            Color::Black => Color::White,
        }
    }

    /// The other side.
    pub fn opposite(&self) -> (c: Color)
        ensures
            c == self.spec_opposite(),
    {
        match self {
            Color::White => Color::Black,
            Color::Black => Color::White,
        }
    }
}

/// The six piece kinds.
#[derive(Clone, Copy, Debug, PartialEq, Eq, Structural)]
pub enum Piece {
    /// A pawn.
    Pawn,
    /// A knight.
    Knight,
    /// A bishop.
    Bishop,
    /// A rook.
    Rook,
    /// A queen.
    Queen,
    /// The king.
    King,
}

/// Conventional centipawn value of a piece.  The king is never capturable,
/// so it carries no material value.
pub open spec fn spec_value_of_piece(piece: Piece) -> int {
    match piece {
        Piece::Pawn => 100,
        Piece::Knight => 300,
        Piece::Bishop => 300,
        Piece::Rook => 500,
        Piece::Queen => 900,
        Piece::King => 0,
    }
}

/// Conventional centipawn value of a piece.
pub fn value_of_piece(piece: Piece) -> (v: i16)
    ensures
        v as int == spec_value_of_piece(piece),
{
    match piece {
        Piece::Pawn => 100,
        Piece::Knight => 300,
        Piece::Bishop => 300,
        Piece::Rook => 500,
        Piece::Queen => 900,
        Piece::King => 0,
    }
}

/// The rank (0..8) of a square index.
pub open spec fn rank_of(square: int) -> int {
    square / 8
}

/// The file (0..8) of a square index.
pub open spec fn file_of(square: int) -> int {
    square % 8
}

/// A set of the 64 squares.
pub struct Board {
    /// One flag per square, rank-major.
    pub squares: Vec<bool>,
}

impl Board {
    /// The set always covers exactly the 64 squares.
    pub open spec fn wf(&self) -> bool {
        self.squares@.len() == 64
    }

    /// Whether square `i` is in the set.
    pub open spec fn has(&self, i: int) -> bool {
        0 <= i < 64 && self.squares@[i]
    }

    /// The empty set of squares.
    pub fn empty() -> (b: Board)
        ensures
            b.wf(),
            forall|i: int| !b.has(i),
    {
        let mut squares: Vec<bool> = Vec::new();
        let mut i: usize = 0;
        while i < 64
            invariant
                i <= 64,
                squares@.len() == i,
                forall|j: int| 0 <= j < i ==> !(#[trigger] squares@[j]),
            decreases 64 - i,
        {
            squares.push(false);
            i = i + 1;
        }
        Board { squares }
    }

    /// Whether `square` is in the set.
    pub fn occupied(&self, square: usize) -> (r: bool)
        requires
            self.wf(),
            square < 64,
        ensures
            r == self.has(square as int),
    {
        self.squares[square]
    }

    /// Adds `square` to the set.
    pub fn put(&mut self, square: usize)
        requires
            old(self).wf(),
            square < 64,
        ensures
            final(self).wf(),
            forall|i: int|
                final(self).has(i) == (i == square as int || old(self).has(i)),
    {
        self.squares.set(square, true);
    }
}

} // verus!
