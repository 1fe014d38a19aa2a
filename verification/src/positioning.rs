//! Positional evaluation terms: piece placement, pawn structure and king
//! safety.  Each term is a pure function of a [`Position`]: the board data
//! the evaluator reads, laid out as plain square sets.

use vstd::prelude::*;

use crate::board::{Board, Color, Piece, file_of, rank_of};
use crate::tables::{
    bishop_table, bishop_weights, isolated_pawn_penalty_endgame_table,
    isolated_pawn_penalty_endgame_weights, isolated_pawn_penalty_table,
    isolated_pawn_penalty_weights, king_attack_table, king_attack_weights, king_endgame_table,
    king_endgame_weights, king_table, king_weights, knight_table, knight_weights,
    passed_pawn_bonus_endgame_table, passed_pawn_bonus_endgame_weights, passed_pawn_bonus_table,
    passed_pawn_bonus_weights, pawn_table, pawn_weights, queen_table, queen_weights, rook_table,
    rook_weights,
};

verus! {

/// The board data the positional evaluation reads, as plain square sets.
/// Which squares each side attacks, and how far the game has progressed,
/// are computed by outside collaborators and arrive here as data.
pub struct Position {
    /// Squares occupied by White's pieces.
    pub white: Board,
    /// Squares occupied by Black's pieces.
    pub black: Board,
    /// Squares occupied by pawns of either side.
    pub pawns: Board,
    /// Squares occupied by knights of either side.
    pub knights: Board,
    /// Squares occupied by bishops of either side.
    pub bishops: Board,
    /// Squares occupied by rooks of either side.
    pub rooks: Board,
    /// Squares occupied by queens of either side.
    pub queens: Board,
    /// Squares occupied by the kings.
    pub kings: Board,
    /// Squares White attacks.
    pub attacked_by_white: Board,
    /// Squares Black attacks.
    pub attacked_by_black: Board,
    /// How far the game has progressed, 0 (opening) to 100 (pure endgame).
    pub endgame_weight: u8,
}

impl Position {
    /// Every square set covers the 64 squares and the phase weight is a
    /// percentage.
    pub open spec fn wf(&self) -> bool {
        &&& self.white.wf()
        &&& self.black.wf()
        &&& self.pawns.wf()
        &&& self.knights.wf()
        &&& self.bishops.wf()
        &&& self.rooks.wf()
        &&& self.queens.wf()
        &&& self.kings.wf()
        &&& self.attacked_by_white.wf()
        &&& self.attacked_by_black.wf()
        &&& self.endgame_weight <= 100
    }

    /// The occupancy of one side.
    pub open spec fn spec_color_board(&self, color: Color) -> Board {
        match color {
            Color::White => self.white,
            Color::Black => self.black,
        }
    }

    /// The occupancy of one piece kind, either side.
    pub open spec fn spec_piece_board(&self, piece: Piece) -> Board {
        match piece {
            Piece::Pawn => self.pawns,
            Piece::Knight => self.knights,
            Piece::Bishop => self.bishops,
            Piece::Rook => self.rooks,
            Piece::Queen => self.queens,
            Piece::King => self.kings,
        }
    }

    /// The squares one side attacks.
    pub open spec fn spec_attacked_board(&self, color: Color) -> Board {
        match color {
            Color::White => self.attacked_by_white,
            Color::Black => self.attacked_by_black,
        }
    }

    /// The occupancy of one side.
    pub fn get_board_for_color(&self, color: Color) -> (b: &Board)
        ensures
            *b == self.spec_color_board(color),
    {
        match color {
            Color::White => &self.white,
            Color::Black => &self.black,
        }
    }

    /// The occupancy of one piece kind, either side.
    pub fn get_board_for_piece(&self, piece: Piece) -> (b: &Board)
        ensures
            *b == self.spec_piece_board(piece),
    {
        match piece {
            Piece::Pawn => &self.pawns,
            Piece::Knight => &self.knights,
            Piece::Bishop => &self.bishops,
            Piece::Rook => &self.rooks,
            Piece::Queen => &self.queens,
            Piece::King => &self.kings,
        }
    }

    /// The squares `color` attacks.
    pub fn get_attacked_squares(&self, color: Color) -> (b: &Board)
        ensures
            *b == self.spec_attacked_board(color),
    {
        match color {
            Color::White => &self.attacked_by_white,
            Color::Black => &self.attacked_by_black,
        }
    }
}

/// Integer division toward zero, the rounding score blending uses.
pub open spec fn spec_div_toward_zero(a: int, b: int) -> int {
    if a >= 0 {
        a / b
    } else {
        -((-a) / b)
    }
}

/// Blend of an early-game score with an endgame score at phase weight `w`:
/// weight 0 gives the pure early-game score, 100 the pure endgame score.
pub open spec fn spec_combine_phase(w: int, early: int, late: int) -> int {
    spec_div_toward_zero(early * (100 - w) + late * w, 100)
}

/// Division of a nonnegative score by the phase scale keeps it within the
/// matching bound.
proof fn lemma_div100_bound(a: int, bound: int)
    requires
        0 <= a <= 100 * bound,
        0 <= bound,
    ensures
        0 <= a / 100 <= bound,
{
    vstd::arithmetic::div_mod::lemma_div_pos_is_pos(a, 100);
    vstd::arithmetic::div_mod::lemma_div_is_ordered(a, 100 * bound, 100);
    vstd::arithmetic::div_mod::lemma_div_multiples_vanish(bound, 100);
}

/// Blends an early-game score with an endgame score by how far the game has
/// progressed.
pub fn combine_phase_scores(position: &Position, early_game: i16, late_game: i16) -> (r: i16)
    requires
        position.wf(),
        -20000 <= early_game <= 20000,
        -20000 <= late_game <= 20000,
    ensures
        r as int == spec_combine_phase(
            position.endgame_weight as int,
            early_game as int,
            late_game as int,
        ),
        -20000 <= r <= 20000,
        (-100 <= early_game <= 100 && -100 <= late_game <= 100) ==> -100 <= r <= 100,
{
    let w: i32 = position.endgame_weight as i32;
    proof {
        assert(-20000 * (100 - w as int) <= (early_game as int) * (100 - w as int) <= 20000 * (100
            - w as int)) by (nonlinear_arith)
            requires
                -20000 <= early_game as int <= 20000,
                0 <= w as int <= 100,
        ;
        assert(-20000 * (w as int) <= (late_game as int) * (w as int) <= 20000 * (w as int))
            by (nonlinear_arith)
            requires
                -20000 <= late_game as int <= 20000,
                0 <= w as int <= 100,
        ;
        if -100 <= early_game as int <= 100 && -100 <= late_game as int <= 100 {
            assert(-100 * (100 - w as int) <= (early_game as int) * (100 - w as int) <= 100 * (100
                - w as int)) by (nonlinear_arith)
                requires
                    -100 <= early_game as int <= 100,
                    0 <= w as int <= 100,
            ;
            assert(-100 * (w as int) <= (late_game as int) * (w as int) <= 100 * (w as int))
                by (nonlinear_arith)
                requires
                    -100 <= late_game as int <= 100,
                    0 <= w as int <= 100,
            ;
        }
    }
    let num: i32 = (early_game as i32) * (100 - w) + (late_game as i32) * w;
    proof {
        if num >= 0 {
            lemma_div100_bound(num as int, 20000);
            if -100 <= early_game as int <= 100 && -100 <= late_game as int <= 100 {
                lemma_div100_bound(num as int, 100);
            }
        } else {
            lemma_div100_bound(-(num as int), 20000);
            if -100 <= early_game as int <= 100 && -100 <= late_game as int <= 100 {
                lemma_div100_bound(-(num as int), 100);
            }
        }
    }
    let q: i32 = if num >= 0 {
        ((num as u32) / 100u32) as i32
    } else {
        -((((-num) as u32) / 100u32) as i32)
    };
    q as i16
}

/// Sum of `table` over the first `n` squares holding one of `own`'s pieces
/// of the given kind.
pub open spec fn piece_square_sum(own: Seq<bool>, piece: Seq<bool>, table: Seq<i16>, n: int) -> int
    decreases n,
{
    if n <= 0 {
        0
    } else {
        piece_square_sum(own, piece, table, n - 1) + if own[n - 1] && piece[n - 1] {
            table[n - 1] as int
        } else {
            0int
        }
    }
}

/// Sum of `table` over the squares holding one of `own`'s pieces of the
/// given kind.
fn sum_piece_squares(own: &Board, piece: &Board, table: &Vec<i16>) -> (s: i32)
    requires
        own.wf(),
        piece.wf(),
        table@.len() == 64,
        forall|i: int| 0 <= i < 64 ==> -100 <= #[trigger] table@[i] <= 100,
    ensures
        s as int == piece_square_sum(own.squares@, piece.squares@, table@, 64),
        -6400 <= s <= 6400,
{
    let mut s: i32 = 0;
    let mut i: usize = 0;
    while i < 64
        invariant
            own.wf(),
            piece.wf(),
            table@.len() == 64,
            forall|t: int| 0 <= t < 64 ==> -100 <= #[trigger] table@[t] <= 100,
            i <= 64,
            s as int == piece_square_sum(own.squares@, piece.squares@, table@, i as int),
            -100 * (i as int) <= s as int <= 100 * (i as int),
        decreases 64 - i,
    {
        if own.occupied(i) && piece.occupied(i) {
            s = s + (table[i] as i32);
        }
        i = i + 1;
    }
    s
}

/// The first square both sets share, scanning from `i` up; 64 when none.
pub open spec fn first_shared(a: Seq<bool>, b: Seq<bool>, i: int) -> int
    decreases 64 - i,
{
    if i < 0 || i >= 64 {
        64
    } else if a[i] && b[i] {
        i
    } else {
        first_shared(a, b, i + 1)
    }
}

/// Scanning from `i` cannot pass a shared square at `j`.
proof fn lemma_first_shared_finds(a: Seq<bool>, b: Seq<bool>, i: int, j: int)
    requires
        0 <= i <= j < 64,
        a[j] && b[j],
    ensures
        first_shared(a, b, i) <= j,
    decreases j - i,
{
    if i < j && !(a[i] && b[i]) {
        lemma_first_shared_finds(a, b, i + 1, j);
    }
}

/// Whether `color` has a king on the board.
pub open spec fn spec_has_king(pos: Position, color: Color) -> bool {
    exists|i: int| 0 <= i < 64 && pos.spec_color_board(color).has(i) && pos.kings.has(i)
}

/// The square `color`'s king stands on (the lowest, were there several).
pub open spec fn spec_king_square(pos: Position, color: Color) -> int {
    first_shared(pos.spec_color_board(color).squares@, pos.kings.squares@, 0)
}

/// Finds the square `color`'s king stands on.
fn king_square(position: &Position, color: Color) -> (k: usize)
    requires
        position.wf(),
        spec_has_king(*position, color),
    ensures
        k < 64,
        k as int == spec_king_square(*position, color),
{
    let own = position.get_board_for_color(color);
    let mut i: usize = 0;
    while i < 64
        invariant
            position.wf(),
            spec_has_king(*position, color),
            *own == position.spec_color_board(color),
            i <= 64,
            first_shared(own.squares@, position.kings.squares@, 0) == first_shared(
                own.squares@,
                position.kings.squares@,
                i as int,
            ),
        decreases 64 - i,
    {
        if own.occupied(i) && position.kings.occupied(i) {
            return i;
        }
        i = i + 1;
    }
    proof {
        let j = choose|j: int|
            0 <= j < 64 && position.spec_color_board(color).has(j) && position.kings.has(j);
        lemma_first_shared_finds(own.squares@, position.kings.squares@, 0, j);
        assert(false);
    }
    0
}

/// The placement score of `color`'s pieces: each piece kind's weight table
/// summed over that side's pieces, the king's weight blended between its
/// early-game and endgame tables (shelter early, activity late).
pub open spec fn spec_positioning_score(pos: Position, color: Color) -> int {
    let own = pos.spec_color_board(color).squares@;
    let k = spec_king_square(pos, color);
    piece_square_sum(own, pos.pawns.squares@, pawn_table(), 64) + piece_square_sum(
        own,
        pos.rooks.squares@,
        rook_table(),
        64,
    ) + piece_square_sum(own, pos.knights.squares@, knight_table(), 64) + piece_square_sum(
        own,
        pos.bishops.squares@,
        bishop_table(),
        64,
    ) + piece_square_sum(own, pos.queens.squares@, queen_table(), 64) + spec_combine_phase(
        pos.endgame_weight as int,
        king_table()[k] as int,
        king_endgame_table()[k] as int,
    )
}

/// The placement score of `color`'s pieces.
pub fn positioning_score(position: &Position, color: Color) -> (r: i16)
    requires
        position.wf(),
        spec_has_king(*position, color),
    ensures
        r as int == spec_positioning_score(*position, color),
{
    let own = position.get_board_for_color(color);

    let pawn_w = pawn_weights();
    let rook_w = rook_weights();
    let knight_w = knight_weights();
    let bishop_w = bishop_weights();
    let queen_w = queen_weights();

    let mut score: i32 = sum_piece_squares(own, position.get_board_for_piece(Piece::Pawn), &pawn_w);
    score = score + sum_piece_squares(own, position.get_board_for_piece(Piece::Rook), &rook_w);
    score = score + sum_piece_squares(own, position.get_board_for_piece(Piece::Knight), &knight_w);
    score = score + sum_piece_squares(own, position.get_board_for_piece(Piece::Bishop), &bishop_w);
    score = score + sum_piece_squares(own, position.get_board_for_piece(Piece::Queen), &queen_w);

    // The king is different: shelter is worth points early, activity late.
    let king_square_index = king_square(position, color);
    let king_w = king_weights();
    let king_endgame_w = king_endgame_weights();
    let blended = combine_phase_scores(
        position,
        king_w[king_square_index],
        king_endgame_w[king_square_index],
    );
    let total: i32 = score + (blended as i32);
    total as i16
}

/// Whether square `j` lies strictly ahead of `sq` from `color`'s point of
/// view: the direction that side's pawns advance.
pub open spec fn spec_ahead_of(color: Color, sq: int, j: int) -> bool {
    match color {
        Color::White => rank_of(j) > rank_of(sq),
        Color::Black => rank_of(j) < rank_of(sq),
    }
}

/// What square `j` must not hold if the pawn on `sq` is to be passed: no own
/// pawn ahead on the same file, no enemy pawn ahead on the same or an
/// adjacent file.
pub open spec fn spec_passed_ok_at(
    sq: int,
    color: Color,
    our_pawns: Seq<bool>,
    their_pawns: Seq<bool>,
    j: int,
) -> bool {
    &&& (spec_ahead_of(color, sq, j) && file_of(j) == file_of(sq) ==> !our_pawns[j])
    &&& (spec_ahead_of(color, sq, j) && -1 <= file_of(j) - file_of(sq) <= 1 ==> !their_pawns[j])
}

/// A passed pawn: nothing ahead of it can stop it promoting by capture or
/// blockade on its own or a neighbouring file.
pub open spec fn spec_is_passed(
    sq: int,
    color: Color,
    our_pawns: Seq<bool>,
    their_pawns: Seq<bool>,
) -> bool {
    forall|j: int| 0 <= j < 64 ==> spec_passed_ok_at(sq, color, our_pawns, their_pawns, j)
}

/// Whether the pawn on `pawn` is passed.
pub fn is_passed(pawn: usize, color: Color, our_pawns: &Board, their_pawns: &Board) -> (r: bool)
    requires
        pawn < 64,
        our_pawns.wf(),
        their_pawns.wf(),
    ensures
        r == spec_is_passed(pawn as int, color, our_pawns.squares@, their_pawns.squares@),
{
    let mut ok = true;
    let mut j: usize = 0;
    while j < 64
        invariant
            pawn < 64,
            our_pawns.wf(),
            their_pawns.wf(),
            j <= 64,
            ok == forall|t: int|
                0 <= t < j ==> spec_passed_ok_at(
                    pawn as int,
                    color,
                    our_pawns.squares@,
                    their_pawns.squares@,
                    t,
                ),
        decreases 64 - j,
    {
        let ahead = match color {
            Color::White => j / 8 > pawn / 8,
            Color::Black => j / 8 < pawn / 8,
        };
        let file_j = j % 8;
        let file_p = pawn % 8;
        let same_file = file_j == file_p;
        let near_file = file_j == file_p || file_j + 1 == file_p || file_p + 1 == file_j;
        let ok_here = (!(ahead && same_file) || !our_pawns.occupied(j)) && (!(ahead && near_file)
            || !their_pawns.occupied(j));
        proof {
            assert(ok_here == spec_passed_ok_at(
                pawn as int,
                color,
                our_pawns.squares@,
                their_pawns.squares@,
                j as int,
            ));
        }
        ok = ok && ok_here;
        j = j + 1;
    }
    ok
}

/// What square `j` must not hold if the pawn on `sq` is to be isolated: no
/// friendly pawn on an adjacent file, whatever the rank.
pub open spec fn spec_isolated_ok_at(sq: int, friendly_pawns: Seq<bool>, j: int) -> bool {
    (file_of(j) - file_of(sq) == 1 || file_of(sq) - file_of(j) == 1) ==> !friendly_pawns[j]
}

/// An isolated pawn: no friendly pawn on either neighbouring file.
pub open spec fn spec_is_isolated(sq: int, friendly_pawns: Seq<bool>) -> bool {
    forall|j: int| 0 <= j < 64 ==> spec_isolated_ok_at(sq, friendly_pawns, j)
}

/// Whether the pawn on `pawn` is isolated.
pub fn is_isolated(pawn: usize, friendly_pawns: &Board) -> (r: bool)
    requires
        pawn < 64,
        friendly_pawns.wf(),
    ensures
        r == spec_is_isolated(pawn as int, friendly_pawns.squares@),
{
    let mut ok = true;
    let mut j: usize = 0;
    while j < 64
        invariant
            pawn < 64,
            friendly_pawns.wf(),
            j <= 64,
            ok == forall|t: int|
                0 <= t < j ==> spec_isolated_ok_at(pawn as int, friendly_pawns.squares@, t),
        decreases 64 - j,
    {
        let file_j = j % 8;
        let file_p = pawn % 8;
        let near_file = file_j + 1 == file_p || file_p + 1 == file_j;
        let ok_here = !near_file || !friendly_pawns.occupied(j);
        proof {
            assert(ok_here == spec_isolated_ok_at(pawn as int, friendly_pawns.squares@, j as int));
        }
        ok = ok && ok_here;
        j = j + 1;
    }
    ok
}

/// Pointwise intersection of two square sets.
pub open spec fn seq_and(a: Seq<bool>, b: Seq<bool>) -> Seq<bool> {
    Seq::new(64, |i: int| a[i] && b[i])
}

/// Intersection of two square sets.
fn and_boards(a: &Board, b: &Board) -> (c: Board)
    requires
        a.wf(),
        b.wf(),
    ensures
        c.wf(),
        c.squares@ == seq_and(a.squares@, b.squares@),
{
    let mut squares: Vec<bool> = Vec::new();
    let mut i: usize = 0;
    while i < 64
        invariant
            a.wf(),
            b.wf(),
            i <= 64,
            squares@.len() == i,
            forall|t: int| 0 <= t < i ==> squares@[t] == (a.squares@[t] && b.squares@[t]),
        decreases 64 - i,
    {
        squares.push(a.occupied(i) && b.occupied(i));
        i = i + 1;
    }
    proof {
        assert(squares@ =~= seq_and(a.squares@, b.squares@));
    }
    Board { squares }
}

/// How many squares the pawn on `sq` still has to cross to promote.
pub open spec fn spec_squares_to_promotion(color: Color, sq: int) -> int {
    match color {
        Color::White => 7 - rank_of(sq),
        Color::Black => rank_of(sq),
    }
}

/// What the pawn on square `sq` contributes to the pawn-structure score, on
/// the early-game or the endgame scale.
pub open spec fn spec_pawn_term(
    our_pawns: Seq<bool>,
    their_pawns: Seq<bool>,
    color: Color,
    sq: int,
    endgame: bool,
) -> int {
    if 0 <= sq < 64 && our_pawns[sq] {
        (if spec_is_passed(sq, color, our_pawns, their_pawns) {
            (if endgame {
                passed_pawn_bonus_endgame_table()
            } else {
                passed_pawn_bonus_table()
            })[spec_squares_to_promotion(color, sq)] as int
        } else {
            0int
        }) + (if spec_is_isolated(sq, our_pawns) {
            (if endgame {
                isolated_pawn_penalty_endgame_table()
            } else {
                isolated_pawn_penalty_table()
            })[file_of(sq)] as int
        } else {
            0int
        })
    } else {
        0
    }
}

/// Sum of the pawn-structure contributions of the first `n` squares.
pub open spec fn spec_pawn_sum(
    our_pawns: Seq<bool>,
    their_pawns: Seq<bool>,
    color: Color,
    n: int,
    endgame: bool,
) -> int
    decreases n,
{
    if n <= 0 {
        0
    } else {
        spec_pawn_sum(our_pawns, their_pawns, color, n - 1, endgame) + spec_pawn_term(
            our_pawns,
            their_pawns,
            color,
            n - 1,
            endgame,
        )
    }
}

/// The pawn-structure score of `color`: passed-pawn bonuses and
/// isolated-pawn penalties, blended between their early-game and endgame
/// scales by the phase of the game.
pub open spec fn spec_pawn_structure(pos: Position, color: Color) -> int {
    let our_pawns = seq_and(pos.spec_color_board(color).squares@, pos.pawns.squares@);
    let their_pawns = seq_and(
        pos.spec_color_board(color.spec_opposite()).squares@,
        pos.pawns.squares@,
    );
    spec_combine_phase(
        pos.endgame_weight as int,
        spec_pawn_sum(our_pawns, their_pawns, color, 64, false),
        spec_pawn_sum(our_pawns, their_pawns, color, 64, true),
    )
}

/// The pawn-structure score of `color`.
pub fn pawn_structure(position: &Position, color: Color) -> (r: i16)
    requires
        position.wf(),
    ensures
        r as int == spec_pawn_structure(*position, color),
{
    let our_pieces = position.get_board_for_color(color);
    let their_pieces = position.get_board_for_color(color.opposite());
    let all_pawns = position.get_board_for_piece(Piece::Pawn);
    let our_pawns = and_boards(our_pieces, all_pawns);
    let their_pawns = and_boards(their_pieces, all_pawns);

    let passed_w = passed_pawn_bonus_weights();
    let passed_endgame_w = passed_pawn_bonus_endgame_weights();
    let isolated_w = isolated_pawn_penalty_weights();
    let isolated_endgame_w = isolated_pawn_penalty_endgame_weights();

    let mut early_game_score: i32 = 0;
    let mut end_game_score: i32 = 0;
    let mut i: usize = 0;
    while i < 64
        invariant
            position.wf(),
            our_pawns.wf(),
            their_pawns.wf(),
            our_pawns.squares@ == seq_and(
                position.spec_color_board(color).squares@,
                position.pawns.squares@,
            ),
            their_pawns.squares@ == seq_and(
                position.spec_color_board(color.spec_opposite()).squares@,
                position.pawns.squares@,
            ),
            passed_w@ == passed_pawn_bonus_table(),
            passed_endgame_w@ == passed_pawn_bonus_endgame_table(),
            isolated_w@ == isolated_pawn_penalty_table(),
            isolated_endgame_w@ == isolated_pawn_penalty_endgame_table(),
            forall|t: int| 0 <= t < 8 ==> -100 <= #[trigger] passed_w@[t] <= 100,
            forall|t: int| 0 <= t < 8 ==> -100 <= #[trigger] passed_endgame_w@[t] <= 100,
            forall|t: int| 0 <= t < 8 ==> -100 <= #[trigger] isolated_w@[t] <= 100,
            forall|t: int| 0 <= t < 8 ==> -100 <= #[trigger] isolated_endgame_w@[t] <= 100,
            i <= 64,
            early_game_score as int == spec_pawn_sum(
                our_pawns.squares@,
                their_pawns.squares@,
                color,
                i as int,
                false,
            ),
            end_game_score as int == spec_pawn_sum(
                our_pawns.squares@,
                their_pawns.squares@,
                color,
                i as int,
                true,
            ),
            -200 * (i as int) <= early_game_score as int <= 200 * (i as int),
            -200 * (i as int) <= end_game_score as int <= 200 * (i as int),
        decreases 64 - i,
    {
        if our_pawns.occupied(i) {
            if is_passed(i, color, &our_pawns, &their_pawns) {
                let squares_to_promotion = match color {
                    Color::White => 7 - i / 8,
                    Color::Black => i / 8,
                };
                early_game_score = early_game_score + (passed_w[squares_to_promotion] as i32);
                end_game_score = end_game_score + (passed_endgame_w[squares_to_promotion] as i32);
            }
            if is_isolated(i, &our_pawns) {
                let file = i % 8;
                early_game_score = early_game_score + (isolated_w[file] as i32);
                end_game_score = end_game_score + (isolated_endgame_w[file] as i32);
            }
        }
        i = i + 1;
    }

    combine_phase_scores(position, early_game_score as i16, end_game_score as i16)
}

/// Whether square `j` belongs to the king's immediate neighbourhood around
/// square `k`.
pub open spec fn spec_king_adjacent(k: int, j: int) -> bool {
    &&& j != k
    &&& -1 <= rank_of(j) - rank_of(k) <= 1
    &&& -1 <= file_of(j) - file_of(k) <= 1
}

/// Size of the symmetric difference, over the first `n` squares, between a
/// side's occupancy and its king's neighbourhood: the exposed extent of the
/// king's zone.
pub open spec fn spec_king_zone_count(own: Seq<bool>, k: int, n: int) -> int
    decreases n,
{
    if n <= 0 {
        0
    } else {
        spec_king_zone_count(own, k, n - 1) + if own[n - 1] != spec_king_adjacent(k, n - 1) {
            1int
        } else {
            0int
        }
    }
}

/// The king-safety score of `color`: when no enemy attack bears on the
/// king's own square there is no penalty (stated explicitly rather than
/// left to a division by zero); otherwise the exposed extent of the king's
/// zone picks the penalty, clamped to the top of the weight table.
pub open spec fn spec_king_safety(pos: Position, color: Color) -> int {
    let own = pos.spec_color_board(color).squares@;
    let k = spec_king_square(pos, color);
    let attacked = pos.spec_attacked_board(color.spec_opposite());
    if !attacked.has(k) {
        0
    } else {
        let index = 8 * spec_king_zone_count(own, k, 64);
        king_attack_table()[if index <= 7 {
            index
        } else {
            7int
        }] as int
    }
}

/// The king-safety score of `color`.
pub fn king_safety(position: &Position, color: Color) -> (r: i16)
    requires
        position.wf(),
        spec_has_king(*position, color),
    ensures
        r as int == spec_king_safety(*position, color),
{
    let own = position.get_board_for_color(color);
    let king_square_index = king_square(position, color);

    let mut zone: u32 = 0;
    let mut j: usize = 0;
    while j < 64
        invariant
            position.wf(),
            *own == position.spec_color_board(color),
            king_square_index < 64,
            j <= 64,
            zone as int == spec_king_zone_count(own.squares@, king_square_index as int, j as int),
            zone <= j,
        decreases 64 - j,
    {
        let rank_j = j / 8;
        let rank_k = king_square_index / 8;
        let file_j = j % 8;
        let file_k = king_square_index % 8;
        let rank_near = rank_j == rank_k || rank_j + 1 == rank_k || rank_k + 1 == rank_j;
        let file_near = file_j == file_k || file_j + 1 == file_k || file_k + 1 == file_j;
        let adjacent = j != king_square_index && rank_near && file_near;
        proof {
            assert(adjacent == spec_king_adjacent(king_square_index as int, j as int));
        }
        if own.occupied(j) != adjacent {
            zone = zone + 1;
        }
        j = j + 1;
    }

    let attacked = position.get_attacked_squares(color.opposite());
    if !attacked.occupied(king_square_index) {
        return 0;
    }
    let raw_index = 8 * zone;
    let index: usize = if raw_index <= 7 {
        raw_index as usize
    } else {
        7
    };
    let weights = king_attack_weights();
    weights[index]
}

} // verus!
