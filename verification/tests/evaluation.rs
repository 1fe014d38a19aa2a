use negamax::board::{Board, Color, Piece, value_of_piece};
use negamax::positioning::{
    Position, combine_phase_scores, is_isolated, is_passed, king_safety, pawn_structure,
    positioning_score,
};

fn board_of(squares: &[usize]) -> Board {
    let mut b = Board::empty();
    for &s in squares {
        b.put(s);
    }
    b
}

fn square(rank: usize, file: usize) -> usize {
    8 * rank + file
}

fn position(
    white: &[usize],
    black: &[usize],
    pawns: &[usize],
    kings: &[usize],
    attacked_by_black: &[usize],
    endgame_weight: u8,
) -> Position {
    Position {
        white: board_of(white),
        black: board_of(black),
        pawns: board_of(pawns),
        knights: Board::empty(),
        bishops: Board::empty(),
        rooks: Board::empty(),
        queens: Board::empty(),
        kings: board_of(kings),
        attacked_by_white: Board::empty(),
        attacked_by_black: board_of(attacked_by_black),
        endgame_weight,
    }
}

#[test]
fn piece_values_are_the_conventional_centipawns() {
    assert_eq!(value_of_piece(Piece::Pawn), 100);
    assert_eq!(value_of_piece(Piece::Knight), 300);
    assert_eq!(value_of_piece(Piece::Bishop), 300);
    assert_eq!(value_of_piece(Piece::Rook), 500);
    assert_eq!(value_of_piece(Piece::Queen), 900);
    assert_eq!(value_of_piece(Piece::King), 0);
}

#[test]
fn combine_phase_scores_blends_and_rounds_toward_zero() {
    let early = position(&[], &[], &[], &[], &[], 0);
    assert_eq!(combine_phase_scores(&early, 30, -80), 30);
    let late = position(&[], &[], &[], &[], &[], 100);
    assert_eq!(combine_phase_scores(&late, 30, -80), -80);
    let mid = position(&[], &[], &[], &[], &[], 50);
    assert_eq!(combine_phase_scores(&mid, 10, -10), 0);
    // -50 / 100 rounds toward zero.
    assert_eq!(combine_phase_scores(&mid, -1, 0), 0);
}

#[test]
fn positioning_score_adds_piece_weights_and_the_king_blend() {
    // A white pawn on a3 (weight 5) and the king on its home corner square
    // (early weight 20, endgame weight -50).
    let pawn_sq = square(2, 0);
    let king_sq = square(0, 0);
    let pos = position(&[pawn_sq, king_sq], &[], &[pawn_sq], &[king_sq], &[], 0);
    assert_eq!(positioning_score(&pos, Color::White), 5 + 20);
    let endgame = position(&[pawn_sq, king_sq], &[], &[pawn_sq], &[king_sq], &[], 100);
    assert_eq!(positioning_score(&endgame, Color::White), 5 - 50);
}

#[test]
fn is_passed_sees_blockers_ahead() {
    let pawn = square(2, 3);
    let our = board_of(&[pawn]);
    // Nothing ahead: passed.
    assert!(is_passed(pawn, Color::White, &our, &Board::empty()));
    // An enemy pawn ahead on an adjacent file stops it.
    let their = board_of(&[square(5, 4)]);
    assert!(!is_passed(pawn, Color::White, &our, &their));
    // The same enemy pawn lies behind a black pawn, which stays passed.
    assert!(is_passed(square(4, 3), Color::Black, &board_of(&[square(4, 3)]), &their));
    // An own pawn ahead on the same file also blocks the way.
    let doubled = board_of(&[pawn, square(4, 3)]);
    assert!(!is_passed(pawn, Color::White, &doubled, &Board::empty()));
}

#[test]
fn is_isolated_looks_for_neighbouring_files() {
    let pawn = square(2, 3);
    assert!(is_isolated(pawn, &board_of(&[pawn])));
    // A friend two files away does not help.
    assert!(is_isolated(pawn, &board_of(&[pawn, square(2, 1)])));
    // A friend on an adjacent file does, whatever its rank.
    assert!(!is_isolated(pawn, &board_of(&[pawn, square(6, 2)])));
}

#[test]
fn pawn_structure_scores_a_lone_passed_pawn() {
    // A single white pawn on a3: passed (bonus 5 early, 10 in the endgame,
    // five squares from promotion) and isolated on the a-file (-15 early,
    // -30 in the endgame).
    let pawn_sq = square(2, 0);
    let pos = position(&[pawn_sq], &[], &[pawn_sq], &[], &[], 0);
    assert_eq!(pawn_structure(&pos, Color::White), 5 - 15);
    let endgame = position(&[pawn_sq], &[], &[pawn_sq], &[], &[], 100);
    assert_eq!(pawn_structure(&endgame, Color::White), 10 - 30);
}

#[test]
fn king_safety_penalises_only_an_attacked_king() {
    let king_sq = square(0, 0);
    // No enemy attack on the king's square: explicitly no penalty.
    let calm = position(&[king_sq], &[], &[], &[king_sq], &[], 0);
    assert_eq!(king_safety(&calm, Color::White), 0);
    // The king's square is attacked and its zone is wide open: the clamped
    // top of the penalty table applies.
    let stormed = position(&[king_sq], &[], &[], &[king_sq], &[king_sq], 0);
    assert_eq!(king_safety(&stormed, Color::White), -100);
}

#[test]
fn opposite_color_flips() {
    assert_eq!(Color::White.opposite(), Color::Black);
    assert_eq!(Color::Black.opposite(), Color::White);
}
