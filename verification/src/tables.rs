//! The weight tables the positional evaluation is tuned with.  Each table
//! exists twice: as a specification sequence, which the contracts speak of,
//! and as an executable vector proved equal to it.  Square-indexed tables
//! are rank-major with White's back rank at rank 0; every weight lies within
//! one pawn's value on either side.

use vstd::prelude::*;

verus! {

/// Pawn placement weights: advancing, and holding the centre, pays.
pub open spec fn pawn_table() -> Seq<i16> {
    seq![
        0i16, 0i16, 0i16, 0i16, 0i16, 0i16, 0i16, 0i16,
        5i16, 10i16, 10i16, -20i16, -20i16, 10i16, 10i16, 5i16,
        5i16, -5i16, -10i16, 0i16, 0i16, -10i16, -5i16, 5i16,
        0i16, 0i16, 0i16, 20i16, 20i16, 0i16, 0i16, 0i16,
        5i16, 5i16, 10i16, 25i16, 25i16, 10i16, 5i16, 5i16,
        10i16, 10i16, 20i16, 30i16, 30i16, 20i16, 10i16, 10i16,
        50i16, 50i16, 50i16, 50i16, 50i16, 50i16, 50i16, 50i16,
        0i16, 0i16, 0i16, 0i16, 0i16, 0i16, 0i16, 0i16,
    ]
}

/// Pawn placement weights: advancing, and holding the centre, pays.
pub fn pawn_weights() -> (v: Vec<i16>)
    ensures
        v@ == pawn_table(),
        forall|i: int| 0 <= i < 64 ==> -100 <= #[trigger] v@[i] <= 100,
{
    let v: Vec<i16> = vec![
        0i16, 0i16, 0i16, 0i16, 0i16, 0i16, 0i16, 0i16,
        5i16, 10i16, 10i16, -20i16, -20i16, 10i16, 10i16, 5i16,
        5i16, -5i16, -10i16, 0i16, 0i16, -10i16, -5i16, 5i16,
        0i16, 0i16, 0i16, 20i16, 20i16, 0i16, 0i16, 0i16,
        5i16, 5i16, 10i16, 25i16, 25i16, 10i16, 5i16, 5i16,
        10i16, 10i16, 20i16, 30i16, 30i16, 20i16, 10i16, 10i16,
        50i16, 50i16, 50i16, 50i16, 50i16, 50i16, 50i16, 50i16,
        0i16, 0i16, 0i16, 0i16, 0i16, 0i16, 0i16, 0i16,
    ];
    proof {
        assert(v@ =~= pawn_table());
        assert forall|i: int| 0 <= i < 64 implies -100 <= #[trigger] v@[i] <= 100 by {
            assert(-100 <= pawn_table()[i] <= 100);
        }
    }
    v
}

/// Rook placement weights: the seventh rank and open centre files pay.
pub open spec fn rook_table() -> Seq<i16> {
    seq![
        0i16, 0i16, 0i16, 5i16, 5i16, 0i16, 0i16, 0i16,
        -5i16, 0i16, 0i16, 0i16, 0i16, 0i16, 0i16, -5i16,
        -5i16, 0i16, 0i16, 0i16, 0i16, 0i16, 0i16, -5i16,
        -5i16, 0i16, 0i16, 0i16, 0i16, 0i16, 0i16, -5i16,
        -5i16, 0i16, 0i16, 0i16, 0i16, 0i16, 0i16, -5i16,
        -5i16, 0i16, 0i16, 0i16, 0i16, 0i16, 0i16, -5i16,
        5i16, 10i16, 10i16, 10i16, 10i16, 10i16, 10i16, 5i16,
        0i16, 0i16, 0i16, 0i16, 0i16, 0i16, 0i16, 0i16,
    ]
}

/// Rook placement weights: the seventh rank and open centre files pay.
pub fn rook_weights() -> (v: Vec<i16>)
    ensures
        v@ == rook_table(),
        forall|i: int| 0 <= i < 64 ==> -100 <= #[trigger] v@[i] <= 100,
{
    let v: Vec<i16> = vec![
        0i16, 0i16, 0i16, 5i16, 5i16, 0i16, 0i16, 0i16,
        -5i16, 0i16, 0i16, 0i16, 0i16, 0i16, 0i16, -5i16,
        -5i16, 0i16, 0i16, 0i16, 0i16, 0i16, 0i16, -5i16,
        -5i16, 0i16, 0i16, 0i16, 0i16, 0i16, 0i16, -5i16,
        -5i16, 0i16, 0i16, 0i16, 0i16, 0i16, 0i16, -5i16,
        -5i16, 0i16, 0i16, 0i16, 0i16, 0i16, 0i16, -5i16,
        5i16, 10i16, 10i16, 10i16, 10i16, 10i16, 10i16, 5i16,
        0i16, 0i16, 0i16, 0i16, 0i16, 0i16, 0i16, 0i16,
    ];
    proof {
        assert(v@ =~= rook_table());
        assert forall|i: int| 0 <= i < 64 implies -100 <= #[trigger] v@[i] <= 100 by {
            assert(-100 <= rook_table()[i] <= 100);
        }
    }
    v
}

/// Knight placement weights: centralised knights pay, rim knights cost.
pub open spec fn knight_table() -> Seq<i16> {
    seq![
        -50i16, -40i16, -30i16, -30i16, -30i16, -30i16, -40i16, -50i16,
        -40i16, -20i16, 0i16, 5i16, 5i16, 0i16, -20i16, -40i16,
        -30i16, 5i16, 10i16, 15i16, 15i16, 10i16, 5i16, -30i16,
        -30i16, 0i16, 15i16, 20i16, 20i16, 15i16, 0i16, -30i16,
        -30i16, 5i16, 15i16, 20i16, 20i16, 15i16, 5i16, -30i16,
        -30i16, 0i16, 10i16, 15i16, 15i16, 10i16, 0i16, -30i16,
        -40i16, -20i16, 0i16, 0i16, 0i16, 0i16, -20i16, -40i16,
        -50i16, -40i16, -30i16, -30i16, -30i16, -30i16, -40i16, -50i16,
    ]
}

/// Knight placement weights: centralised knights pay, rim knights cost.
pub fn knight_weights() -> (v: Vec<i16>)
    ensures
        v@ == knight_table(),
        forall|i: int| 0 <= i < 64 ==> -100 <= #[trigger] v@[i] <= 100,
{
    let v: Vec<i16> = vec![
        -50i16, -40i16, -30i16, -30i16, -30i16, -30i16, -40i16, -50i16,
        -40i16, -20i16, 0i16, 5i16, 5i16, 0i16, -20i16, -40i16,
        -30i16, 5i16, 10i16, 15i16, 15i16, 10i16, 5i16, -30i16,
        -30i16, 0i16, 15i16, 20i16, 20i16, 15i16, 0i16, -30i16,
        -30i16, 5i16, 15i16, 20i16, 20i16, 15i16, 5i16, -30i16,
        -30i16, 0i16, 10i16, 15i16, 15i16, 10i16, 0i16, -30i16,
        -40i16, -20i16, 0i16, 0i16, 0i16, 0i16, -20i16, -40i16,
        -50i16, -40i16, -30i16, -30i16, -30i16, -30i16, -40i16, -50i16,
    ];
    proof {
        assert(v@ =~= knight_table());
        assert forall|i: int| 0 <= i < 64 implies -100 <= #[trigger] v@[i] <= 100 by {
            assert(-100 <= knight_table()[i] <= 100);
        }
    }
    v
}

/// Bishop placement weights: long central diagonals pay.
pub open spec fn bishop_table() -> Seq<i16> {
    seq![
        -20i16, -10i16, -10i16, -10i16, -10i16, -10i16, -10i16, -20i16,
        -10i16, 5i16, 0i16, 0i16, 0i16, 0i16, 5i16, -10i16,
        -10i16, 10i16, 10i16, 10i16, 10i16, 10i16, 10i16, -10i16,
        -10i16, 0i16, 10i16, 10i16, 10i16, 10i16, 0i16, -10i16,
        -10i16, 5i16, 5i16, 10i16, 10i16, 5i16, 5i16, -10i16,
        -10i16, 0i16, 5i16, 10i16, 10i16, 5i16, 0i16, -10i16,
        -10i16, 0i16, 0i16, 0i16, 0i16, 0i16, 0i16, -10i16,
        -20i16, -10i16, -10i16, -10i16, -10i16, -10i16, -10i16, -20i16,
    ]
}

/// Bishop placement weights: long central diagonals pay.
pub fn bishop_weights() -> (v: Vec<i16>)
    ensures
        v@ == bishop_table(),
        forall|i: int| 0 <= i < 64 ==> -100 <= #[trigger] v@[i] <= 100,
{
    let v: Vec<i16> = vec![
        -20i16, -10i16, -10i16, -10i16, -10i16, -10i16, -10i16, -20i16,
        -10i16, 5i16, 0i16, 0i16, 0i16, 0i16, 5i16, -10i16,
        -10i16, 10i16, 10i16, 10i16, 10i16, 10i16, 10i16, -10i16,
        -10i16, 0i16, 10i16, 10i16, 10i16, 10i16, 0i16, -10i16,
        -10i16, 5i16, 5i16, 10i16, 10i16, 5i16, 5i16, -10i16,
        -10i16, 0i16, 5i16, 10i16, 10i16, 5i16, 0i16, -10i16,
        -10i16, 0i16, 0i16, 0i16, 0i16, 0i16, 0i16, -10i16,
        -20i16, -10i16, -10i16, -10i16, -10i16, -10i16, -10i16, -20i16,
    ];
    proof {
        assert(v@ =~= bishop_table());
        assert forall|i: int| 0 <= i < 64 implies -100 <= #[trigger] v@[i] <= 100 by {
            assert(-100 <= bishop_table()[i] <= 100);
        }
    }
    v
}

/// Queen placement weights: mild centralisation pays.
pub open spec fn queen_table() -> Seq<i16> {
    seq![
        -20i16, -10i16, -10i16, -5i16, -5i16, -10i16, -10i16, -20i16,
        -10i16, 0i16, 5i16, 0i16, 0i16, 0i16, 0i16, -10i16,
        -10i16, 5i16, 5i16, 5i16, 5i16, 5i16, 0i16, -10i16,
        0i16, 0i16, 5i16, 5i16, 5i16, 5i16, 0i16, -5i16,
        -5i16, 0i16, 5i16, 5i16, 5i16, 5i16, 0i16, -5i16,
        -10i16, 0i16, 5i16, 5i16, 5i16, 5i16, 0i16, -10i16,
        -10i16, 0i16, 0i16, 0i16, 0i16, 0i16, 0i16, -10i16,
        -20i16, -10i16, -10i16, -5i16, -5i16, -10i16, -10i16, -20i16,
    ]
}

/// Queen placement weights: mild centralisation pays.
pub fn queen_weights() -> (v: Vec<i16>)
    ensures
        v@ == queen_table(),
        forall|i: int| 0 <= i < 64 ==> -100 <= #[trigger] v@[i] <= 100,
{
    let v: Vec<i16> = vec![
        -20i16, -10i16, -10i16, -5i16, -5i16, -10i16, -10i16, -20i16,
        -10i16, 0i16, 5i16, 0i16, 0i16, 0i16, 0i16, -10i16,
        -10i16, 5i16, 5i16, 5i16, 5i16, 5i16, 0i16, -10i16,
        0i16, 0i16, 5i16, 5i16, 5i16, 5i16, 0i16, -5i16,
        -5i16, 0i16, 5i16, 5i16, 5i16, 5i16, 0i16, -5i16,
        -10i16, 0i16, 5i16, 5i16, 5i16, 5i16, 0i16, -10i16,
        -10i16, 0i16, 0i16, 0i16, 0i16, 0i16, 0i16, -10i16,
        -20i16, -10i16, -10i16, -5i16, -5i16, -10i16, -10i16, -20i16,
    ];
    proof {
        assert(v@ =~= queen_table());
        assert forall|i: int| 0 <= i < 64 implies -100 <= #[trigger] v@[i] <= 100 by {
            assert(-100 <= queen_table()[i] <= 100);
        }
    }
    v
}

/// King placement weights for the early and middle game: shelter pays.
pub open spec fn king_table() -> Seq<i16> {
    seq![
        20i16, 30i16, 10i16, 0i16, 0i16, 10i16, 30i16, 20i16,
        20i16, 20i16, 0i16, 0i16, 0i16, 0i16, 20i16, 20i16,
        -10i16, -20i16, -20i16, -20i16, -20i16, -20i16, -20i16, -10i16,
        -20i16, -30i16, -30i16, -40i16, -40i16, -30i16, -30i16, -20i16,
        -30i16, -40i16, -40i16, -50i16, -50i16, -40i16, -40i16, -30i16,
        -30i16, -40i16, -40i16, -50i16, -50i16, -40i16, -40i16, -30i16,
        -30i16, -40i16, -40i16, -50i16, -50i16, -40i16, -40i16, -30i16,
        -30i16, -40i16, -40i16, -50i16, -50i16, -40i16, -40i16, -30i16,
    ]
}

/// King placement weights for the early and middle game: shelter pays.
pub fn king_weights() -> (v: Vec<i16>)
    ensures
        v@ == king_table(),
        forall|i: int| 0 <= i < 64 ==> -100 <= #[trigger] v@[i] <= 100,
{
    let v: Vec<i16> = vec![
        20i16, 30i16, 10i16, 0i16, 0i16, 10i16, 30i16, 20i16,
        20i16, 20i16, 0i16, 0i16, 0i16, 0i16, 20i16, 20i16,
        -10i16, -20i16, -20i16, -20i16, -20i16, -20i16, -20i16, -10i16,
        -20i16, -30i16, -30i16, -40i16, -40i16, -30i16, -30i16, -20i16,
        -30i16, -40i16, -40i16, -50i16, -50i16, -40i16, -40i16, -30i16,
        -30i16, -40i16, -40i16, -50i16, -50i16, -40i16, -40i16, -30i16,
        -30i16, -40i16, -40i16, -50i16, -50i16, -40i16, -40i16, -30i16,
        -30i16, -40i16, -40i16, -50i16, -50i16, -40i16, -40i16, -30i16,
    ];
    proof {
        assert(v@ =~= king_table());
        assert forall|i: int| 0 <= i < 64 implies -100 <= #[trigger] v@[i] <= 100 by {
            assert(-100 <= king_table()[i] <= 100);
        }
    }
    v
}

/// King placement weights for the endgame: an active central king pays.
pub open spec fn king_endgame_table() -> Seq<i16> {
    seq![
        -50i16, -30i16, -30i16, -30i16, -30i16, -30i16, -30i16, -50i16,
        -30i16, -30i16, 0i16, 0i16, 0i16, 0i16, -30i16, -30i16,
        -30i16, -10i16, 20i16, 30i16, 30i16, 20i16, -10i16, -30i16,
        -30i16, -10i16, 30i16, 40i16, 40i16, 30i16, -10i16, -30i16,
        -30i16, -10i16, 30i16, 40i16, 40i16, 30i16, -10i16, -30i16,
        -30i16, -10i16, 20i16, 30i16, 30i16, 20i16, -10i16, -30i16,
        -30i16, -20i16, -10i16, 0i16, 0i16, -10i16, -20i16, -30i16,
        -50i16, -40i16, -30i16, -20i16, -20i16, -30i16, -40i16, -50i16,
    ]
}

/// King placement weights for the endgame: an active central king pays.
pub fn king_endgame_weights() -> (v: Vec<i16>)
    ensures
        v@ == king_endgame_table(),
        forall|i: int| 0 <= i < 64 ==> -100 <= #[trigger] v@[i] <= 100,
{
    let v: Vec<i16> = vec![
        -50i16, -30i16, -30i16, -30i16, -30i16, -30i16, -30i16, -50i16,
        -30i16, -30i16, 0i16, 0i16, 0i16, 0i16, -30i16, -30i16,
        -30i16, -10i16, 20i16, 30i16, 30i16, 20i16, -10i16, -30i16,
        -30i16, -10i16, 30i16, 40i16, 40i16, 30i16, -10i16, -30i16,
        -30i16, -10i16, 30i16, 40i16, 40i16, 30i16, -10i16, -30i16,
        -30i16, -10i16, 20i16, 30i16, 30i16, 20i16, -10i16, -30i16,
        -30i16, -20i16, -10i16, 0i16, 0i16, -10i16, -20i16, -30i16,
        -50i16, -40i16, -30i16, -20i16, -20i16, -30i16, -40i16, -50i16,
    ];
    proof {
        assert(v@ =~= king_endgame_table());
        assert forall|i: int| 0 <= i < 64 implies -100 <= #[trigger] v@[i] <= 100 by {
            assert(-100 <= king_endgame_table()[i] <= 100);
        }
    }
    v
}

/// Bonus for a passed pawn, by squares left to promotion.
pub open spec fn passed_pawn_bonus_table() -> Seq<i16> {
    seq![
        0i16, 30i16, 20i16, 12i16, 5i16, 5i16, 0i16, 0i16,
    ]
}

/// Bonus for a passed pawn, by squares left to promotion.
pub fn passed_pawn_bonus_weights() -> (v: Vec<i16>)
    ensures
        v@ == passed_pawn_bonus_table(),
        forall|i: int| 0 <= i < 8 ==> -100 <= #[trigger] v@[i] <= 100,
{
    let v: Vec<i16> = vec![
        0i16, 30i16, 20i16, 12i16, 5i16, 5i16, 0i16, 0i16,
    ];
    proof {
        assert(v@ =~= passed_pawn_bonus_table());
        assert forall|i: int| 0 <= i < 8 implies -100 <= #[trigger] v@[i] <= 100 by {
            assert(-100 <= passed_pawn_bonus_table()[i] <= 100);
        }
    }
    v
}

/// Endgame bonus for a passed pawn, by squares left to promotion.
pub open spec fn passed_pawn_bonus_endgame_table() -> Seq<i16> {
    seq![
        0i16, 60i16, 40i16, 25i16, 15i16, 10i16, 10i16, 0i16,
    ]
}

/// Endgame bonus for a passed pawn, by squares left to promotion.
pub fn passed_pawn_bonus_endgame_weights() -> (v: Vec<i16>)
    ensures
        v@ == passed_pawn_bonus_endgame_table(),
        forall|i: int| 0 <= i < 8 ==> -100 <= #[trigger] v@[i] <= 100,
{
    let v: Vec<i16> = vec![
        0i16, 60i16, 40i16, 25i16, 15i16, 10i16, 10i16, 0i16,
    ];
    proof {
        assert(v@ =~= passed_pawn_bonus_endgame_table());
        assert forall|i: int| 0 <= i < 8 implies -100 <= #[trigger] v@[i] <= 100 by {
            assert(-100 <= passed_pawn_bonus_endgame_table()[i] <= 100);
        }
    }
    v
}

/// Penalty for an isolated pawn, by file; an isolated d-pawn costs less,
/// since it controls the centre and the queen tends to defend it.
pub open spec fn isolated_pawn_penalty_table() -> Seq<i16> {
    seq![
        -15i16, -15i16, -15i16, -5i16, -15i16, -15i16, -15i16, -15i16,
    ]
}

/// Penalty for an isolated pawn, by file; an isolated d-pawn costs less,
/// since it controls the centre and the queen tends to defend it.
pub fn isolated_pawn_penalty_weights() -> (v: Vec<i16>)
    ensures
        v@ == isolated_pawn_penalty_table(),
        forall|i: int| 0 <= i < 8 ==> -100 <= #[trigger] v@[i] <= 100,
{
    let v: Vec<i16> = vec![
        -15i16, -15i16, -15i16, -5i16, -15i16, -15i16, -15i16, -15i16,
    ];
    proof {
        assert(v@ =~= isolated_pawn_penalty_table());
        assert forall|i: int| 0 <= i < 8 implies -100 <= #[trigger] v@[i] <= 100 by {
            assert(-100 <= isolated_pawn_penalty_table()[i] <= 100);
        }
    }
    v
}

/// Endgame penalty for an isolated pawn, by file.
pub open spec fn isolated_pawn_penalty_endgame_table() -> Seq<i16> {
    seq![
        -30i16, -30i16, -30i16, -30i16, -30i16, -30i16, -30i16, -30i16,
    ]
}

/// Endgame penalty for an isolated pawn, by file.
pub fn isolated_pawn_penalty_endgame_weights() -> (v: Vec<i16>)
    ensures
        v@ == isolated_pawn_penalty_endgame_table(),
        forall|i: int| 0 <= i < 8 ==> -100 <= #[trigger] v@[i] <= 100,
{
    let v: Vec<i16> = vec![
        -30i16, -30i16, -30i16, -30i16, -30i16, -30i16, -30i16, -30i16,
    ];
    proof {
        assert(v@ =~= isolated_pawn_penalty_endgame_table());
        assert forall|i: int| 0 <= i < 8 implies -100 <= #[trigger] v@[i] <= 100 by {
            assert(-100 <= isolated_pawn_penalty_endgame_table()[i] <= 100);
        }
    }
    v
}

/// Penalty applied by the weighted attack pressure on the king's zone.
pub open spec fn king_attack_table() -> Seq<i16> {
    seq![
        0i16, 0i16, -1i16, -2i16, -5i16, -10i16, -50i16, -100i16,
    ]
}

/// Penalty applied by the weighted attack pressure on the king's zone.
pub fn king_attack_weights() -> (v: Vec<i16>)
    ensures
        v@ == king_attack_table(),
        forall|i: int| 0 <= i < 8 ==> -100 <= #[trigger] v@[i] <= 100,
{
    let v: Vec<i16> = vec![
        0i16, 0i16, -1i16, -2i16, -5i16, -10i16, -50i16, -100i16,
    ];
    proof {
        assert(v@ =~= king_attack_table());
        assert forall|i: int| 0 <= i < 8 implies -100 <= #[trigger] v@[i] <= 100 by {
            assert(-100 <= king_attack_table()[i] <= 100);
        }
    }
    v
}

} // verus!
