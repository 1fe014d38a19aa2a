use negamax::game::{Edge, Game, Move, Node};
use negamax::move_ordering::{KillerTable, order_moves};
use negamax::search::{
    CHECKMATE_SCORE, CancelSignal, MIN_SCORE, STALEMATE_SCORE, SearchParameters, Score,
    extensions, is_threefold_repetition, quiescence, search,
};
use negamax::transposition::{TranspositionEntry, TranspositionTable};

fn quiet_move(origin: u8, target: u8) -> Move {
    Move { origin, target, is_capture: false, moved_piece_is_pawn: false, victim_value: 0 }
}

fn capture_move(origin: u8, target: u8, victim_value: i16) -> Move {
    Move { origin, target, is_capture: true, moved_piece_is_pawn: false, victim_value }
}

fn leaf(eval: i16, in_check: bool) -> Node {
    Node { eval, in_check, half_move_clock: 0, hash: 0, moves: vec![] }
}

fn node(eval: i16, in_check: bool, hash: u64, moves: Vec<Edge>) -> Node {
    Node { eval, in_check, half_move_clock: 0, hash, moves }
}

fn run(
    game: &Game,
    depth: u8,
    history: &mut Vec<u64>,
    stop: &mut CancelSignal,
) -> negamax::search::SearchResult {
    let mut tt = TranspositionTable::new(64);
    let mut killers = KillerTable::new();
    search(game, 0, history, &mut tt, &mut killers, SearchParameters::new(depth), stop)
}

#[test]
fn fifty_move_rule_is_an_immediate_draw() {
    let game = Game {
        nodes: vec![Node { eval: 700, in_check: false, half_move_clock: 100, hash: 9, moves: vec![] }],
    };
    let mut history: Vec<u64> = vec![1, 2, 3];
    let mut stop = CancelSignal::never();
    let r = run(&game, 4, &mut history, &mut stop);
    assert_eq!(r.score, STALEMATE_SCORE);
    assert!(r.best_move.is_none());
    assert_eq!(r.nodes_explored, 1);
    assert_eq!(history, vec![1, 2, 3]);
}

#[test]
fn third_occurrence_of_a_hash_is_an_immediate_draw() {
    // The root position's hash already occurred twice along the path.
    let game = Game {
        nodes: vec![Node {
            eval: 700,
            in_check: false,
            half_move_clock: 10,
            hash: 42,
            moves: vec![],
        }],
    };
    let mut history: Vec<u64> = vec![42, 7, 42, 8];
    let mut stop = CancelSignal::never();
    let r = run(&game, 4, &mut history, &mut stop);
    assert_eq!(r.score, STALEMATE_SCORE);
    assert!(r.best_move.is_none());
    assert_eq!(r.nodes_explored, 1);
}

#[test]
fn repetition_window_is_bounded_by_the_half_move_clock() {
    // Both earlier occurrences lie beyond the half-move clock, so they
    // cannot repeat and no draw is seen.
    assert!(!is_threefold_repetition(2, 0, &vec![42, 42, 7, 8], 42));
    assert!(is_threefold_repetition(4, 0, &vec![42, 42, 7, 8], 42));
    assert!(!is_threefold_repetition(4, 0, &vec![42, 7, 8], 42));
}

#[test]
fn checkmated_root_scores_the_mate_band() {
    let game = Game { nodes: vec![leaf(0, true)] };
    let mut history: Vec<u64> = vec![];
    let mut stop = CancelSignal::never();
    let r = run(&game, 3, &mut history, &mut stop);
    assert_eq!(r.score, CHECKMATE_SCORE);
    assert!(r.best_move.is_none());
    assert_eq!(r.nodes_explored, 1);
}

#[test]
fn stalemated_root_scores_the_draw() {
    let game = Game { nodes: vec![leaf(300, false)] };
    let mut history: Vec<u64> = vec![];
    let mut stop = CancelSignal::never();
    let r = run(&game, 3, &mut history, &mut stop);
    assert_eq!(r.score, STALEMATE_SCORE);
    assert!(r.best_move.is_none());
    assert_eq!(r.nodes_explored, 1);
}

#[test]
fn quiescence_on_a_quiet_position_stands_pat() {
    // No captures, mover not in check: exactly the static evaluation, one
    // node, no best move.
    let game = Game {
        nodes: vec![
            node(42, false, 1, vec![Edge { mv: quiet_move(0, 8), child: 1 }]),
            leaf(0, false),
        ],
    };
    let mut stop = CancelSignal::never();
    let r = quiescence(&game, 0, MIN_SCORE, -MIN_SCORE, &mut stop);
    assert_eq!(r.score, 42);
    assert!(r.best_move.is_none());
    assert_eq!(r.nodes_explored, 1);
}

#[test]
fn quiescence_resolves_a_capture_sequence() {
    // Root may capture into a quiet position worth -200 to the opponent.
    let game = Game {
        nodes: vec![
            node(-50, false, 1, vec![Edge { mv: capture_move(0, 9, 300), child: 1 }]),
            leaf(-200, false),
        ],
    };
    let mut stop = CancelSignal::never();
    let r = quiescence(&game, 0, MIN_SCORE, -MIN_SCORE, &mut stop);
    assert_eq!(r.score, 200);
    assert_eq!(r.nodes_explored, 2);
}

#[test]
fn quiescence_in_check_with_no_evasion_is_mate() {
    let game = Game { nodes: vec![leaf(0, true)] };
    let mut stop = CancelSignal::never();
    let r = quiescence(&game, 0, MIN_SCORE, -MIN_SCORE, &mut stop);
    assert_eq!(r.score, CHECKMATE_SCORE);
    assert_eq!(r.nodes_explored, 1);
    assert!(r.best_move.is_none());
}

#[test]
fn quiescence_in_check_searches_quiet_evasions_too() {
    // In check, even non-captures are searched: the evasion leads to a
    // quiet position worth -150 to the opponent.
    let game = Game {
        nodes: vec![
            node(0, true, 1, vec![Edge { mv: quiet_move(0, 8), child: 1 }]),
            leaf(-150, false),
        ],
    };
    let mut stop = CancelSignal::never();
    let r = quiescence(&game, 0, MIN_SCORE, -MIN_SCORE, &mut stop);
    assert_eq!(r.score, 150);
    assert_eq!(r.nodes_explored, 2);
}

#[test]
fn mate_in_one_is_found_with_the_mating_move() {
    let mating = quiet_move(1, 2);
    let passing = quiet_move(1, 3);
    let game = Game {
        nodes: vec![
            node(
                0,
                false,
                10,
                vec![Edge { mv: mating, child: 1 }, Edge { mv: passing, child: 2 }],
            ),
            leaf(0, true),
            leaf(0, false),
        ],
    };
    let mut history: Vec<u64> = vec![];
    let mut stop = CancelSignal::never();
    let r = run(&game, 2, &mut history, &mut stop);
    // The mated child reports CHECKMATE_SCORE + 1; the root negates it.
    assert_eq!(r.score, -(CHECKMATE_SCORE + 1));
    assert_eq!(r.best_move, Some(mating));
    assert!(history.is_empty());
}

#[test]
fn shallower_mates_are_preferred() {
    // The mate band orders by distance from the root: mate now beats any
    // static score, which beats being mated.
    assert!(CHECKMATE_SCORE + 1 < CHECKMATE_SCORE + 3);
    assert!(-(CHECKMATE_SCORE + 1) > -(CHECKMATE_SCORE + 3));
    assert!(CHECKMATE_SCORE + 3 < -10000);
}

#[test]
fn cancellation_before_any_move_returns_no_best_move() {
    let game = Game {
        nodes: vec![
            node(
                0,
                false,
                10,
                vec![Edge { mv: quiet_move(1, 2), child: 1 }, Edge { mv: quiet_move(1, 3), child: 2 }],
            ),
            leaf(-100, false),
            leaf(-300, false),
        ],
    };
    let mut history: Vec<u64> = vec![];
    let mut stop = CancelSignal::raised();
    let r = run(&game, 1, &mut history, &mut stop);
    assert!(r.best_move.is_none());
    assert_eq!(r.nodes_explored, 1);
    assert_eq!(r.score, MIN_SCORE);
    assert!(history.is_empty());
}

#[test]
fn cancellation_after_the_first_move_keeps_its_result() {
    // The flag is seen raised at the second read: only the first move was
    // scored, and the result reflects exactly that much work.
    let first = quiet_move(1, 2);
    let second = quiet_move(1, 3);
    let game = Game {
        nodes: vec![
            node(0, false, 10, vec![Edge { mv: first, child: 1 }, Edge { mv: second, child: 2 }]),
            leaf(-100, false),
            leaf(-300, false),
        ],
    };
    let mut history: Vec<u64> = vec![];
    let mut stop = CancelSignal::raised_after(1);
    let r = run(&game, 1, &mut history, &mut stop);
    assert_eq!(r.best_move, Some(first));
    assert_eq!(r.score, 100);
    assert_eq!(r.nodes_explored, 2);
    assert!(history.is_empty());
}

#[test]
fn full_width_root_picks_the_best_line() {
    let better = quiet_move(1, 2);
    let worse = quiet_move(1, 3);
    let game = Game {
        nodes: vec![
            node(0, false, 10, vec![Edge { mv: worse, child: 1 }, Edge { mv: better, child: 2 }]),
            leaf(-100, false),
            leaf(-300, false),
        ],
    };
    // The children's evaluations favour the mover: -(-300) beats -(-100).
    let mut history: Vec<u64> = vec![];
    let mut stop = CancelSignal::never();
    let r = run(&game, 1, &mut history, &mut stop);
    assert_eq!(r.score, 300);
    assert_eq!(r.best_move, Some(better));
    assert_eq!(r.nodes_explored, 3);
}

#[test]
fn narrowed_window_fails_low_at_the_floor() {
    // Both replies fall short of the raised floor, so the search reports
    // exactly the floor back — an upper bound on the true value — and
    // names no best move.
    let game = Game {
        nodes: vec![
            node(
                0,
                false,
                10,
                vec![Edge { mv: quiet_move(1, 2), child: 1 }, Edge { mv: quiet_move(1, 3), child: 2 }],
            ),
            leaf(-100, false),
            leaf(-300, false),
        ],
    };
    let mut tt = TranspositionTable::new(64);
    let mut killers = KillerTable::new();
    let mut history: Vec<u64> = vec![];
    let mut stop = CancelSignal::never();
    let r = search(
        &game,
        0,
        &mut history,
        &mut tt,
        &mut killers,
        SearchParameters::new_with_alpha(1, 400),
        &mut stop,
    );
    assert_eq!(r.score, 400);
    assert!(r.best_move.is_none());
}

#[test]
fn transposition_hit_short_circuits_the_second_search() {
    let better = quiet_move(1, 2);
    let worse = quiet_move(1, 3);
    let game = Game {
        nodes: vec![
            node(0, false, 10, vec![Edge { mv: worse, child: 1 }, Edge { mv: better, child: 2 }]),
            leaf(-100, false),
            leaf(-300, false),
        ],
    };
    let mut tt = TranspositionTable::new(64);
    let mut killers = KillerTable::new();
    let mut history: Vec<u64> = vec![];
    let mut stop = CancelSignal::never();
    let first = search(
        &game, 0, &mut history, &mut tt, &mut killers, SearchParameters::new(1), &mut stop,
    );
    assert!(first.nodes_explored > 1);
    let second = search(
        &game, 0, &mut history, &mut tt, &mut killers, SearchParameters::new(1), &mut stop,
    );
    assert_eq!(second.nodes_explored, 1);
    assert_eq!(second.score, first.score);
    assert_eq!(second.best_move, first.best_move);
}

#[test]
fn cached_lower_bound_narrows_the_window_and_orders_the_hash_move_first() {
    let m1 = quiet_move(1, 2);
    let m2 = quiet_move(1, 3);
    let game = Game {
        nodes: vec![
            node(0, false, 10, vec![Edge { mv: m1, child: 1 }, Edge { mv: m2, child: 2 }]),
            leaf(-100, false),
            leaf(-300, false),
        ],
    };
    let mut tt = TranspositionTable::new(64);
    tt.insert(TranspositionEntry {
        hash: 10,
        best_move: m2,
        score: Score::LowerBound(-50),
        ply: 5,
    });
    let mut killers = KillerTable::new();
    let mut history: Vec<u64> = vec![];
    let mut stop = CancelSignal::never();
    let r = search(
        &game, 0, &mut history, &mut tt, &mut killers, SearchParameters::new(1), &mut stop,
    );
    // Beta was lowered to -50, the cached move was tried first, scored 300
    // and failed high at once: only that one line was searched.
    assert_eq!(r.score, -50);
    assert_eq!(r.best_move, Some(m2));
    assert_eq!(r.nodes_explored, 2);
    assert_eq!(killers.get(0), Some(m2));
}

#[test]
fn cached_upper_bound_can_collapse_the_window_outright() {
    let game = Game {
        nodes: vec![
            node(0, false, 10, vec![Edge { mv: quiet_move(1, 2), child: 1 }]),
            leaf(-100, false),
        ],
    };
    let mut tt = TranspositionTable::new(64);
    tt.insert(TranspositionEntry {
        hash: 10,
        best_move: quiet_move(1, 2),
        score: Score::UpperBound(-(MIN_SCORE)),
        ply: 5,
    });
    let mut killers = KillerTable::new();
    let mut history: Vec<u64> = vec![];
    let mut stop = CancelSignal::never();
    let r = search(
        &game, 0, &mut history, &mut tt, &mut killers, SearchParameters::new(1), &mut stop,
    );
    // Alpha was raised to the top of the window: nothing left to explore.
    assert_eq!(r.score, -(MIN_SCORE));
    assert!(r.best_move.is_none());
    assert_eq!(r.nodes_explored, 1);
}

#[test]
fn quiet_cutoff_move_is_remembered_as_a_killer() {
    // At depth one below the root the window is narrowed by the first
    // root move; the quiet refutation there fails high and is recorded.
    let refutation = quiet_move(4, 5);
    let game = Game {
        nodes: vec![
            node(
                0,
                false,
                10,
                vec![Edge { mv: quiet_move(1, 2), child: 1 }, Edge { mv: quiet_move(1, 3), child: 2 }],
            ),
            leaf(0, false),
            node(0, false, 11, vec![Edge { mv: refutation, child: 3 }]),
            leaf(-100, false),
        ],
    };
    let mut tt = TranspositionTable::new(64);
    let mut killers = KillerTable::new();
    let mut history: Vec<u64> = vec![];
    let mut stop = CancelSignal::never();
    let _ = search(
        &game, 0, &mut history, &mut tt, &mut killers, SearchParameters::new(2), &mut stop,
    );
    assert_eq!(killers.get(1), Some(refutation));
}

#[test]
fn history_stack_is_balanced_through_a_deep_search() {
    let game = Game {
        nodes: vec![
            node(0, false, 10, vec![Edge { mv: quiet_move(1, 2), child: 1 }]),
            node(50, false, 11, vec![Edge { mv: quiet_move(2, 3), child: 2 }]),
            leaf(-25, false),
        ],
    };
    let mut history: Vec<u64> = vec![99, 98];
    let mut stop = CancelSignal::never();
    let _ = run(&game, 3, &mut history, &mut stop);
    assert_eq!(history, vec![99, 98]);
}

#[test]
fn search_parameters_track_depth_window_and_extensions() {
    let p = SearchParameters::new(6);
    assert_eq!(p.ply, 6);
    assert_eq!(p.ply_from_root, 0);
    assert_eq!(p.extensions, 0);
    assert_eq!(p.alpha, MIN_SCORE);
    assert_eq!(p.beta, -MIN_SCORE);

    let q = SearchParameters::new_with_alpha(6, -12);
    assert_eq!(q.alpha, -12);

    let n = q.next_ply();
    assert_eq!(n.ply, 5);
    assert_eq!(n.ply_from_root, 1);
    assert_eq!(n.alpha, MIN_SCORE);
    assert_eq!(n.beta, 12);

    let mut e = SearchParameters::new(6);
    e.add_extension(2);
    assert_eq!(e.ply, 8);
    assert_eq!(e.extensions, 2);

    let f = SearchParameters::new(6).quiescent();
    assert_eq!(f.ply, u8::MAX);
    assert_eq!(f.ply_from_root, 1);
}

#[test]
fn score_inner_strips_the_bound_kind() {
    assert_eq!(Score::Exact(7).inner(), 7);
    assert_eq!(Score::LowerBound(-3).inner(), -3);
    assert_eq!(Score::UpperBound(11).inner(), 11);
}

#[test]
fn extension_policy_rewards_forcing_moves_and_respects_the_budget() {
    let game = Game { nodes: vec![leaf(0, false), leaf(0, true)] };
    let promoting = Move {
        origin: 40,
        target: 48,
        is_capture: false,
        moved_piece_is_pawn: true,
        victim_value: 0,
    };
    // Target rank 6: one ply for the promotion threat.
    assert_eq!(extensions(0, &game, 0, &promoting), 1);
    // A check after the move earns one more.
    assert_eq!(extensions(0, &game, 1, &promoting), 2);
    // A quiet move to the middle of the board earns nothing.
    assert_eq!(extensions(0, &game, 0, &quiet_move(8, 16)), 0);
    // The budget caps what can still be granted.
    assert_eq!(extensions(3, &game, 1, &promoting), 1);
    assert_eq!(extensions(4, &game, 1, &promoting), 0);
}

#[test]
fn move_ordering_brings_hints_forward() {
    let a = Edge { mv: quiet_move(0, 1), child: 1 };
    let b = Edge { mv: quiet_move(0, 2), child: 2 };
    let c = Edge { mv: quiet_move(0, 3), child: 3 };
    let moves = vec![a, b, c];
    let ordered = order_moves(&moves, Some(c.mv), Some(b.mv));
    assert_eq!(ordered.len(), 3);
    assert_eq!(ordered[0], c);
    assert_eq!(ordered[1], b);
    assert_eq!(ordered[2], a);

    // Hints that are not among the moves are ignored.
    let unordered = order_moves(&moves, Some(quiet_move(9, 9)), None);
    assert_eq!(unordered, vec![a, b, c]);
}

#[test]
fn transposition_table_stores_by_hash_and_rejects_collisions() {
    let mut tt = TranspositionTable::new(4);
    let m = quiet_move(0, 1);
    tt.insert(TranspositionEntry { hash: 5, best_move: m, score: Score::Exact(17), ply: 2 });
    let hit = tt.get(5).expect("stored entry");
    assert_eq!(hit.score.inner(), 17);
    assert_eq!(hit.best_move, m);
    // Hash 9 maps to the same slot but is a different position.
    assert!(tt.get(9).is_none());
}

#[test]
fn cancel_signal_raises_at_the_scheduled_read() {
    let mut s = CancelSignal::raised_after(2);
    assert!(!s.poll());
    assert!(!s.poll());
    assert!(s.poll());
    assert!(s.poll());
    let mut never = CancelSignal::never();
    assert!(!never.poll());
}
