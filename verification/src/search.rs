//! Negamax search with alpha-beta pruning, quiescence extension, search-depth
//! extensions and transposition-table memoization.

use vstd::prelude::*;

use crate::game::{Edge, Game, Move, Node, has_move, legal_for_hash};
use crate::move_ordering::{KillerTable, order_moves};
use crate::transposition::{TranspositionEntry, TranspositionTable};

verus! {

/// Depth extensions along one line of play never exceed this many plies in
/// total, so forcing sequences cannot blow the search up.
pub const MAX_EXTENSION_DEPTH: u8 = 4;

/// Centipawn value of the most valuable capturable piece, the queen; equals
/// `board::value_of_piece(Piece::Queen)`.
pub const MAX_CAPTURE_VALUE: i16 = 900;

/// Safety margin in centipawns for per-move delta pruning.
pub const DELTA: i16 = 300;

/// Score of a drawn position (stalemate, repetition, fifty-move rule).
pub const STALEMATE_SCORE: i16 = 0;

/// Score of the side to move when it stands checkmated.  Reported mate scores
/// are biased by the distance from the search root, so shallower mates score
/// more extremely than deeper ones.
pub const CHECKMATE_SCORE: i16 = -20000;

/// Greatest magnitude a static evaluation may have; mate scores lie strictly
/// beyond every static score.
pub const MAX_EVAL: i16 = 10000;

/// Greatest score the search window may hold.
pub const MAX_SCORE: i16 = 30000;

/// Least score the search window may hold.
pub const MIN_SCORE: i16 = -30000;

/// Because the move search space is thinned by alpha-beta pruning, the score
/// determined for a position may be exact or only a bound on the true value.
#[derive(Copy, Clone, Debug)]
pub enum Score {
    /// Every option was explored and the score is exact.
    Exact(i16),
    /// A beta cutoff fired: the true score is at least this value, but the
    /// opponent would not allow the line, so exploration stopped.
    LowerBound(i16),
    /// No move improved alpha: the true score is at most this value.
    UpperBound(i16),
}

impl Score {
    /// The carried value, whatever the bound kind.
    pub open spec fn spec_inner(&self) -> int {
        match *self {
            Score::Exact(eval) => eval as int,
            Score::LowerBound(eval) => eval as int,
            Score::UpperBound(eval) => eval as int,
        }
    }

    /// Strips the bound kind off the score.
    pub fn inner(&self) -> (r: i16)
        ensures
            r as int == self.spec_inner(),
    {
        match self {
            Score::Exact(eval) => *eval,
            Score::LowerBound(eval) => *eval,
            Score::UpperBound(eval) => *eval,
        }
    }
}

/// Per-call search state: remaining depth, distance from the root, extensions
/// already spent, and the open alpha-beta window, always expressed from the
/// current side to move's perspective.
pub struct SearchParameters {
    /// Remaining nominal depth.
    pub ply: u8,
    /// Distance from the search root.
    pub ply_from_root: u8,
    /// Depth extensions already granted along this line.
    pub extensions: u8,
    /// Lower edge of the window: the best score already guaranteed.
    pub alpha: i16,
    /// Upper edge of the window: the score the opponent can already avoid.
    pub beta: i16,
}

impl SearchParameters {
    /// Both window edges lie inside the representable score range.
    pub open spec fn window_wf(&self) -> bool {
        &&& MIN_SCORE <= self.alpha <= MAX_SCORE
        &&& MIN_SCORE <= self.beta <= MAX_SCORE
    }

    /// Well-formedness: the extension budget is respected and depth plus the
    /// extensions still available never outgrow a `u8`, whatever the distance
    /// from the root already is.
    pub open spec fn wf(&self) -> bool {
        &&& self.extensions <= MAX_EXTENSION_DEPTH
        &&& self.ply_from_root as int + self.ply as int + (MAX_EXTENSION_DEPTH
            - self.extensions) as int <= u8::MAX as int
        &&& self.window_wf()
    }

    /// Root parameters: full window, nominal depth `max_depth`.
    pub fn new(max_depth: u8) -> (p: Self)
        requires
            max_depth <= u8::MAX - MAX_EXTENSION_DEPTH,
        ensures
            p.ply == max_depth,
            p.ply_from_root == 0,
            p.extensions == 0,
            p.alpha == MIN_SCORE,
            p.beta == MAX_SCORE,
            p.wf(),
            p.alpha < p.beta,
    {
        Self { ply: max_depth, ply_from_root: 0, extensions: 0, alpha: MIN_SCORE, beta: MAX_SCORE }
    }

    /// Root parameters with a raised floor: scores below `alpha` are already
    /// known to be beaten elsewhere.
    pub fn new_with_alpha(max_depth: u8, alpha: i16) -> (p: Self)
        requires
            max_depth <= u8::MAX - MAX_EXTENSION_DEPTH,
            MIN_SCORE <= alpha <= MAX_SCORE,
        ensures
            p.ply == max_depth,
            p.ply_from_root == 0,
            p.extensions == 0,
            p.alpha == alpha,
            p.beta == MAX_SCORE,
            p.wf(),
    {
        Self { ply: max_depth, ply_from_root: 0, extensions: 0, alpha, beta: MAX_SCORE }
    }

    /// Parameters for the next ply down: one less ply of depth, one more from
    /// the root, and the window negated and swapped (negamax convention).
    pub fn next_ply(&self) -> (p: Self)
        requires
            self.wf(),
            self.ply >= 1,
        ensures
            p.ply == self.ply - 1,
            p.ply_from_root == self.ply_from_root + 1,
            p.extensions == self.extensions,
            p.alpha == -self.beta,
            p.beta == -self.alpha,
            p.wf(),
            self.alpha < self.beta ==> p.alpha < p.beta,
    {
        Self {
            ply: self.ply - 1,
            ply_from_root: self.ply_from_root + 1,
            extensions: self.extensions,
            alpha: -self.beta,
            beta: -self.alpha,
        }
    }

    /// Grants `extensions` extra plies of depth, counting them against the
    /// global extension budget.
    pub fn add_extension(&mut self, extensions: u8)
        requires
            old(self).wf(),
            extensions <= MAX_EXTENSION_DEPTH - old(self).extensions,
        ensures
            final(self).ply == old(self).ply + extensions,
            final(self).extensions == old(self).extensions + extensions,
            final(self).ply_from_root == old(self).ply_from_root,
            final(self).alpha == old(self).alpha,
            final(self).beta == old(self).beta,
            final(self).wf(),
    {
        self.extensions = self.extensions + extensions;
        self.ply = self.ply + extensions;
    }

    /// Parameters for a quiescence continuation: effectively unlimited depth,
    /// one more ply from the root, the window negated and swapped.
    pub fn quiescent(&self) -> (p: Self)
        requires
            self.window_wf(),
            self.ply_from_root < u8::MAX,
        ensures
            p.ply == u8::MAX,
            p.ply_from_root == self.ply_from_root + 1,
            p.extensions == self.extensions,
            p.alpha == -self.beta,
            p.beta == -self.alpha,
    {
        Self {
            ply: u8::MAX,
            ply_from_root: self.ply_from_root + 1,
            extensions: self.extensions,
            alpha: -self.beta,
            beta: -self.alpha,
        }
    }
}

/// What a search call hands back up: the score, the best move found (absent
/// at terminal positions and when cancellation struck before any move was
/// scored), and how many nodes were visited.
#[derive(Debug)]
pub struct SearchResult {
    /// Final score from the side to move's perspective.
    pub score: i16,
    /// The move the score belongs to, when one was established.
    pub best_move: Option<Move>,
    /// Positions visited, for diagnostics; saturates rather than wraps.
    pub nodes_explored: u64,
}

/// Cooperative cancellation, read once per move in both searches.  The flag
/// is never lowered once raised; its raising is modelled as a fixed point in
/// the sequence of reads, so a search can be cancelled mid-flight and the
/// behaviour stays reproducible.
pub struct CancelSignal {
    /// The read from which the flag is seen raised; `None` reads false forever.
    pub raised_at: Option<u64>,
    /// How many reads have happened so far; saturates.
    pub polls_made: u64,
}

impl CancelSignal {
    /// Whether a read made now would see the flag raised.
    pub open spec fn raised_now(&self) -> bool {
        match self.raised_at {
            Some(k) => self.polls_made >= k,
            None => false,
        }
    }

    /// A signal that never cancels.
    pub fn never() -> (s: Self)
        ensures
            s.raised_at is None,
            s.polls_made == 0,
    {
        Self { raised_at: None, polls_made: 0 }
    }

    /// A signal already raised before the search starts.
    pub fn raised() -> (s: Self)
        ensures
            s.raised_at == Some(0u64),
            s.polls_made == 0,
    {
        Self { raised_at: Some(0), polls_made: 0 }
    }

    /// A signal that reads false for the first `reads` reads and true after.
    pub fn raised_after(reads: u64) -> (s: Self)
        ensures
            s.raised_at == Some(reads),
            s.polls_made == 0,
    {
        Self { raised_at: Some(reads), polls_made: 0 }
    }

    /// One read of the flag.
    pub fn poll(&mut self) -> (c: bool)
        ensures
            c == old(self).raised_now(),
            final(self).raised_at == old(self).raised_at,
            final(self).polls_made == if old(self).polls_made == u64::MAX {
                u64::MAX as int
            } else {
                old(self).polls_made + 1
            },
    {
        let c = match self.raised_at {
            Some(k) => self.polls_made >= k,
            None => false,
        };
        if self.polls_made < u64::MAX {
            self.polls_made = self.polls_made + 1;
        }
        c
    }
}

/// Node-count bookkeeping: an exact sum while it fits, saturating after.
fn add_nodes(a: u64, b: u64) -> (r: u64)
    ensures
        r as int == if a + b <= u64::MAX { a + b } else { u64::MAX as int },
        r >= a,
        r >= b,
{
    if a <= u64::MAX - b {
        a + b
    } else {
        u64::MAX
    }
}

/// Saturating addition on scores, as the delta-pruning margin comparisons
/// need: checkmate-magnitude scores must never wrap.
fn saturating_add_score(a: i16, b: i16) -> (r: i16)
    ensures
        r as int == if a + b > i16::MAX {
            i16::MAX as int
        } else if a + b < i16::MIN {
            i16::MIN as int
        } else {
            a + b
        },
{
    let wide: i32 = a as i32 + b as i32;
    if wide > i16::MAX as i32 {
        i16::MAX
    } else if wide < i16::MIN as i32 {
        i16::MIN
    } else {
        wide as i16
    }
}

/// Occurrences of `hash` among `history[lo..hi]`.
pub open spec fn count_hash(history: Seq<u64>, hash: u64, lo: int, hi: int) -> int
    decreases hi - lo,
{
    if hi <= lo {
        0
    } else {
        count_hash(history, hash, lo, hi - 1) + if history[hi - 1] == hash {
            1int
        } else {
            0int
        }
    }
}

/// Threefold repetition: the current position's hash already occurs at least
/// twice among the positions reached since the last irreversible move, so
/// this visit is at least the third occurrence.
pub open spec fn threefold_spec(half_move_clock: u8, history: Seq<u64>, hash: u64) -> bool {
    let window = if half_move_clock as int <= history.len() {
        half_move_clock as int
    } else {
        history.len() as int
    };
    count_hash(history, hash, history.len() - window, history.len() as int) >= 2
}

/// Repetition detector: counts how often `hash` occurs among the last
/// `half_move_clock` entries of the history (earlier entries lie beyond an
/// irreversible move and can never repeat).
pub fn is_threefold_repetition(
    half_move_clock: u8,
    _ply_from_root: u8,
    history: &Vec<u64>,
    hash: u64,
) -> (r: bool)
    ensures
        r == threefold_spec(half_move_clock, history@, hash),
{
    let len = history.len();
    let window = if (half_move_clock as usize) <= len {
        half_move_clock as usize
    } else {
        len
    };
    let start = len - window;
    let mut count: u64 = 0;
    let mut j = start;
    while j < len
        invariant
            start <= j <= len,
            len == history@.len(),
            count == count_hash(history@, hash, start as int, j as int),
            count <= j - start,
        decreases len - j,
    {
        if history[j] == hash {
            count = count + 1;
        }
        j = j + 1;
    }
    count >= 2
}

/// Whether the position at `node` is an immediate draw: fifty-move rule or
/// threefold repetition.
pub open spec fn spec_is_draw(game: Game, node: int, history: Seq<u64>) -> bool {
    let n = game.nodes@[node];
    n.half_move_clock >= 100 || threefold_spec(n.half_move_clock, history, n.hash)
}

/// Whether none of the legal moves of `n` is a capture.
pub open spec fn no_captures(n: Node) -> bool {
    forall|j: int| 0 <= j < n.moves@.len() ==> !(#[trigger] n.moves@[j]).mv.is_capture
}

/// The capture moves among the first `n` edges of `s`, in order.
pub open spec fn spec_captures(s: Seq<Edge>, n: int) -> Seq<Edge>
    decreases n,
{
    if n <= 0 {
        Seq::empty()
    } else {
        let p = spec_captures(s, n - 1);
        if s[n - 1].mv.is_capture {
            p.push(s[n - 1])
        } else {
            p
        }
    }
}

/// Every filtered edge is a capture and one of the given edges.
proof fn lemma_captures_contained(s: Seq<Edge>, n: int)
    requires
        0 <= n <= s.len(),
    ensures
        forall|i: int|
            0 <= i < spec_captures(s, n).len() ==> s.contains(#[trigger] spec_captures(s, n)[i])
                && spec_captures(s, n)[i].mv.is_capture,
    decreases n,
{
    if n > 0 {
        lemma_captures_contained(s, n - 1);
        assert forall|i: int| 0 <= i < spec_captures(s, n).len() implies s.contains(
            #[trigger] spec_captures(s, n)[i],
        ) && spec_captures(s, n)[i].mv.is_capture by {
            if i < spec_captures(s, n - 1).len() {
                assert(spec_captures(s, n)[i] == spec_captures(s, n - 1)[i]);
            } else {
                assert(spec_captures(s, n)[i] == s[n - 1]);
            }
        }
    }
}

/// The capture moves of `moves`, in generation order.
fn capture_edges(moves: &Vec<Edge>) -> (v: Vec<Edge>)
    ensures
        v@ == spec_captures(moves@, moves@.len() as int),
{
    let mut v: Vec<Edge> = Vec::new();
    let mut i: usize = 0;
    while i < moves.len()
        invariant
            i <= moves@.len(),
            v@ == spec_captures(moves@, i as int),
        decreases moves@.len() - i,
    {
        if moves[i].mv.is_capture {
            v.push(moves[i]);
        }
        i = i + 1;
    }
    v
}

/// A plain copy of the edge list.
fn copy_edges(moves: &Vec<Edge>) -> (v: Vec<Edge>)
    ensures
        v@ == moves@,
{
    let mut v: Vec<Edge> = Vec::new();
    let mut i: usize = 0;
    while i < moves.len()
        invariant
            i <= moves@.len(),
            v@ == moves@.subrange(0, i as int),
        decreases moves@.len() - i,
    {
        v.push(moves[i]);
        proof {
            assert(v@ =~= moves@.subrange(0, i + 1));
        }
        i = i + 1;
    }
    proof {
        assert(v@ =~= moves@);
    }
    v
}

/// How many extra plies `move_taken` earns, before capping: one when a pawn
/// reaches the second-to-last rank (a promotion threatens next move), one
/// when the position after the move is a check.
pub open spec fn spec_raw_extensions(position_in_check: bool, m: Move) -> int {
    (if m.moved_piece_is_pawn && (m.target as int / 8 == 1 || m.target as int / 8 == 6) {
        1int
    } else {
        0int
    }) + (if position_in_check {
        1int
    } else {
        0int
    })
}

/// The extensions actually granted: the raw count, capped so cumulative
/// extensions never pass the global budget.
pub open spec fn spec_extensions(num_extensions: u8, position_in_check: bool, m: Move) -> int {
    let raw = spec_raw_extensions(position_in_check, m);
    let budget = (MAX_EXTENSION_DEPTH - num_extensions) as int;
    if raw <= budget {
        raw
    } else {
        budget
    }
}

/// Search-depth extension policy, a pure function of the extension budget
/// already spent, the position reached (`position` indexes the game table)
/// and the move that reached it.
pub fn extensions(num_extensions: u8, game: &Game, position: usize, move_taken: &Move) -> (e: u8)
    requires
        num_extensions <= MAX_EXTENSION_DEPTH,
        position < game.nodes@.len(),
    ensures
        e as int == spec_extensions(
            num_extensions,
            game.nodes@[position as int].in_check,
            *move_taken,
        ),
{
    let mut extension: u8 = 0;
    let rank = move_taken.target / 8;
    if move_taken.moved_piece_is_pawn && (rank == 1 || rank == 6) {
        extension = extension + 1;
    }
    if game.nodes[position].in_check {
        extension = extension + 1;
    }
    let budget = MAX_EXTENSION_DEPTH - num_extensions;
    if extension <= budget {
        extension
    } else {
        budget
    }
}

/// Capture-only search past the nominal depth limit: resolves forcing
/// sequences (captures, check evasions) before the static evaluation is
/// trusted, preventing the horizon effect.
///
/// In check, every evasion is searched and the window floor stands in for
/// the untrustworthy static score; otherwise standing pat is allowed and
/// captures that cannot plausibly recover `alpha` are delta-pruned.
pub fn quiescence(game: &Game, node: usize, alpha: i16, beta: i16, stop: &mut CancelSignal) -> (r:
    SearchResult)
    requires
        game.wf(),
        node < game.nodes@.len(),
        MIN_SCORE <= alpha <= MAX_SCORE,
        MIN_SCORE <= beta <= MAX_SCORE,
    ensures
        r.best_move is None,
        MIN_SCORE <= r.score <= MAX_SCORE,
        r.nodes_explored >= 1,
        final(stop).raised_at == old(stop).raised_at,
        ({
            let n = game.nodes@[node as int];
            &&& (!n.in_check && n.eval >= beta ==> r.score == beta && r.nodes_explored == 1)
            &&& (!n.in_check && n.eval < beta && n.eval + MAX_CAPTURE_VALUE < alpha ==> r.score
                == alpha && r.nodes_explored == 1)
            &&& (!n.in_check && n.eval < beta && n.eval + MAX_CAPTURE_VALUE >= alpha
                && no_captures(n) ==> r.score == n.eval && r.nodes_explored == 1)
            &&& (n.in_check && alpha < beta && n.moves@.len() == 0 ==> r.score == CHECKMATE_SCORE
                && r.nodes_explored == 1)
            &&& (!n.in_check && no_captures(n) && alpha < beta ==> bound_ok(
                r.score as int,
                n.eval as int,
                alpha as int,
                beta as int,
            ))
        }),
    decreases game.nodes@.len() - node,
{
    let ghost n_spec = game.nodes@[node as int];
    let is_in_check = game.nodes[node].in_check;
    let current_score = if is_in_check {
        alpha
    } else {
        game.nodes[node].eval
    };
    proof {
        assert(-MAX_EVAL <= n_spec.eval <= MAX_EVAL);
    }

    let mut cur_alpha = if current_score > alpha {
        current_score
    } else {
        alpha
    };

    if current_score >= beta {
        return SearchResult { score: beta, best_move: None, nodes_explored: 1 };
    }
    if saturating_add_score(current_score, MAX_CAPTURE_VALUE) < cur_alpha {
        // Even a hanging queen cannot make this line worth exploring.
        return SearchResult { score: cur_alpha, best_move: None, nodes_explored: 1 };
    }

    let moves = if is_in_check {
        // Every move matters when evading a check.
        copy_edges(&game.nodes[node].moves)
    } else {
        // Only captures keep the position volatile.
        capture_edges(&game.nodes[node].moves)
    };

    proof {
        lemma_captures_contained(n_spec.moves@, n_spec.moves@.len() as int);
    }

    if moves.len() == 0 {
        let score = if is_in_check {
            CHECKMATE_SCORE
        } else {
            current_score
        };
        return SearchResult { score, best_move: None, nodes_explored: 1 };
    }

    proof {
        if !n_spec.in_check {
            assert(moves@[0] == spec_captures(n_spec.moves@, n_spec.moves@.len() as int)[0]);
            let j = choose|j: int| 0 <= j < n_spec.moves@.len() && n_spec.moves@[j] == moves@[0];
            assert(n_spec.moves@[j].mv.is_capture);
            assert(!no_captures(n_spec));
        }
    }

    let ordered = order_moves(&moves, None, None);
    proof {
        assert forall|k: int| 0 <= k < ordered@.len() implies n_spec.moves@.contains(
            #[trigger] ordered@[k],
        ) by {
            let j = choose|j: int| 0 <= j < moves@.len() && moves@[j] == ordered@[k];
            if !n_spec.in_check {
                assert(moves@[j] == spec_captures(n_spec.moves@, n_spec.moves@.len() as int)[j]);
            }
        }
    }

    let mut nodes_explored: u64 = 1;
    let mut i: usize = 0;
    while i < ordered.len()
        invariant
            game.wf(),
            node < game.nodes@.len(),
            n_spec == game.nodes@[node as int],
            i <= ordered@.len(),
            forall|k: int|
                0 <= k < ordered@.len() ==> n_spec.moves@.contains(#[trigger] ordered@[k]),
            MIN_SCORE <= cur_alpha <= MAX_SCORE,
            MIN_SCORE <= beta <= MAX_SCORE,
            MIN_SCORE <= current_score <= MAX_SCORE,
            current_score < beta,
            nodes_explored >= 1,
            stop.raised_at == old(stop).raised_at,
            n_spec.in_check ==> n_spec.moves@.len() > 0,
            !n_spec.in_check ==> !no_captures(n_spec),
            !n_spec.in_check ==> current_score == n_spec.eval,
            !n_spec.in_check ==> n_spec.eval + MAX_CAPTURE_VALUE >= alpha,
        decreases ordered@.len() - i,
    {
        let e = ordered[i];
        proof {
            let j = choose|j: int|
                0 <= j < n_spec.moves@.len() && n_spec.moves@[j] == ordered@[i as int];
            assert(game.wf_edge(node as int, n_spec.moves@[j]));
        }

        if stop.poll() {
            return SearchResult { score: current_score, best_move: None, nodes_explored };
        }

        // More delta pruning, but never when in check: every way out of a
        // possible mate must be seen.
        if !is_in_check {
            let victim = e.mv.victim_value;
            let maximum_advantage = victim + DELTA;
            if current_score + maximum_advantage < cur_alpha {
                i = i + 1;
                continue ;
            }
        }

        let search_result = quiescence(game, e.child, -beta, -cur_alpha, stop);
        let score = -search_result.score;
        nodes_explored = add_nodes(nodes_explored, search_result.nodes_explored);

        if score > cur_alpha {
            cur_alpha = score;
        }
        if score >= beta {
            return SearchResult { score, best_move: None, nodes_explored };
        }
        i = i + 1;
    }

    SearchResult { score: cur_alpha, best_move: None, nodes_explored }
}

/// How a score computed inside the window (`alpha`, `beta`) relates to the
/// value `v` an exhaustive search would compute: inside the window it is
/// exact, at or below `alpha` the true value is no greater, at or beyond
/// `beta` no smaller.
pub open spec fn bound_ok(r: int, v: int, alpha: int, beta: int) -> bool {
    &&& (alpha < r < beta ==> r == v)
    &&& (r <= alpha ==> v <= r)
    &&& (r >= beta ==> v >= r)
}

/// The best reply among the first `k` moves of `n` when each successor is
/// scored by its static evaluation: what an exhaustive one-ply search
/// computes over that prefix.
pub open spec fn best_reply_value(game: Game, n: Node, k: int) -> int
    decreases k,
{
    if k <= 0 {
        MIN_SCORE - 1
    } else {
        let prev = best_reply_value(game, n, k - 1);
        let reply = -(game.nodes@[n.moves@[k - 1].child as int].eval as int);
        if reply > prev {
            reply
        } else {
            prev
        }
    }
}

/// What an exhaustive (unpruned, full-window) one-ply search of `n` returns.
pub open spec fn depth_one_value(game: Game, n: Node, ply_from_root: u8) -> int {
    if n.moves@.len() == 0 {
        if n.in_check {
            CHECKMATE_SCORE + ply_from_root as int
        } else {
            STALEMATE_SCORE as int
        }
    } else {
        best_reply_value(game, n, n.moves@.len() as int)
    }
}

/// The prefix maximum can only see each reply from below.
proof fn lemma_best_reply_ge(game: Game, n: Node, k: int, j: int)
    requires
        0 <= j < k <= n.moves@.len(),
    ensures
        best_reply_value(game, n, k) >= -(game.nodes@[n.moves@[j].child as int].eval as int),
    decreases k,
{
    if j < k - 1 {
        lemma_best_reply_ge(game, n, k - 1, j);
    }
}

/// A bound on every reply bounds the prefix maximum.
proof fn lemma_best_reply_le(game: Game, n: Node, k: int, bound: int)
    requires
        0 <= k <= n.moves@.len(),
        MIN_SCORE - 1 <= bound,
        forall|j: int|
            0 <= j < k ==> -(game.nodes@[(#[trigger] n.moves@[j]).child as int].eval as int)
                <= bound,
    ensures
        best_reply_value(game, n, k) <= bound,
    decreases k,
{
    if k > 0 {
        lemma_best_reply_le(game, n, k - 1, bound);
    }
}

/// A position one ply above a quiet horizon: every move leads to a position
/// that is quiet (not in check, without captures), that cannot be an
/// immediate draw, and that earns no depth extension.  One ply of search
/// from here is decided by the successors' static evaluations alone, which
/// is what lets pruning be held against the exhaustive value.
pub open spec fn quiet_horizon(game: Game, n: Node) -> bool {
    forall|j: int|
        0 <= j < n.moves@.len() ==> {
            let e = #[trigger] n.moves@[j];
            let c = game.nodes@[e.child as int];
            &&& !c.in_check
            &&& no_captures(c)
            &&& c.half_move_clock < 100
            &&& !(e.mv.moved_piece_is_pawn && (e.mv.target as int / 8 == 1 || e.mv.target as int
                / 8 == 6))
        }
}

/// Checkmate scores form their own band below every static evaluation, and
/// the band orders mates by distance: a mate reported closer to the root
/// scores strictly lower for the mated side than one reported deeper, so
/// after the negamax sign flip the mating side prefers the shallower mate.
pub proof fn lemma_mate_score_ordering(shallow: u8, deep: u8, eval: i16)
    requires
        shallow < deep,
        -MAX_EVAL <= eval,
    ensures
        CHECKMATE_SCORE + shallow < CHECKMATE_SCORE + deep,
        CHECKMATE_SCORE + deep < eval,
        -(CHECKMATE_SCORE + shallow as int) > -(CHECKMATE_SCORE + deep as int),
{
}

/// Full-width negamax search with alpha-beta pruning, repetition and
/// fifty-move draw detection, transposition-table memoization, killer-move
/// bookkeeping and search-depth extensions.
///
/// The position history holds the hashes of the positions on the path to
/// `node`; the search pushes each successor's hash before recursing and pops
/// it after, so the history leaves exactly as it came — on every path,
/// cancellation and cutoff included.  A returned best move is always legal
/// for some position of the game bearing this position's hash (the
/// transposition table is keyed by hash alone, so that is all a cache hit
/// can promise).
///
/// Over a quiet horizon — one ply of depth left, every successor quiet,
/// fresh tables and no cancellation — the score is additionally proved
/// bound-consistent with the exhaustive full-window value: exact inside the
/// window, an upper bound of the truth when it fails low, a lower bound
/// when a cutoff fires.
pub fn search(
    game: &Game,
    node: usize,
    position_history: &mut Vec<u64>,
    transposition_table: &mut TranspositionTable,
    killers_table: &mut KillerTable,
    parameters: SearchParameters,
    stop: &mut CancelSignal,
) -> (r: SearchResult)
    requires
        game.wf(),
        node < game.nodes@.len(),
        parameters.wf(),
        parameters.alpha < parameters.beta,
        old(transposition_table).wf_for(*game),
        old(killers_table).wf(),
    ensures
        final(position_history)@ == old(position_history)@,
        final(transposition_table).wf_for(*game),
        final(killers_table).wf(),
        final(stop).raised_at == old(stop).raised_at,
        MIN_SCORE <= r.score <= MAX_SCORE,
        r.nodes_explored >= 1,
        forall|m: Move|
            r.best_move == Some(m) ==> legal_for_hash(
                *game,
                game.nodes@[node as int].hash,
                m,
            ),
        spec_is_draw(*game, node as int, old(position_history)@) ==> r.score == STALEMATE_SCORE
            && r.best_move is None && r.nodes_explored == 1,
        ({
            let n = game.nodes@[node as int];
            (!spec_is_draw(*game, node as int, old(position_history)@) && parameters.ply >= 1
                && old(transposition_table).lookup(n.hash) is None && n.moves@.len() == 0) ==> {
                &&& (n.in_check ==> r.score == CHECKMATE_SCORE + parameters.ply_from_root
                    && r.best_move is None && r.nodes_explored == 1)
                &&& (!n.in_check ==> r.score == STALEMATE_SCORE && r.best_move is None
                    && r.nodes_explored == 1)
            }
        }),
        (spec_is_draw(*game, node as int, old(position_history)@) || parameters.ply == 0)
            ==> final(transposition_table).entries@ == old(transposition_table).entries@,
        ({
            let n = game.nodes@[node as int];
            (!spec_is_draw(*game, node as int, old(position_history)@) && parameters.ply == 0
                && !n.in_check) ==> {
                &&& (n.eval >= parameters.beta ==> r.score == parameters.beta)
                &&& (n.eval < parameters.beta && n.eval + MAX_CAPTURE_VALUE < parameters.alpha
                    ==> r.score == parameters.alpha)
                &&& (n.eval < parameters.beta && n.eval + MAX_CAPTURE_VALUE >= parameters.alpha
                    && no_captures(n) ==> r.score == n.eval)
            }
        }),
        ({
            let n = game.nodes@[node as int];
            (parameters.ply == 1 && old(position_history)@.len() == 0 && n.half_move_clock < 100
                && old(stop).raised_at is None && quiet_horizon(*game, n) && (forall|s: int|
                0 <= s < old(transposition_table).entries@.len()
                    ==> #[trigger] old(transposition_table).entries@[s] is None)) ==> bound_ok(
                r.score as int,
                depth_one_value(*game, n, parameters.ply_from_root),
                parameters.alpha as int,
                parameters.beta as int,
            )
        }),
    decreases game.nodes@.len() - node,
{
    let ghost n_spec = game.nodes@[node as int];
    let ghost sound_cond = parameters.ply == 1 && old(position_history)@.len() == 0
        && n_spec.half_move_clock < 100 && old(stop).raised_at is None && quiet_horizon(
        *game,
        n_spec,
    ) && (forall|s: int|
        0 <= s < old(transposition_table).entries@.len() ==> #[trigger] old(
            transposition_table,
        ).entries@[s] is None);
    let mut params = parameters;

    // Draws from the board history.
    let half_move_clock = game.nodes[node].half_move_clock;
    let hash = game.nodes[node].hash;
    if half_move_clock >= 100 || is_threefold_repetition(
        half_move_clock,
        params.ply_from_root,
        position_history,
        hash,
    ) {
        return SearchResult { score: STALEMATE_SCORE, best_move: None, nodes_explored: 1 };
    }

    if params.ply == 0 {
        return quiescence(game, node, params.alpha, params.beta, stop);
    }

    let saved_position = transposition_table.get(hash);
    proof {
        if sound_cond {
            assert(transposition_table.entries@[transposition_table.slot(hash)] is None);
        }
    }
    if let Some(entry) = saved_position {
        proof {
            assert(transposition_table.entries@[transposition_table.slot(hash)] == Some(entry));
        }
        match entry.score {
            Score::Exact(_) => {
                return SearchResult {
                    score: entry.score.inner(),
                    best_move: Some(entry.best_move),
                    nodes_explored: 1,
                };
            },
            Score::UpperBound(bound) => {
                if bound > params.alpha {
                    params.alpha = bound;
                }
            },
            Score::LowerBound(bound) => {
                if bound < params.beta {
                    params.beta = bound;
                }
            },
        }
    }

    if params.alpha >= params.beta {
        // The cached bounds already collapse the window: a pruning win
        // without generating a single move.
        return SearchResult { score: params.alpha, best_move: None, nodes_explored: 1 };
    }

    if game.nodes[node].moves.len() == 0 {
        if game.nodes[node].in_check {
            let score = CHECKMATE_SCORE + params.ply_from_root as i16;
            return SearchResult { score, best_move: None, nodes_explored: 1 };
        } else {
            return SearchResult { score: STALEMATE_SCORE, best_move: None, nodes_explored: 1 };
        }
    }

    let hash_move = match saved_position {
        Some(entry) => Some(entry.best_move),
        None => None,
    };
    let killer = killers_table.get(params.ply);
    let ordered = order_moves(&game.nodes[node].moves, hash_move, killer);

    let mut best_move: Option<Move> = None;
    let mut best_score = Score::UpperBound(params.alpha);
    let mut nodes_explored: u64 = 1;
    let mut i: usize = 0;

    while i < ordered.len()
        invariant_except_break
            params.alpha < params.beta,
            sound_cond ==> !(best_score is LowerBound),
        invariant
            game.wf(),
            node < game.nodes@.len(),
            n_spec == game.nodes@[node as int],
            hash == n_spec.hash,
            n_spec.moves@.len() > 0,
            !spec_is_draw(*game, node as int, old(position_history)@),
            i <= ordered@.len(),
            forall|k: int|
                0 <= k < ordered@.len() ==> n_spec.moves@.contains(#[trigger] ordered@[k]),
            params.wf(),
            params.ply >= 1,
            parameters.ply >= 1,
            params.ply_from_root == parameters.ply_from_root,
            position_history@ == old(position_history)@,
            transposition_table.wf_for(*game),
            killers_table.wf(),
            stop.raised_at == old(stop).raised_at,
            MIN_SCORE <= best_score.spec_inner() <= MAX_SCORE,
            forall|m: Move| best_move == Some(m) ==> legal_for_hash(*game, n_spec.hash, m),
            nodes_explored >= 1,
            sound_cond ==> params.ply == 1 && params.beta == parameters.beta
                && params.extensions == parameters.extensions && params.alpha
                >= parameters.alpha,
            sound_cond ==> old(position_history)@.len() == 0 && quiet_horizon(*game, n_spec),
            sound_cond ==> (forall|s: int|
                0 <= s < transposition_table.entries@.len() ==> #[trigger] transposition_table.entries@[s] is None),
            sound_cond ==> (forall|k: int|
                0 <= k < i ==> -(game.nodes@[(#[trigger] ordered@[k]).child as int].eval as int)
                    <= params.alpha as int),
            sound_cond ==> (best_score is UpperBound ==> best_score.spec_inner()
                == parameters.alpha as int && params.alpha == parameters.alpha),
            sound_cond ==> (best_score is Exact ==> params.alpha as int
                == best_score.spec_inner() && parameters.alpha < best_score.spec_inner()
                && best_score.spec_inner() < parameters.beta as int && (exists|k: int|
                0 <= k < ordered@.len() && -(game.nodes@[(#[trigger] ordered@[k]).child as int].eval
                    as int) == best_score.spec_inner())),
        ensures
            position_history@ == old(position_history)@,
            transposition_table.wf_for(*game),
            killers_table.wf(),
            stop.raised_at == old(stop).raised_at,
            MIN_SCORE <= best_score.spec_inner() <= MAX_SCORE,
            forall|m: Move| best_move == Some(m) ==> legal_for_hash(*game, n_spec.hash, m),
            nodes_explored >= 1,
            sound_cond ==> params.beta == parameters.beta,
            sound_cond ==> (forall|k: int|
                0 <= k < i ==> -(game.nodes@[(#[trigger] ordered@[k]).child as int].eval as int)
                    <= params.alpha as int),
            sound_cond ==> (best_score is UpperBound ==> best_score.spec_inner()
                == parameters.alpha as int && params.alpha == parameters.alpha && i
                == ordered@.len()),
            sound_cond ==> (best_score is Exact ==> params.alpha as int
                == best_score.spec_inner() && parameters.alpha < best_score.spec_inner()
                && best_score.spec_inner() < parameters.beta as int && i == ordered@.len() && (
            exists|k: int|
                0 <= k < ordered@.len() && -(game.nodes@[(#[trigger] ordered@[k]).child as int].eval
                    as int) == best_score.spec_inner())),
            sound_cond ==> (best_score is LowerBound ==> best_score.spec_inner()
                == parameters.beta as int && (exists|k: int|
                0 <= k < ordered@.len() && -(game.nodes@[(#[trigger] ordered@[k]).child as int].eval
                    as int) >= parameters.beta as int)),
        decreases ordered@.len() - i,
    {
        if stop.poll() {
            // Cancelled: hand back whatever was established so far.
            return SearchResult { score: best_score.inner(), best_move, nodes_explored };
        }

        let e = ordered[i];
        proof {
            let j = choose|j: int|
                0 <= j < n_spec.moves@.len() && n_spec.moves@[j] == ordered@[i as int];
            assert(game.wf_edge(node as int, n_spec.moves@[j]));
        }

        let ghost history_at_entry = position_history@;
        position_history.push(game.nodes[e.child].hash);

        let mut next_ply_parameters = params.next_ply();
        let ext = extensions(params.extensions, game, e.child, &e.mv);
        next_ply_parameters.add_extension(ext);
        let ghost next_params = next_ply_parameters;

        let search_result = search(
            game,
            e.child,
            position_history,
            transposition_table,
            killers_table,
            next_ply_parameters,
            stop,
        );

        let score = -search_result.score;
        nodes_explored = add_nodes(nodes_explored, search_result.nodes_explored);

        let _ = position_history.pop();
        proof {
            assert(position_history@ =~= history_at_entry);
        }

        proof {
            if sound_cond {
                let e_spec = ordered@[i as int];
                let c = game.nodes@[e_spec.child as int];
                let j = choose|j: int|
                    0 <= j < n_spec.moves@.len() && n_spec.moves@[j] == e_spec;
                assert(n_spec.moves@[j] == e_spec);
                assert(!c.in_check && no_captures(c) && c.half_move_clock < 100);
                assert(!(e_spec.mv.moved_piece_is_pawn && (e_spec.mv.target as int / 8 == 1
                    || e_spec.mv.target as int / 8 == 6)));
                // No extension was granted, so the successor ran at depth zero.
                assert(ext == 0);
                assert(next_params.ply == 0);
                // On the singleton history the successor cannot be a draw.
                let h = history_at_entry.push(c.hash);
                assert(h.len() == 1 && h[0] == c.hash);
                assert(count_hash(h, c.hash, 0, 0) == 0);
                assert(count_hash(h, c.hash, 0, 1) == 1);
                assert(count_hash(h, c.hash, 1, 1) == 0);
                assert(!threefold_spec(c.half_move_clock, h, c.hash));
                assert(!spec_is_draw(*game, e_spec.child as int, h));
                // The quiet-leaf clauses of the recursive call pin its score.
                if c.eval as int >= next_params.beta as int {
                    assert(search_result.score == next_params.beta);
                } else if c.eval as int + MAX_CAPTURE_VALUE < next_params.alpha as int {
                    assert(search_result.score == next_params.alpha);
                } else {
                    assert(search_result.score == c.eval);
                }
                assert(score as int <= params.alpha as int ==> -(c.eval as int)
                    <= params.alpha as int);
                assert(score as int > params.alpha as int ==> (-(c.eval as int) == score as int
                    || (score as int >= params.beta as int && -(c.eval as int)
                    >= params.beta as int)));
            }
        }

        if score > params.alpha {
            // A new best move.
            params.alpha = score;
            best_score = Score::Exact(score);
            best_move = Some(e.mv);
            proof {
                let j = choose|j: int|
                    0 <= j < n_spec.moves@.len() && n_spec.moves@[j] == ordered@[i as int];
                assert(has_move(n_spec, e.mv));
                assert(legal_for_hash(*game, n_spec.hash, e.mv));
                if sound_cond && score < params.beta {
                    assert(-(game.nodes@[(ordered@[i as int]).child as int].eval as int)
                        == score as int);
                }
            }

            if score >= params.beta {
                // Too good: the opponent would never allow this line.
                if !e.mv.is_capture {
                    killers_table.insert(params.ply_from_root, e.mv);
                }
                best_score = Score::LowerBound(params.beta);
                proof {
                    if sound_cond {
                        assert(-(game.nodes@[(ordered@[i as int]).child as int].eval as int)
                            >= params.beta as int);
                    }
                }
                break ;
            }
        }
        i = i + 1;
    }

    if let Some(m) = best_move {
        let entry = TranspositionEntry { hash, best_move: m, score: best_score, ply: params.ply };
        let ghost tt_before = *transposition_table;
        proof {
            assert(best_move == Some(m));
            assert(legal_for_hash(*game, n_spec.hash, m));
        }
        transposition_table.insert(entry);
        proof {
            assert forall|s: int|
                0 <= s < transposition_table.entries@.len() implies match #[trigger] transposition_table.entries@[s] {
                Some(en) => {
                    &&& MIN_SCORE <= en.score.spec_inner() <= MAX_SCORE
                    &&& exists|ix: int|
                        0 <= ix < game.nodes@.len() && game.nodes@[ix].hash == en.hash && has_move(
                            game.nodes@[ix],
                            en.best_move,
                        )
                },
                None => true,
            } by {
                if s == tt_before.slot(entry.hash) {
                    assert(transposition_table.entries@[s] == Some(entry));
                    let ix = choose|ix: int|
                        0 <= ix < game.nodes@.len() && game.nodes@[ix].hash == n_spec.hash
                            && has_move(game.nodes@[ix], m);
                    assert(game.nodes@[ix].hash == entry.hash);
                } else {
                    assert(transposition_table.entries@[s] == tt_before.entries@[s]);
                }
            }
        }
    }

    proof {
        if sound_cond {
            let len = n_spec.moves@.len() as int;
            match best_score {
                Score::UpperBound(_) => {
                    assert forall|j: int|
                        0 <= j < len implies -(game.nodes@[(#[trigger] n_spec.moves@[j]).child
                        as int].eval as int) <= params.alpha as int by {
                        let e = n_spec.moves@[j];
                        assert(n_spec.moves@.contains(e));
                        assert(ordered@.contains(e));
                        let k = choose|k: int| 0 <= k < ordered@.len() && ordered@[k] == e;
                        assert(-(game.nodes@[(ordered@[k]).child as int].eval as int)
                            <= params.alpha as int);
                    }
                    lemma_best_reply_le(*game, n_spec, len, params.alpha as int);
                },
                Score::Exact(_) => {
                    assert forall|j: int|
                        0 <= j < len implies -(game.nodes@[(#[trigger] n_spec.moves@[j]).child
                        as int].eval as int) <= params.alpha as int by {
                        let e = n_spec.moves@[j];
                        assert(n_spec.moves@.contains(e));
                        assert(ordered@.contains(e));
                        let k = choose|k: int| 0 <= k < ordered@.len() && ordered@[k] == e;
                        assert(-(game.nodes@[(ordered@[k]).child as int].eval as int)
                            <= params.alpha as int);
                    }
                    lemma_best_reply_le(*game, n_spec, len, params.alpha as int);
                    let k = choose|k: int|
                        0 <= k < ordered@.len() && -(game.nodes@[(ordered@[k]).child as int].eval
                            as int) == best_score.spec_inner();
                    let e = ordered@[k];
                    assert(n_spec.moves@.contains(e));
                    let j = choose|j: int| 0 <= j < n_spec.moves@.len() && n_spec.moves@[j] == e;
                    lemma_best_reply_ge(*game, n_spec, len, j);
                },
                Score::LowerBound(_) => {
                    let k = choose|k: int|
                        0 <= k < ordered@.len() && -(game.nodes@[(ordered@[k]).child as int].eval
                            as int) >= parameters.beta as int;
                    let e = ordered@[k];
                    assert(n_spec.moves@.contains(e));
                    let j = choose|j: int| 0 <= j < n_spec.moves@.len() && n_spec.moves@[j] == e;
                    lemma_best_reply_ge(*game, n_spec, len, j);
                },
            }
        }
    }

    SearchResult { score: best_score.inner(), best_move, nodes_explored }
}

} // verus!
