use vstd::prelude::*;
use crate::board::{initial_cells, BoardView};
use crate::rules::{
    capture_len, captured, cell_index, count_of, in_bounds, lemma_legal_counted,
    lemma_run_cells, legal_count, ray_col, ray_row, run_len, stones_in,
};
use crate::stone::{Outcome, Side, Stone};

verus! {

/// A game starts with black at (3,3) and (4,4), white at (3,4) and (4,3),
/// every other cell empty, two stones of each colour, and black to move.
pub proof fn lemma_initial_board(r: int, c: int)
    requires
        in_bounds(r, c),
    ensures
        BoardView::initial().wf(),
        BoardView::initial().turn == Side::Black,
        !BoardView::initial().ended,
        BoardView::initial().stone(r, c) == if (r == 3 && c == 3) || (r == 4 && c == 4) {
            Stone::Black
        } else if (r == 3 && c == 4) || (r == 4 && c == 3) {
            Stone::White
        } else {
            Stone::Empty
        },
        BoardView::initial().black_count() == 2,
        BoardView::initial().white_count() == 2,
{
    let cells = initial_cells();
    assert(run_len(cells, Side::Black, 2, 4, 4, 2) == 0);
    assert(run_len(cells, Side::Black, 2, 4, 4, 1) == 1);
    assert(capture_len(cells, Side::Black, 2, 4, 4) > 0);
    lemma_legal_counted(cells, Side::Black, 2, 4);
    lemma_initial_counts(64);
}

proof fn lemma_initial_counts(n: int)
    requires
        0 <= n <= 64,
    ensures
        count_of(initial_cells(), Stone::Black, n) == (if n > 27 { 1nat } else { 0nat }) + (if n
            > 36 {
            1nat
        } else {
            0nat
        }),
        count_of(initial_cells(), Stone::White, n) == (if n > 28 { 1nat } else { 0nat }) + (if n
            > 35 {
            1nat
        } else {
            0nat
        }),
    decreases n,
{
    if n > 0 {
        lemma_initial_counts(n - 1);
    }
}

/// Stones captured by a placement are the opponent's, and lie on the board.
pub proof fn lemma_captured_were_opponent(cells: Seq<Stone>, side: Side, r: int, c: int, i: int)
    requires
        cells.len() == 64,
        in_bounds(r, c),
        captured(cells, side, r, c, i),
    ensures
        0 <= i < 64,
        i != cell_index(r, c),
        cells[i] == side.opponent().stone(),
{
    let (d, k) = choose|d: int, k: int|
        0 <= d < 8 && 1 <= k <= #[trigger] capture_len(cells, side, r, c, d) && #[trigger] cell_index(
            ray_row(r, d, k),
            ray_col(c, d, k),
        ) == i;
    lemma_run_cells(cells, side, r, c, d, 1, k);
}

proof fn lemma_stones_pointwise(a: Seq<Stone>, b: Seq<Stone>, idx: int, n: int)
    requires
        0 <= n <= a.len(),
        a.len() == b.len(),
        0 <= idx < a.len(),
        a[idx] == Stone::Empty,
        b[idx] != Stone::Empty,
        forall|i: int|
            0 <= i < a.len() && i != idx ==> (a[i] == Stone::Empty <==> b[i] == Stone::Empty),
    ensures
        stones_in(b, n) == stones_in(a, n) + if idx < n {
            1nat
        } else {
            0nat
        },
    decreases n,
{
    if n > 0 {
        lemma_stones_pointwise(a, b, idx, n - 1);
    }
}

/// A placement adds exactly one stone to the board: captures turn stones
/// over and never take one away. A rejected placement changes nothing, so
/// the number of stones never decreases from one move to the next.
pub proof fn lemma_place_adds_one_stone(v: BoardView, r: int, c: int)
    requires
        v.wf(),
        v.can_place(r, c),
    ensures
        stones_in(v.after_place(r, c).cells, 64) == stones_in(v.cells, 64) + 1,
        stones_in(v.after_place(r, c).cells, 64) >= stones_in(v.cells, 64),
{
    let a = v.cells;
    let b = v.after_place(r, c).cells;
    let idx = cell_index(r, c);
    assert forall|i: int| 0 <= i < a.len() && i != idx implies (a[i] == Stone::Empty <==> b[i]
        == Stone::Empty) by {
        if captured(a, v.turn, r, c, i) {
            lemma_captured_were_opponent(a, v.turn, r, c, i);
        }
    }
    lemma_stones_pointwise(a, b, idx, 64);
}

/// A placement is accepted only on an empty cell from which a stone would
/// capture in at least one direction.
pub proof fn lemma_place_needs_empty_and_capture(v: BoardView, r: int, c: int)
    requires
        v.wf(),
    ensures
        v.can_place(r, c) ==> in_bounds(r, c),
        v.can_place(r, c) ==> v.stone(r, c) == Stone::Empty,
        (forall|d: int| 0 <= d < 8 ==> capture_len(v.cells, v.turn, r, c, d) == 0) ==> !v.can_place(
            r,
            c,
        ),
{
}

/// A placement sets its own cell to the mover's colour, turns every stone
/// of the captured runs to the mover's colour, and leaves every other cell
/// as it was.
pub proof fn lemma_capture_exact(v: BoardView, r: int, c: int, rr: int, cc: int)
    requires
        v.wf(),
        v.can_place(r, c),
        in_bounds(rr, cc),
    ensures
        v.after_place(r, c).stone(r, c) == v.turn.stone(),
        (rr, cc) != (r, c) ==> (v.after_place(r, c).stone(rr, cc) != v.stone(rr, cc) <==> captured(
            v.cells,
            v.turn,
            r,
            c,
            cell_index(rr, cc),
        )),
        captured(v.cells, v.turn, r, c, cell_index(rr, cc)) ==> v.stone(rr, cc)
            == v.turn.opponent().stone() && v.after_place(r, c).stone(rr, cc) == v.turn.stone(),
{
    if captured(v.cells, v.turn, r, c, cell_index(rr, cc)) {
        lemma_captured_were_opponent(v.cells, v.turn, r, c, cell_index(rr, cc));
    }
}

/// After a placement the opponent moves if it has a legal move; if it has
/// none and the mover has one, the mover moves again.
pub proof fn lemma_turn_passes_or_skips(v: BoardView, r: int, c: int)
    requires
        v.wf(),
        v.can_place(r, c),
    ensures
        legal_count(v.after_place(r, c).cells, v.turn.opponent()) > 0 ==> v.after_place(r, c).turn
            == v.turn.opponent() && !v.after_place(r, c).ended,
        legal_count(v.after_place(r, c).cells, v.turn.opponent()) == 0 && legal_count(
            v.after_place(r, c).cells,
            v.turn,
        ) > 0 ==> v.after_place(r, c).turn == v.turn && !v.after_place(r, c).ended,
{
}

/// Every placement keeps the state well formed.
pub proof fn lemma_place_keeps_wf(v: BoardView, r: int, c: int)
    requires
        v.wf(),
        v.can_place(r, c),
    ensures
        v.after_place(r, c).wf(),
{
}

/// When neither side has a legal move after a placement the game ends; an
/// ended game accepts no placement anywhere, so it stays ended; its result
/// is the colour with more stones, a draw on equal counts.
pub proof fn lemma_game_end(v: BoardView, r: int, c: int, rr: int, cc: int)
    requires
        v.wf(),
    ensures
        v.can_place(r, c) && legal_count(v.after_place(r, c).cells, v.turn) == 0 && legal_count(
            v.after_place(r, c).cells,
            v.turn.opponent(),
        ) == 0 ==> v.after_place(r, c).ended,
        v.ended ==> !v.can_place(rr, cc),
        v.black_count() > v.white_count() ==> v.outcome() == Outcome::Black,
        v.black_count() < v.white_count() ==> v.outcome() == Outcome::White,
        v.black_count() == v.white_count() ==> v.outcome() == Outcome::Draw,
{
    if v.ended && v.can_place(rr, cc) {
        lemma_legal_counted(v.cells, v.turn, rr, cc);
    }
}

} // verus!
