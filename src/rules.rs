use vstd::prelude::*;
use crate::stone::{Side, Stone};

verus! {

/// Number of rows, and of columns, of the board.
pub const SIZE: usize = 8;

/// Number of directions that a capture can run in.
pub const DIRECTIONS: usize = 8;

/// Whether `(r, c)` names a cell of the board.
pub open spec fn in_bounds(r: int, c: int) -> bool {
    0 <= r < 8 && 0 <= c < 8
}

/// Position of cell `(r, c)` in the row-major sequence of cells.
pub open spec fn cell_index(r: int, c: int) -> int {
    r * 8 + c
}

/// The stone at `(r, c)` of a row-major sequence of cells.
pub open spec fn stone_at(cells: Seq<Stone>, r: int, c: int) -> Stone {
    cells[cell_index(r, c)]
}

/// Row step of direction `d`: N, NE, E, SE, S, SW, W, NW.
pub open spec fn dir_row(d: int) -> int {
    if d == 0 || d == 1 || d == 7 {
        -1
    } else if d == 3 || d == 4 || d == 5 {
        1
    } else {
        0
    }
}

/// Column step of direction `d`: N, NE, E, SE, S, SW, W, NW.
pub open spec fn dir_col(d: int) -> int {
    if d == 1 || d == 2 || d == 3 {
        1
    } else if d == 5 || d == 6 || d == 7 {
        -1
    } else {
        0
    }
}

/// `step * k` for a step in `{-1, 0, 1}`.
pub open spec fn scale(step: int, k: int) -> int {
    if step == 1 {
        k
    } else if step == -1 {
        -k
    } else {
        0
    }
}

/// Row of the cell `k` steps away from row `r` in direction `d`.
pub open spec fn ray_row(r: int, d: int, k: int) -> int {
    r + scale(dir_row(d), k)
}

/// Column of the cell `k` steps away from column `c` in direction `d`.
pub open spec fn ray_col(c: int, d: int, k: int) -> int {
    c + scale(dir_col(d), k)
}

/// Length of the unbroken run of `side`'s opponent's stones that starts `k`
/// steps away from `(r, c)` in direction `d`.
pub open spec fn run_len(cells: Seq<Stone>, side: Side, r: int, c: int, d: int, k: int) -> nat
    decreases 8 - k,
{
    if 1 <= k < 8 && in_bounds(ray_row(r, d, k), ray_col(c, d, k)) && stone_at(
        cells,
        ray_row(r, d, k),
        ray_col(c, d, k),
    ) == side.opponent().stone() {
        1 + run_len(cells, side, r, c, d, k + 1)
    } else {
        0
    }
}

/// Number of stones that `side` captures in direction `d` by a stone at
/// `(r, c)`: the run of opponent stones next to `(r, c)`, where it is
/// closed by a stone of `side` on the board, and zero otherwise.
pub open spec fn capture_len(cells: Seq<Stone>, side: Side, r: int, c: int, d: int) -> nat {
    let n = run_len(cells, side, r, c, d, 1) as int;
    if n >= 1 && in_bounds(ray_row(r, d, n + 1), ray_col(c, d, n + 1)) && stone_at(
        cells,
        ray_row(r, d, n + 1),
        ray_col(c, d, n + 1),
    ) == side.stone() {
        n as nat
    } else {
        0
    }
}

/// Whether `side` may place a stone at `(r, c)`: the cell is on the board and
/// empty, and the stone captures in at least one direction.
pub open spec fn is_legal(cells: Seq<Stone>, side: Side, r: int, c: int) -> bool {
    &&& in_bounds(r, c)
    &&& stone_at(cells, r, c) == Stone::Empty
    &&& exists|d: int| 0 <= d < 8 && #[trigger] capture_len(cells, side, r, c, d) > 0
}

/// Number of legal cells for `side` among the first `n` columns of row `r`.
pub open spec fn legal_in_row(cells: Seq<Stone>, side: Side, r: int, n: int) -> nat
    decreases n,
{
    if n <= 0 {
        0
    } else {
        legal_in_row(cells, side, r, n - 1) + if is_legal(cells, side, r, n - 1) {
            1nat
        } else {
            0nat
        }
    }
}

/// Number of legal cells for `side` in the first `n` rows.
pub open spec fn legal_in_rows(cells: Seq<Stone>, side: Side, n: int) -> nat
    decreases n,
{
    if n <= 0 {
        0
    } else {
        legal_in_rows(cells, side, n - 1) + legal_in_row(cells, side, n - 1, 8)
    }
}

/// Number of cells of the board where `side` may place a stone.
pub open spec fn legal_count(cells: Seq<Stone>, side: Side) -> nat {
    legal_in_rows(cells, side, 8)
}

/// Whether the cell at index `i` holds a stone captured when `side` places
/// at `(r, c)`: it lies within the captured run of some direction.
pub open spec fn captured(cells: Seq<Stone>, side: Side, r: int, c: int, i: int) -> bool {
    exists|d: int, k: int|
        0 <= d < 8 && 1 <= k <= #[trigger] capture_len(cells, side, r, c, d) && #[trigger] cell_index(
            ray_row(r, d, k),
            ray_col(c, d, k),
        ) == i
}

/// The cells after `side` places a stone at `(r, c)`: that cell and every
/// captured stone become `side`'s, the rest is unchanged.
pub open spec fn placed_cells(cells: Seq<Stone>, side: Side, r: int, c: int) -> Seq<Stone> {
    Seq::new(
        cells.len(),
        |i: int|
            if i == cell_index(r, c) || captured(cells, side, r, c, i) {
                side.stone()
            } else {
                cells[i]
            },
    )
}

/// Whether the cell at index `i` is captured by a stone at `(r, c)` in a
/// direction before `nd`, or in direction `nd` at a distance before `nk`.
pub open spec fn captured_before(
    cells: Seq<Stone>,
    side: Side,
    r: int,
    c: int,
    i: int,
    nd: int,
    nk: int,
) -> bool {
    exists|d: int, k: int|
        0 <= d < 8 && 1 <= k <= #[trigger] capture_len(cells, side, r, c, d) && #[trigger] cell_index(
            ray_row(r, d, k),
            ray_col(c, d, k),
        ) == i && (d < nd || (d == nd && k < nk))
}

/// Every cell of a run lies on the board and holds an opponent stone.
pub proof fn lemma_run_cells(cells: Seq<Stone>, side: Side, r: int, c: int, d: int, j: int, k: int)
    requires
        1 <= j <= k < j + run_len(cells, side, r, c, d, j),
    ensures
        in_bounds(ray_row(r, d, k), ray_col(c, d, k)),
        stone_at(cells, ray_row(r, d, k), ray_col(c, d, k)) == side.opponent().stone(),
    decreases k - j,
{
    if k > j {
        lemma_run_cells(cells, side, r, c, d, j + 1, k);
    }
}

/// Row and column step of direction `d`.
fn direction(d: usize) -> (r: (i64, i64))
    requires
        d < DIRECTIONS,
    ensures
        r.0 == dir_row(d as int),
        r.1 == dir_col(d as int),
{
    if d == 0 {
        (-1, 0)
    } else if d == 1 {
        (-1, 1)
    } else if d == 2 {
        (0, 1)
    } else if d == 3 {
        (1, 1)
    } else if d == 4 {
        (1, 0)
    } else if d == 5 {
        (1, -1)
    } else if d == 6 {
        (0, -1)
    } else {
        (-1, -1)
    }
}

/// Whether `(r, c)` names a cell of the board.
pub fn in_bound(r: i64, c: i64) -> (b: bool)
    ensures
        b == in_bounds(r as int, c as int),
{
    0 <= r && r < SIZE as i64 && 0 <= c && c < SIZE as i64
}

/// Number of stones that `side` captures in direction `d` by a stone at
/// `(row, col)`.
pub fn can_reverse_one_dir(cells: &Vec<Stone>, side: Side, row: usize, col: usize, d: usize) -> (n:
    usize)
    requires
        cells@.len() == 64,
        row < SIZE,
        col < SIZE,
        d < DIRECTIONS,
    ensures
        n == capture_len(cells@, side, row as int, col as int, d as int),
        n < SIZE,
{
    let (dr, dc) = direction(d);
    let opp = side.opponent().stone();
    let mut k: usize = 1;
    let mut r: i64 = row as i64 + dr;
    let mut c: i64 = col as i64 + dc;
    while k < SIZE && in_bound(r, c) && cells[(r * 8 + c) as usize] == opp
        invariant
            cells@.len() == 64,
            row < 8,
            col < 8,
            d < 8,
            dr == dir_row(d as int),
            dc == dir_col(d as int),
            opp == side.opponent().stone(),
            1 <= k <= 8,
            r == ray_row(row as int, d as int, k as int),
            c == ray_col(col as int, d as int, k as int),
            run_len(cells@, side, row as int, col as int, d as int, 1) == (k - 1) + run_len(
                cells@,
                side,
                row as int,
                col as int,
                d as int,
                k as int,
            ),
        decreases 8 - k,
    {
        k += 1;
        r += dr;
        c += dc;
    }
    if k >= 2 && in_bound(r, c) && cells[(r * 8 + c) as usize] == side.stone() {
        k - 1
    } else {
        0
    }
}

/// Whether `side` may place a stone at `(row, col)`.
pub fn can_set(cells: &Vec<Stone>, side: Side, row: usize, col: usize) -> (b: bool)
    requires
        cells@.len() == 64,
        row < SIZE,
        col < SIZE,
    ensures
        b == is_legal(cells@, side, row as int, col as int),
{
    if cells[row * SIZE + col] != Stone::Empty {
        return false;
    }
    let mut d: usize = 0;
    while d < DIRECTIONS
        invariant
            cells@.len() == 64,
            row < 8,
            col < 8,
            d <= 8,
            stone_at(cells@, row as int, col as int) == Stone::Empty,
            forall|e: int| 0 <= e < d ==> capture_len(cells@, side, row as int, col as int, e) == 0,
        decreases 8 - d,
    {
        if can_reverse_one_dir(cells, side, row, col, d) > 0 {
            assert(capture_len(cells@, side, row as int, col as int, d as int) > 0);
            return true;
        }
        d += 1;
    }
    false
}

/// Number of cells where `side` may place a stone.
pub fn mark(cells: &Vec<Stone>, side: Side) -> (n: usize)
    requires
        cells@.len() == 64,
    ensures
        n == legal_count(cells@, side),
        n <= 64,
{
    let mut n: usize = 0;
    let mut i: usize = 0;
    while i < SIZE
        invariant
            cells@.len() == 64,
            i <= 8,
            n == legal_in_rows(cells@, side, i as int),
            n <= 8 * i,
        decreases 8 - i,
    {
        let mut j: usize = 0;
        while j < SIZE
            invariant
                cells@.len() == 64,
                i < 8,
                j <= 8,
                n == legal_in_rows(cells@, side, i as int) + legal_in_row(
                    cells@,
                    side,
                    i as int,
                    j as int,
                ),
                n <= 8 * i + j,
            decreases 8 - j,
        {
            if can_set(cells, side, i, j) {
                n += 1;
            }
            j += 1;
        }
        i += 1;
    }
    n
}

/// The cells after `side` places a stone at `(row, col)`, with every capture
/// taken from the cells as they stood before the placement.
pub fn reverse(cells: &Vec<Stone>, side: Side, row: usize, col: usize) -> (out: Vec<Stone>)
    requires
        cells@.len() == 64,
        row < SIZE,
        col < SIZE,
    ensures
        out@ == placed_cells(cells@, side, row as int, col as int),
{
    let ghost r0 = row as int;
    let ghost c0 = col as int;
    let mine = side.stone();
    let mut out: Vec<Stone> = Vec::new();
    let mut i: usize = 0;
    while i < 64
        invariant
            cells@.len() == 64,
            i <= 64,
            out@ == cells@.subrange(0, i as int),
        decreases 64 - i,
    {
        out.push(cells[i]);
        i += 1;
    }
    out.set(row * SIZE + col, mine);
    let mut d: usize = 0;
    while d < DIRECTIONS
        invariant
            cells@.len() == 64,
            out@.len() == 64,
            row < 8,
            col < 8,
            d <= 8,
            r0 == row,
            c0 == col,
            mine == side.stone(),
            forall|j: int|
                0 <= j < 64 ==> out@[j] == if j == cell_index(r0, c0) || captured_before(
                    cells@,
                    side,
                    r0,
                    c0,
                    j,
                    d as int,
                    0,
                ) {
                    mine
                } else {
                    cells@[j]
                },
        decreases 8 - d,
    {
        let n = can_reverse_one_dir(cells, side, row, col, d);
        let (dr, dc) = direction(d);
        let mut k: usize = 1;
        let mut r: i64 = row as i64 + dr;
        let mut c: i64 = col as i64 + dc;
        while k <= n
            invariant
                cells@.len() == 64,
                out@.len() == 64,
                row < 8,
                col < 8,
                d < 8,
                r0 == row,
                c0 == col,
                mine == side.stone(),
                n == capture_len(cells@, side, r0, c0, d as int),
                n < 8,
                dr == dir_row(d as int),
                dc == dir_col(d as int),
                1 <= k <= n + 1,
                r == ray_row(r0, d as int, k as int),
                c == ray_col(c0, d as int, k as int),
                forall|j: int|
                    0 <= j < 64 ==> out@[j] == if j == cell_index(r0, c0) || captured_before(
                        cells@,
                        side,
                        r0,
                        c0,
                        j,
                        d as int,
                        k as int,
                    ) {
                        mine
                    } else {
                        cells@[j]
                    },
            decreases n + 1 - k,
        {
            proof {
                lemma_run_cells(cells@, side, r0, c0, d as int, 1, k as int);
            }
            let ghost old_out = out@;
            out.set((r * 8 + c) as usize, mine);
            assert forall|j: int| 0 <= j < 64 implies out@[j] == if j == cell_index(r0, c0)
                || captured_before(cells@, side, r0, c0, j, d as int, k + 1) {
                mine
            } else {
                cells@[j]
            } by {
                if j == r * 8 + c {
                    assert(cell_index(ray_row(r0, d as int, k as int), ray_col(c0, d as int, k as int))
                        == j);
                    assert(captured_before(cells@, side, r0, c0, j, d as int, k + 1));
                } else {
                    assert(old_out[j] == out@[j]);
                }
            }
            k += 1;
            r += dr;
            c += dc;
        }
        assert forall|j: int| 0 <= j < 64 implies captured_before(cells@, side, r0, c0, j, d as int, k as int)
            == captured_before(cells@, side, r0, c0, j, d + 1, 0) by {}
        d += 1;
    }
    assert forall|j: int| 0 <= j < 64 implies captured_before(cells@, side, r0, c0, j, 8, 0)
        == captured(cells@, side, r0, c0, j) by {}
    assert(out@ =~= placed_cells(cells@, side, r0, c0));
    out
}

/// Number of cells holding `stone` among the first `n` cells.
pub open spec fn count_of(cells: Seq<Stone>, stone: Stone, n: int) -> nat
    decreases n,
{
    if n <= 0 {
        0
    } else {
        count_of(cells, stone, n - 1) + if cells[n - 1] == stone {
            1nat
        } else {
            0nat
        }
    }
}

/// Number of stones, of either colour, among the first `n` cells.
pub open spec fn stones_in(cells: Seq<Stone>, n: int) -> nat {
    count_of(cells, Stone::Black, n) + count_of(cells, Stone::White, n)
}

/// A legal cell is counted among the legal cells of its row.
pub proof fn lemma_legal_in_row(cells: Seq<Stone>, side: Side, r: int, c: int, n: int)
    requires
        0 <= c < n,
        is_legal(cells, side, r, c),
    ensures
        legal_in_row(cells, side, r, n) > 0,
    decreases n,
{
    if c < n - 1 {
        lemma_legal_in_row(cells, side, r, c, n - 1);
    }
}

/// A legal cell makes the count of legal cells positive.
pub proof fn lemma_legal_counted(cells: Seq<Stone>, side: Side, r: int, c: int)
    requires
        is_legal(cells, side, r, c),
    ensures
        legal_count(cells, side) > 0,
{
    lemma_legal_in_row(cells, side, r, c, 8);
    lemma_legal_in_rows(cells, side, r, 8);
}

proof fn lemma_legal_in_rows(cells: Seq<Stone>, side: Side, r: int, n: int)
    requires
        0 <= r < n,
        legal_in_row(cells, side, r, 8) > 0,
    ensures
        legal_in_rows(cells, side, n) > 0,
    decreases n,
{
    if r < n - 1 {
        lemma_legal_in_rows(cells, side, r, n - 1);
    }
}

/// Number of cells that hold `stone`.
pub fn count_stones(cells: &Vec<Stone>, stone: Stone) -> (n: usize)
    requires
        cells@.len() == 64,
    ensures
        n == count_of(cells@, stone, 64),
{
    let mut n: usize = 0;
    let mut i: usize = 0;
    while i < 64
        invariant
            cells@.len() == 64,
            i <= 64,
            n == count_of(cells@, stone, i as int),
            n <= i,
        decreases 64 - i,
    {
        if cells[i] == stone {
            n += 1;
        }
        i += 1;
    }
    n
}

/// Side to move and whether the game has ended, after `mover` has moved and
/// left `cells`: the opponent moves if it has a legal move; otherwise `mover`
/// moves again if it has one; otherwise the game ends.
pub open spec fn next_turn(cells: Seq<Stone>, mover: Side) -> (Side, bool) {
    if legal_count(cells, mover.opponent()) > 0 {
        (mover.opponent(), false)
    } else if legal_count(cells, mover) > 0 {
        (mover, false)
    } else {
        (mover, true)
    }
}

/// Side to move and whether the game has ended, after `mover` has moved.
pub fn change_turn(cells: &Vec<Stone>, mover: Side) -> (r: (Side, bool))
    requires
        cells@.len() == 64,
    ensures
        r == next_turn(cells@, mover),
{
    if mark(cells, mover.opponent()) > 0 {
        (mover.opponent(), false)
    } else if mark(cells, mover) > 0 {
        (mover, false)
    } else {
        (mover, true)
    }
}

} // verus!
