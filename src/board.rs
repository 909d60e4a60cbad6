use vstd::prelude::*;
use crate::rules::{
    can_set, change_turn, count_of, count_stones, in_bounds, is_legal, lemma_legal_counted,
    legal_count, mark, next_turn, placed_cells, reverse, stone_at, SIZE,
};
use crate::stone::{Outcome, PlacementError, Side, Stone};

verus! {

/// What a board is, mathematically: its 64 cells in row-major order, the
/// side to move and whether the game has ended.
pub struct BoardView {
    pub cells: Seq<Stone>,
    pub turn: Side,
    pub ended: bool,
}

/// The cells at the start of a game: black at (3,3) and (4,4), white at
/// (3,4) and (4,3), every other cell empty.
pub open spec fn initial_cells() -> Seq<Stone> {
    Seq::new(
        64,
        |i: int|
            if i == 3 * 8 + 3 || i == 4 * 8 + 4 {
                Stone::Black
            } else if i == 3 * 8 + 4 || i == 4 * 8 + 3 {
                Stone::White
            } else {
                Stone::Empty
            },
    )
}

impl BoardView {
    /// A reachable state: 64 cells, and the game has ended exactly when the
    /// side to move has no legal move, in which case neither side has one.
    pub open spec fn wf(self) -> bool {
        &&& self.cells.len() == 64
        &&& self.ended <==> legal_count(self.cells, self.turn) == 0
        &&& self.ended ==> legal_count(self.cells, self.turn.opponent()) == 0
    }

    /// The state at the start of a game, with black to move.
    pub open spec fn initial() -> BoardView {
        BoardView { cells: initial_cells(), turn: Side::Black, ended: false }
    }

    /// The stone at `(r, c)`.
    pub open spec fn stone(self, r: int, c: int) -> Stone {
        stone_at(self.cells, r, c)
    }

    /// Whether the side to move may place a stone at `(r, c)`.
    pub open spec fn can_place(self, r: int, c: int) -> bool {
        is_legal(self.cells, self.turn, r, c)
    }

    /// The state after the side to move places a stone at `(r, c)`.
    pub open spec fn after_place(self, r: int, c: int) -> BoardView {
        let cells = placed_cells(self.cells, self.turn, r, c);
        let (turn, ended) = next_turn(cells, self.turn);
        BoardView { cells, turn, ended }
    }

    /// The state of a game set up with `cells`, where `turn` moves if it can,
    /// else the other side, and the game is over if neither can.
    pub open spec fn position(cells: Seq<Stone>, turn: Side) -> BoardView {
        let (t, ended) = next_turn(cells, turn.opponent());
        BoardView { cells, turn: t, ended }
    }

    /// Number of black stones.
    pub open spec fn black_count(self) -> nat {
        count_of(self.cells, Stone::Black, 64)
    }

    /// Number of white stones.
    pub open spec fn white_count(self) -> nat {
        count_of(self.cells, Stone::White, 64)
    }

    /// The side with more stones, or a draw when the counts are equal.
    pub open spec fn outcome(self) -> Outcome {
        if self.black_count() > self.white_count() {
            Outcome::Black
        } else if self.black_count() < self.white_count() {
            Outcome::White
        } else {
            Outcome::Draw
        }
    }
}

/// A game of Reversi on an 8x8 board.
pub struct ReversiBoard {
    cells: Vec<Stone>,
    turn: Side,
    game_end: bool,
}

impl View for ReversiBoard {
    type V = BoardView;

    closed spec fn view(&self) -> BoardView {
        BoardView { cells: self.cells@, turn: self.turn, ended: self.game_end }
    }
}

impl ReversiBoard {
    #[verifier::type_invariant]
    spec fn inv(self) -> bool {
        self@.wf()
    }

    /// A new game: the four centre stones placed, black to move.
    pub fn new() -> (r: ReversiBoard)
        ensures
            r@ == BoardView::initial(),
            r@.wf(),
    {
        let mut cells: Vec<Stone> = Vec::new();
        let mut i: usize = 0;
        while i < 64
            invariant
                i <= 64,
                cells@ == initial_cells().subrange(0, i as int),
            decreases 64 - i,
        {
            let s = if i == 27 || i == 36 {
                Stone::Black
            } else if i == 28 || i == 35 {
                Stone::White
            } else {
                Stone::Empty
            };
            cells.push(s);
            i += 1;
        }
        proof {
            let c = initial_cells();
            assert(cells@ =~= c);
            assert(crate::rules::run_len(c, Side::Black, 2, 4, 4, 2) == 0);
            assert(crate::rules::run_len(c, Side::Black, 2, 4, 4, 1) == 1);
            assert(crate::rules::capture_len(c, Side::Black, 2, 4, 4) > 0);
            lemma_legal_counted(c, Side::Black, 2, 4);
        }
        ReversiBoard { cells, turn: Side::Black, game_end: false }
    }

    /// A game set up with the given cells in row-major order: `turn` moves
    /// if it has a legal move, else the other side, and the game is over if
    /// neither has one. `None` unless there are exactly 64 cells.
    pub fn from_position(cells: Vec<Stone>, turn: Side) -> (r: Option<ReversiBoard>)
        ensures
            r.is_some() <==> cells@.len() == 64,
            r matches Some(b) ==> b@ == BoardView::position(cells@, turn),
    {
        if cells.len() != 64 {
            return None;
        }
        let (t, ended) = change_turn(&cells, turn.opponent());
        Some(ReversiBoard { cells, turn: t, game_end: ended })
    }

    /// The stone at `(row, col)`, or `None` off the board.
    pub fn get(&self, row: usize, col: usize) -> (r: Option<&Stone>)
        ensures
            r.is_some() <==> in_bounds(row as int, col as int),
            r matches Some(s) ==> *s == self@.stone(row as int, col as int),
    {
        proof {
            use_type_invariant(self);
        }
        if row >= SIZE || col >= SIZE {
            None
        } else {
            Some(&self.cells[row * SIZE + col])
        }
    }

    /// Places a stone of the side to move at `(row, col)`, captures what it
    /// flanks, and passes the turn on. Rejected moves change nothing.
    pub fn place(&mut self, row: usize, col: usize) -> (r: Result<(), PlacementError>)
        ensures
            !in_bounds(row as int, col as int) ==> r == Err::<(), PlacementError>(
                PlacementError::OutOfBounds,
            ),
            in_bounds(row as int, col as int) && !old(self)@.can_place(row as int, col as int)
                ==> r == Err::<(), PlacementError>(PlacementError::OccupiedOrNoCapture),
            old(self)@.can_place(row as int, col as int) ==> r is Ok,
            r is Ok ==> final(self)@ == old(self)@.after_place(row as int, col as int),
            r is Err ==> final(self)@ == old(self)@,
    {
        proof {
            use_type_invariant(&*self);
        }
        if row >= SIZE || col >= SIZE {
            return Err(PlacementError::OutOfBounds);
        }
        if !can_set(&self.cells, self.turn, row, col) {
            return Err(PlacementError::OccupiedOrNoCapture);
        }
        let cells = reverse(&self.cells, self.turn, row, col);
        let (turn, ended) = change_turn(&cells, self.turn);
        *self = ReversiBoard { cells, turn, game_end: ended };
        Ok(())
    }

    /// Like `place`, reporting only whether the stone was placed.
    pub fn try_set(&mut self, row: usize, col: usize) -> (r: bool)
        ensures
            r == old(self)@.can_place(row as int, col as int),
            r ==> final(self)@ == old(self)@.after_place(row as int, col as int),
            !r ==> final(self)@ == old(self)@,
    {
        self.place(row, col).is_ok()
    }

    /// The side to move.
    pub fn get_turn(&self) -> (r: Side)
        ensures
            r == self@.turn,
    {
        self.turn
    }

    /// Whether the game is over.
    pub fn is_end(&self) -> (r: bool)
        ensures
            r == self@.ended,
    {
        self.game_end
    }

    /// Whether the side to move may place a stone at `(row, col)`.
    pub fn can_set(&self, row: usize, col: usize) -> (r: bool)
        ensures
            r == self@.can_place(row as int, col as int),
    {
        proof {
            use_type_invariant(self);
        }
        if row >= SIZE || col >= SIZE {
            false
        } else {
            can_set(&self.cells, self.turn, row, col)
        }
    }

    /// Number of cells where `side` may place a stone.
    pub fn legal_move_count(&self, side: Side) -> (r: usize)
        ensures
            r == legal_count(self@.cells, side),
    {
        proof {
            use_type_invariant(self);
        }
        mark(&self.cells, side)
    }

    /// Number of stones of the given colour on the board.
    pub fn count(&self, stone: Stone) -> (r: usize)
        ensures
            r == count_of(self@.cells, stone, 64),
    {
        proof {
            use_type_invariant(self);
        }
        count_stones(&self.cells, stone)
    }

    /// The side with more stones, or a draw on equal counts. This is the
    /// result of the game once it has ended.
    pub fn winner(&self) -> (r: Outcome)
        ensures
            r == self@.outcome(),
    {
        let black = self.count(Stone::Black);
        let white = self.count(Stone::White);
        if black > white {
            Outcome::Black
        } else if black < white {
            Outcome::White
        } else {
            Outcome::Draw
        }
    }
}

} // verus!