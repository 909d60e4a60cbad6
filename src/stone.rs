use vstd::prelude::*;

verus! {

/// The state of one cell of the board.
#[derive(PartialEq, Eq, Structural, Clone, Copy, Debug)]
pub enum Stone {
    Black,
    White,
    Empty,
}

/// One of the two players. There is no third value: the side to move is
/// always one of these.
#[derive(PartialEq, Eq, Structural, Clone, Copy, Debug)]
pub enum Side {
    Black,
    White,
}

/// The result of a finished game.
#[derive(PartialEq, Eq, Structural, Clone, Copy, Debug)]
pub enum Outcome {
    Black,
    White,
    Draw,
}

/// Why a placement was rejected.
#[derive(PartialEq, Eq, Structural, Clone, Copy, Debug)]
pub enum PlacementError {
    /// The row or the column lies outside `0..8`.
    OutOfBounds,
    /// The cell holds a stone, or a stone there would capture nothing.
    OccupiedOrNoCapture,
}

impl Side {
    pub open spec fn spec_opponent(self) -> Side {
        match self {
            Side::Black => Side::White,
            Side::White => Side::Black,
        }
    }

    pub open spec fn spec_stone(self) -> Stone {
        match self {
            Side::Black => Stone::Black,
            Side::White => Stone::White,
        }
    }

    /// The other side.
    #[verifier::when_used_as_spec(spec_opponent)]
    pub fn opponent(self) -> (r: Side)
        ensures
            r == self.spec_opponent(),
    {
        match self {
            Side::Black => Side::White,
            Side::White => Side::Black,
        }
    }

    /// The stone that this side places.
    #[verifier::when_used_as_spec(spec_stone)]
    pub fn stone(self) -> (r: Stone)
        ensures
            r == self.spec_stone(),
    {
        match self {
            Side::Black => Stone::Black,
            Side::White => Stone::White,
        }
    }
}

} // verus!
