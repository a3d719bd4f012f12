//! The three ranks of piece, their move shapes, promotion table and values.

use vstd::prelude::*;

use crate::board::Position;

verus! {

/// A piece of one of the three ranks, lowest first.
#[derive(Debug, Copy, Clone, PartialEq, Eq, Structural)]
pub enum Piece {
    Pawn,
    Drone,
    Queen,
}

/// Why a move's geometry does not fit the rank of the piece that makes it.
#[derive(Debug, Copy, Clone, PartialEq, Eq, Structural)]
pub enum ShapeError {
    /// A pawn moved by anything but one diagonal step.
    PawnNotDiagonalStep,
    /// A drone moved by anything but one or two cells along a row or column.
    DroneNotShortOrthogonal,
    /// A queen left the row, column and diagonals of its cell.
    QueenNotStraight,
}

/// Why two ranks cannot be merged into a higher one.
#[derive(Debug, Copy, Clone, PartialEq, Eq, Structural)]
pub enum PromotionError {
    /// One of the two pieces is a queen.
    Queen,
    /// Both pieces are drones.
    DroneWithDrone,
}

/// Distance between two coordinates.
pub open spec fn distance(a: int, b: int) -> int {
    if a >= b {
        a - b
    } else {
        b - a
    }
}

/// Whether a piece of rank `piece` may move from `src` to `dst` on an empty board.
pub open spec fn shape_ok(piece: Piece, src: Position, dst: Position) -> bool {
    let dr = distance(src.row as int, dst.row as int);
    let dc = distance(src.col as int, dst.col as int);
    match piece {
        Piece::Pawn => dr == 1 && dc == 1,
        Piece::Drone => (dr == 0 && 1 <= dc <= 2) || (dc == 0 && 1 <= dr <= 2),
        Piece::Queen => dr == 0 || dc == 0 || dr == dc,
    }
}

/// The error that reports a bad shape for a piece of rank `piece`.
pub open spec fn shape_error(piece: Piece) -> ShapeError {
    match piece {
        Piece::Pawn => ShapeError::PawnNotDiagonalStep,
        Piece::Drone => ShapeError::DroneNotShortOrthogonal,
        Piece::Queen => ShapeError::QueenNotStraight,
    }
}

/// The promotion table: what a piece of rank `a` and one of rank `b` merge into.
pub open spec fn promotion(a: Piece, b: Piece) -> Result<Piece, PromotionError> {
    match (a, b) {
        (Piece::Queen, _) | (_, Piece::Queen) => Err(PromotionError::Queen),
        (Piece::Pawn, Piece::Pawn) => Ok(Piece::Drone),
        (Piece::Pawn, Piece::Drone) | (Piece::Drone, Piece::Pawn) => Ok(Piece::Queen),
        (Piece::Drone, Piece::Drone) => Err(PromotionError::DroneWithDrone),
    }
}

/// Point value of a rank.
pub open spec fn value(piece: Piece) -> nat {
    match piece {
        Piece::Pawn => 1,
        Piece::Drone => 2,
        Piece::Queen => 3,
    }
}

impl ShapeError {
    /// The words that tell a player of this error.
    pub open spec fn text(self) -> Seq<char> {
        match self {
            ShapeError::PawnNotDiagonalStep => "Pawns must move exactly one square diagonally"@,
            ShapeError::DroneNotShortOrthogonal =>
                "Drones may move only 1 or 2 squares orthogonally"@,
            ShapeError::QueenNotStraight => "Queens may only move along a straight line"@,
        }
    }

    /// Says in words what is wrong with the move.
    pub fn message(&self) -> (s: &'static str)
        ensures
            s@ == self.text(),
    {
        match self {
            ShapeError::PawnNotDiagonalStep => "Pawns must move exactly one square diagonally",
            ShapeError::DroneNotShortOrthogonal => {
                "Drones may move only 1 or 2 squares orthogonally"
            },
            ShapeError::QueenNotStraight => "Queens may only move along a straight line",
        }
    }
}

impl PromotionError {
    /// The words that tell a player of this error.
    pub open spec fn text(self) -> Seq<char> {
        match self {
            PromotionError::Queen => "Cannot promote Queen."@,
            PromotionError::DroneWithDrone => "Cannot promote Drone with a Drone"@,
        }
    }

    /// Says in words why the two pieces do not merge.
    pub fn message(&self) -> (s: &'static str)
        ensures
            s@ == self.text(),
    {
        match self {
            PromotionError::Queen => "Cannot promote Queen.",
            PromotionError::DroneWithDrone => "Cannot promote Drone with a Drone",
        }
    }
}

/// Distance between two coordinates.
fn gap(a: usize, b: usize) -> (d: usize)
    ensures
        d == distance(a as int, b as int),
{
    if a >= b {
        a - b
    } else {
        b - a
    }
}

impl Piece {
    /// Checks the geometry of a move against this piece's rank.
    pub fn validate_move(&self, src: &Position, dst: &Position) -> (r: Result<(), ShapeError>)
        ensures
            shape_ok(*self, *src, *dst) ==> r == Ok::<(), ShapeError>(()),
            !shape_ok(*self, *src, *dst) ==> r == Err::<(), ShapeError>(shape_error(*self)),
    {
        let dr = gap(src.row, dst.row);
        let dc = gap(src.col, dst.col);
        match self {
            Piece::Pawn => {
                if dr != 1 || dc != 1 {
                    return Err(ShapeError::PawnNotDiagonalStep);
                }
            },
            Piece::Drone => {
                if dr == 0 {
                    if dc == 0 || dc > 2 {
                        return Err(ShapeError::DroneNotShortOrthogonal);
                    }
                } else if dc == 0 {
                    if dr > 2 {
                        return Err(ShapeError::DroneNotShortOrthogonal);
                    }
                } else {
                    return Err(ShapeError::DroneNotShortOrthogonal);
                }
            },
            Piece::Queen => {
                if !(dr == 0 || dc == 0 || dr == dc) {
                    return Err(ShapeError::QueenNotStraight);
                }
            },
        }
        Ok(())
    }

    /// Merges this piece with `other` into the next rank, where the table allows it.
    pub fn promote(&self, other: Piece) -> (r: Result<Piece, PromotionError>)
        ensures
            r == promotion(*self, other),
    {
        match self {
            Piece::Pawn => match other {
                Piece::Pawn => Ok(Piece::Drone),
                Piece::Drone => Ok(Piece::Queen),
                Piece::Queen => Err(PromotionError::Queen),
            },
            Piece::Drone => match other {
                Piece::Pawn => Ok(Piece::Queen),
                Piece::Drone => Err(PromotionError::DroneWithDrone),
                Piece::Queen => Err(PromotionError::Queen),
            },
            Piece::Queen => Err(PromotionError::Queen),
        }
    }

    /// Points scored for capturing this piece.
    pub fn points(&self) -> (p: u8)
        ensures
            p == value(*self),
    {
        match self {
            Piece::Pawn => 1,
            Piece::Drone => 2,
            Piece::Queen => 3,
        }
    }
}

} // verus!
