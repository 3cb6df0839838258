//! Moves and the outcome of checking one.

use vstd::prelude::*;

verus! {

/// Why a move cannot be made.
#[derive(Debug, Clone, Copy, PartialEq, Eq, Structural)]
pub enum MoveError {
    /// A coordinate is larger than 2.
    OutOfField,
    /// The cell already holds a mark.
    AlreadyOccupied,
}

/// The outcome of checking a move.
#[derive(Debug, Clone, Copy, PartialEq, Eq, Structural)]
pub enum MoveStatus {
    Correct,
    Error(MoveError),
}

/// A cell of the board: column `x` and row `y`, both at most 2.
#[derive(Debug, Clone, Copy)]
pub struct Move {
    x: usize,
    y: usize,
}

impl View for Move {
    type V = (int, int);

    closed spec fn view(&self) -> (int, int) {
        (self.x as int, self.y as int)
    }
}

impl Move {
    #[verifier::type_invariant]
    spec fn in_field(&self) -> bool {
        self.x <= 2 && self.y <= 2
    }

    /// The move to column `x`, row `y`.
    pub fn new(x: usize, y: usize) -> (r: Move)
        requires
            x <= 2,
            y <= 2,
        ensures
            r@ == (x as int, y as int),
    {
        Move { x, y }
    }

    /// Its column.
    pub fn x(&self) -> (r: usize)
        ensures
            r as int == self@.0,
            r <= 2,
    {
        proof {
            use_type_invariant(self);
        }
        self.x
    }

    /// Its row.
    pub fn y(&self) -> (r: usize)
        ensures
            r as int == self@.1,
            r <= 2,
    {
        proof {
            use_type_invariant(self);
        }
        self.y
    }
}

} // verus!
