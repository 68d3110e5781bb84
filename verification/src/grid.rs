//! The toroidal grid on which symbols are placed.
//!
//! The grid has `WIDTH` columns and `HEIGHT` rows. A cursor that leaves the
//! grid on one side enters it again on the opposite side.

use vstd::prelude::*;

verus! {

/// Number of columns of the grid.
pub const WIDTH: usize = 3;

/// Number of rows of the grid.
pub const HEIGHT: usize = 3;

/// One of the four directions in which the cursor moves.
#[derive(Clone, Copy, Debug, PartialEq, Eq, Structural)]
pub enum SymbolDirection {
    Left,
    Right,
    Up,
    Down,
}

/// A cell of the grid: column `x`, row `y`. Row 0 is the top row.
#[derive(Clone, Copy, Debug, PartialEq, Eq, Structural)]
pub struct Position {
    pub x: usize,
    pub y: usize,
}

impl Position {
    /// The position names a cell of the grid.
    pub open spec fn in_grid(self) -> bool {
        self.x < WIDTH && self.y < HEIGHT
    }

    /// The neighbour of this cell in the given direction, on the torus.
    pub open spec fn moved(self, direction: SymbolDirection) -> Position {
        match direction {
            SymbolDirection::Right => Position {
                x: ((self.x + 1) % (WIDTH as int)) as usize,
                y: self.y,
            },
            SymbolDirection::Left => Position {
                x: ((self.x + WIDTH - 1) % (WIDTH as int)) as usize,
                y: self.y,
            },
            SymbolDirection::Down => Position {
                x: self.x,
                y: ((self.y + 1) % (HEIGHT as int)) as usize,
            },
            SymbolDirection::Up => Position {
                x: self.x,
                y: ((self.y + HEIGHT - 1) % (HEIGHT as int)) as usize,
            },
        }
    }

    /// The cell reached after `steps` moves in one direction.
    pub open spec fn moved_times(self, direction: SymbolDirection, steps: nat) -> Position
        decreases steps,
    {
        if steps == 0 {
            self
        } else {
            self.moved(direction).moved_times(direction, (steps - 1) as nat)
        }
    }

    /// The cell at column `x` and row `y`, if the grid has such a cell.
    pub fn new(x: usize, y: usize) -> (r: Option<Position>)
        ensures
            x < WIDTH && y < HEIGHT ==> r == Some(Position { x, y }),
            !(x < WIDTH && y < HEIGHT) ==> r.is_none(),
    {
        if x < WIDTH && y < HEIGHT {
            Some(Position { x, y })
        } else {
            None
        }
    }

    /// The top left cell.
    pub fn origin() -> (r: Position)
        ensures
            r == (Position { x: 0, y: 0 }),
            r.in_grid(),
    {
        Position { x: 0, y: 0 }
    }
}

/// Moves one cell in the given direction, wrapping at the edges of the grid.
pub fn advance(position: Position, direction: SymbolDirection) -> (r: Position)
    requires
        position.in_grid(),
    ensures
        r == position.moved(direction),
        r.in_grid(),
{
    match direction {
        SymbolDirection::Right => {
            if position.x >= WIDTH - 1 {
                Position { x: 0, y: position.y }
            } else {
                Position { x: position.x + 1, y: position.y }
            }
        },
        SymbolDirection::Left => {
            if position.x == 0 {
                Position { x: WIDTH - 1, y: position.y }
            } else {
                Position { x: position.x - 1, y: position.y }
            }
        },
        SymbolDirection::Down => {
            if position.y >= HEIGHT - 1 {
                Position { x: position.x, y: 0 }
            } else {
                Position { x: position.x, y: position.y + 1 }
            }
        },
        SymbolDirection::Up => {
            if position.y == 0 {
                Position { x: position.x, y: HEIGHT - 1 }
            } else {
                Position { x: position.x, y: position.y - 1 }
            }
        },
    }
}

/// A move keeps the cursor on the grid.
pub proof fn lemma_moved_in_grid(position: Position, direction: SymbolDirection)
    requires
        position.in_grid(),
    ensures
        position.moved(direction).in_grid(),
{
}

/// Moving once and then once in the opposite direction leads back to the
/// starting cell.
pub proof fn lemma_moves_cancel(position: Position)
    requires
        position.in_grid(),
    ensures
        position.moved(SymbolDirection::Right).moved(SymbolDirection::Left) == position,
        position.moved(SymbolDirection::Left).moved(SymbolDirection::Right) == position,
        position.moved(SymbolDirection::Down).moved(SymbolDirection::Up) == position,
        position.moved(SymbolDirection::Up).moved(SymbolDirection::Down) == position,
{
}

/// The grid is a torus: as many moves to the right, or to the left, as the
/// grid has columns lead back to the starting cell, and so do as many moves
/// down, or up, as it has rows.
pub proof fn lemma_wraparound(position: Position)
    requires
        position.in_grid(),
    ensures
        position.moved_times(SymbolDirection::Right, WIDTH as nat) == position,
        position.moved_times(SymbolDirection::Left, WIDTH as nat) == position,
        position.moved_times(SymbolDirection::Down, HEIGHT as nat) == position,
        position.moved_times(SymbolDirection::Up, HEIGHT as nat) == position,
{
    reveal_with_fuel(Position::moved_times, 4);
}

} // verus!
