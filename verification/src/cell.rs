//! A single cell and the rule that decides its next state.

use vstd::prelude::*;

verus! {

/// The state of one grid position.
#[derive(Clone, Copy, Debug, PartialEq, Eq, Structural)]
pub enum Cell {
    Dead,
    Alive,
}

impl Cell {
    /// The opposite state.
    pub open spec fn flipped(self) -> Cell {
        match self {
            Cell::Dead => Cell::Alive,
            Cell::Alive => Cell::Dead,
        }
    }

    /// The state that a flag stands for.
    pub open spec fn from_alive(alive: bool) -> Cell {
        if alive {
            Cell::Alive
        } else {
            Cell::Dead
        }
    }

    /// What this cell adds to a neighbor count: 1 when alive, 0 when dead.
    pub open spec fn live_count(self) -> int {
        match self {
            Cell::Dead => 0,
            Cell::Alive => 1,
        }
    }

    /// The state of this cell in the next generation, given how many of
    /// its eight neighbors are alive now.
    ///
    /// A live cell survives with two or three live neighbors and dies
    /// otherwise; a dead cell comes alive with exactly three.
    pub open spec fn next_state(self, live_neighbors: int) -> Cell {
        match self {
            Cell::Alive => if live_neighbors == 2 || live_neighbors == 3 {
                Cell::Alive
            } else {
                Cell::Dead
            },
            Cell::Dead => if live_neighbors == 3 {
                Cell::Alive
            } else {
                Cell::Dead
            },
        }
    }

    /// The character that shows this cell in a rendered grid.
    pub open spec fn glyph(self) -> char {
        match self {
            Cell::Dead => '\u{25FB}',
            Cell::Alive => '\u{25FC}',
        }
    }

    /// Flips the cell in place.
    pub fn toggle(&mut self)
        ensures
            *final(self) == old(self).flipped(),
    {
        *self = match *self {
            Cell::Dead => Cell::Alive,
            Cell::Alive => Cell::Dead,
        };
    }

    /// Overwrites the cell with the state that `alive` stands for.
    pub fn set_cell(&mut self, alive: bool)
        ensures
            *final(self) == Cell::from_alive(alive),
    {
        *self = if alive {
            Cell::Alive
        } else {
            Cell::Dead
        };
    }

    /// 1 for a live cell, 0 for a dead one.
    pub fn live(self) -> (n: u8)
        ensures
            n == self.live_count(),
    {
        match self {
            Cell::Dead => 0,
            Cell::Alive => 1,
        }
    }

    /// Applies the rule of the game to one cell.
    pub fn evolve(self, live_neighbors: u8) -> (next: Cell)
        ensures
            next == self.next_state(live_neighbors as int),
    {
        match self {
            Cell::Alive => if live_neighbors == 2 || live_neighbors == 3 {
                Cell::Alive
            } else {
                Cell::Dead
            },
            Cell::Dead => if live_neighbors == 3 {
                Cell::Alive
            } else {
                Cell::Dead
            },
        }
    }

    /// The rendered form of this cell, one character long.
    pub fn symbol(self) -> (text: &'static str)
        ensures
            text@ == seq![self.glyph()],
    {
        match self {
            Cell::Dead => {
                proof {
                    reveal_strlit("\u{25FB}");
                }
                "\u{25FB}"
            },
            Cell::Alive => {
                proof {
                    reveal_strlit("\u{25FC}");
                }
                "\u{25FC}"
            },
        }
    }
}

} // verus!
