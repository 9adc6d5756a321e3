//! How the cells of a new grid are chosen.

use vstd::prelude::*;
use crate::cell::Cell;

verus! {

/// A rule that gives each cell of a new grid its state. The state depends
/// on nothing but the cell's place in row-major order, so the same policy
/// always seeds the same grid.
#[derive(Clone, Copy, Debug, PartialEq, Eq, Structural)]
pub enum SeedPolicy {
    /// Every cell is dead.
    Blank,
    /// A cell is alive where its place is divisible by 2 or by 7.
    Lattice,
}

impl SeedPolicy {
    /// The state of the cell at a place in row-major order.
    pub open spec fn cell_at(self, index: int) -> Cell {
        match self {
            SeedPolicy::Blank => Cell::Dead,
            SeedPolicy::Lattice => if index % 2 == 0 || index % 7 == 0 {
                Cell::Alive
            } else {
                Cell::Dead
            },
        }
    }

    /// Computes the state of the cell at a place in row-major order.
    pub fn cell(self, index: usize) -> (cell: Cell)
        ensures
            cell == self.cell_at(index as int),
    {
        match self {
            SeedPolicy::Blank => Cell::Dead,
            SeedPolicy::Lattice => if index % 2 == 0 || index % 7 == 0 {
                Cell::Alive
            } else {
                Cell::Dead
            },
        }
    }
}

} // verus!
