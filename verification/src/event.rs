//! Events: the unit of change that participants exchange.

use vstd::prelude::*;
use crate::universe::Universe;

verus! {

/// One change to a grid, complete in itself: applying it needs nothing but
/// the grid.
#[derive(Clone, Copy, Debug, PartialEq, Eq, Structural)]
pub enum Event {
    /// Flip the cell at a position.
    Toggle { row: u32, col: u32 },
    /// Give the cell at a position an absolute state.
    SetCell { row: u32, col: u32, alive: bool },
    /// Advance the whole grid by one generation.
    Tick,
}

/// Why an operation on a grid was refused.
#[derive(Clone, Copy, Debug, PartialEq, Eq, Structural)]
pub enum ApplyError {
    /// The row is not below the height, or the column not below the width.
    OutOfBounds,
}

/// Applies one event to a grid, whatever its source. Events take effect in
/// the order of the calls: nothing is reordered, merged or dropped, so of two
/// events on one cell the later one decides.
///
/// An event whose position is not on the grid is refused with `OutOfBounds`
/// and changes nothing. No event changes the dimensions of the grid.
pub fn apply(grid: &mut Universe, event: Event) -> (result: Result<(), ApplyError>)
    ensures
        result == (if old(grid)@.accepts(event) {
            Ok::<(), ApplyError>(())
        } else {
            Err::<(), ApplyError>(ApplyError::OutOfBounds)
        }),
        final(grid)@ == old(grid)@.after(event),
        final(grid)@.wf(),
        final(grid)@.width == old(grid)@.width,
        final(grid)@.height == old(grid)@.height,
{
    match event {
        Event::Toggle { row, col } => grid.toggle_cell(row, col),
        Event::SetCell { row, col, alive } => grid.set_cell(row, col, alive),
        Event::Tick => {
            grid.tick();
            Ok(())
        },
    }
}

} // verus!
