//! The grid that a participant owns, and the operations a host calls on it.

use vstd::prelude::*;
use vstd::string::StringExecFns;
use crate::board::lemma_ring_step;
use crate::board::Board;
use crate::cell::Cell;
use crate::event::ApplyError;
use crate::seed::SeedPolicy;

verus! {

/// A toroidal grid of cells. Its dimensions never change after it was made;
/// its cell buffer always holds one cell for each position, row by row.
pub struct Universe {
    width: u32,
    height: u32,
    cells: Vec<Cell>,
}

impl View for Universe {
    type V = Board;

    closed spec fn view(&self) -> Board {
        Board { width: self.width as nat, height: self.height as nat, cells: self.cells@ }
    }
}

/// The positions before, at and after a position on a ring of `len`
/// positions. The position itself may lie beyond the ring: it names the
/// position that it wraps to.
fn ring_neighbors(position: u32, len: u32) -> (around: (u32, u32, u32))
    requires
        len > 0,
    ensures
        around.0 == (position - 1) % (len as int),
        around.1 == (position as int) % (len as int),
        around.2 == (position + 1) % (len as int),
        around.0 < len,
        around.1 < len,
        around.2 < len,
{
    let at = position % len;
    let before = if at == 0 {
        len - 1
    } else {
        at - 1
    };
    let after = if at == len - 1 {
        0
    } else {
        at + 1
    };
    proof {
        lemma_ring_step(position as int, len as int);
    }
    (before, at, after)
}

impl Universe {
    /// The buffer holds exactly one cell for each position.
    #[verifier::type_invariant]
    spec fn inv(self) -> bool {
        self.cells@.len() == self.height * self.width
    }

    /// Makes a grid of the given dimensions and lets a policy choose its
    /// cells. The number of cells must fit in a `u32`, so that the place of
    /// every cell does.
    pub fn with_seed(width: u32, height: u32, policy: SeedPolicy) -> (grid: Universe)
        requires
            height * width <= u32::MAX,
        ensures
            grid@ == Board::seeded(width as nat, height as nat, policy),
            grid@.wf(),
    {
        let total: usize = (height as usize) * (width as usize);
        let mut cells: Vec<Cell> = Vec::new();
        let mut index: usize = 0;
        while index < total
            invariant
                index <= total,
                cells@.len() == index,
                forall|k: int| 0 <= k < index ==> cells@[k] == policy.cell_at(k),
            decreases total - index,
        {
            cells.push(policy.cell(index));
            index += 1;
        }
        assert(cells@ =~= Seq::new((height * width) as nat, |i: int| policy.cell_at(i)));
        Universe { width, height, cells }
    }

    /// Makes a square grid whose cells are alive where their place in
    /// row-major order is divisible by 2 or by 7.
    pub fn new(size: u32) -> (grid: Universe)
        requires
            size * size <= u32::MAX,
        ensures
            grid@ == Board::seeded(size as nat, size as nat, SeedPolicy::Lattice),
            grid@.wf(),
    {
        Universe::with_seed(size, size, SeedPolicy::Lattice)
    }

    /// The number of columns.
    pub fn width(&self) -> (width: u32)
        ensures
            width == self@.width,
            self@.wf(),
    {
        proof {
            use_type_invariant(self);
        }
        self.width
    }

    /// The number of rows.
    pub fn height(&self) -> (height: u32)
        ensures
            height == self@.height,
            self@.wf(),
    {
        proof {
            use_type_invariant(self);
        }
        self.height
    }

    /// The cells in row-major order. The slice borrows the grid's own
    /// buffer: it is the grid as it is now, not a copy, and the grid cannot
    /// change while the slice is in use.
    pub fn cells(&self) -> (cells: &[Cell])
        ensures
            cells@ == self@.cells,
            self@.wf(),
    {
        proof {
            use_type_invariant(self);
        }
        self.cells.as_slice()
    }

    /// The place of a position in the cell buffer: `row * width + col`.
    pub fn get_index(&self, row: u32, col: u32) -> (index: usize)
        requires
            self@.contains(row as int, col as int),
        ensures
            index == self@.offset(row as int, col as int),
            index < self@.cells.len(),
    {
        proof {
            use_type_invariant(self);
            self@.lemma_offset(row as int, col as int);
            assert(self.cells@.len() == self.cells.len());
        }
        (row as usize) * (self.width as usize) + (col as usize)
    }

    /// The cell at a position, or `OutOfBounds` if the position is not on
    /// the grid.
    pub fn get(&self, row: u32, col: u32) -> (result: Result<Cell, ApplyError>)
        ensures
            self@.contains(row as int, col as int) ==> result == Ok::<Cell, ApplyError>(
                self@.cell(row as int, col as int),
            ),
            !self@.contains(row as int, col as int) ==> result == Err::<Cell, ApplyError>(
                ApplyError::OutOfBounds,
            ),
    {
        if row < self.height && col < self.width {
            let index = self.get_index(row, col);
            Ok(self.cells[index])
        } else {
            Err(ApplyError::OutOfBounds)
        }
    }

    /// 1 if the cell at a position on the grid is alive, else 0.
    fn live(&self, row: u32, col: u32) -> (n: u8)
        requires
            self@.contains(row as int, col as int),
        ensures
            n == self@.cell(row as int, col as int).live_count(),
    {
        let index = self.get_index(row, col);
        self.cells[index].live()
    }

    /// Counts the live cells among the eight neighbors of a position. The
    /// grid is a torus: the neighbors of a cell on an edge are found on the
    /// opposite edge, and a position beyond the grid names the cell that it
    /// wraps to. A grid without cells has no live neighbors.
    pub fn live_neighbor_count(&self, row: u32, col: u32) -> (count: u8)
        ensures
            count == self@.live_neighbors(row as int, col as int),
            count <= 8,
    {
        if self.width == 0 || self.height == 0 {
            return 0;
        }
        let (up, here, down) = ring_neighbors(row, self.height);
        let (left, there, right) = ring_neighbors(col, self.width);
        self.live(up, left) + self.live(up, there) + self.live(up, right) + self.live(here, left)
            + self.live(here, right) + self.live(down, left) + self.live(down, there) + self.live(
            down,
            right,
        )
    }

    /// Computes the next generation as a new grid. Every cell evolves from
    /// the cells of this generation; this grid is left as it is.
    pub fn step(&self) -> (next: Universe)
        ensures
            next@ == self@.step(),
            next@.wf(),
            self@.wf(),
    {
        proof {
            use_type_invariant(self);
        }
        let mut cells: Vec<Cell> = Vec::new();
        let mut row: u32 = 0;
        while row < self.height
            invariant
                self@.wf(),
                row <= self.height,
                cells@.len() == row * self.width,
                forall|i: int| 0 <= i < cells@.len() ==> cells@[i] == self@.step().cells[i],
            decreases self.height - row,
        {
            let mut col: u32 = 0;
            while col < self.width
                invariant
                    self@.wf(),
                    row < self.height,
                    col <= self.width,
                    cells@.len() == row * self.width + col,
                    forall|i: int| 0 <= i < cells@.len() ==> cells@[i] == self@.step().cells[i],
                decreases self.width - col,
            {
                proof {
                    self@.lemma_offset(row as int, col as int);
                }
                let index = self.get_index(row, col);
                let cell = self.cells[index];
                let live_neighbors = self.live_neighbor_count(row, col);
                cells.push(cell.evolve(live_neighbors));
                col += 1;
            }
            assert((row + 1) * self.width == row * self.width + self.width) by (nonlinear_arith);
            row += 1;
        }
        assert(cells@ =~= self@.step().cells);
        Universe { width: self.width, height: self.height, cells }
    }

    /// Advances the grid by one generation.
    pub fn tick(&mut self)
        ensures
            final(self)@ == old(self)@.step(),
            final(self)@.wf(),
    {
        let next = self.step();
        *self = next;
    }

    /// Flips the cell at a position. A position that is not on the grid is
    /// refused and the grid stays as it was.
    pub fn toggle_cell(&mut self, row: u32, col: u32) -> (result: Result<(), ApplyError>)
        ensures
            old(self)@.contains(row as int, col as int) ==> result == Ok::<(), ApplyError>(())
                && final(self)@ == old(self)@.toggled(row as int, col as int),
            !old(self)@.contains(row as int, col as int) ==> result == Err::<(), ApplyError>(
                ApplyError::OutOfBounds,
            ) && final(self)@ == old(self)@,
            final(self)@.wf(),
    {
        proof {
            use_type_invariant(&*self);
        }
        if row < self.height && col < self.width {
            let index = self.get_index(row, col);
            let mut cell = self.cells[index];
            cell.toggle();
            self.cells[index] = cell;
            Ok(())
        } else {
            Err(ApplyError::OutOfBounds)
        }
    }

    /// Gives the cell at a position an absolute state. A position that is
    /// not on the grid is refused and the grid stays as it was.
    pub fn set_cell(&mut self, row: u32, col: u32, alive: bool) -> (result: Result<
        (),
        ApplyError,
    >)
        ensures
            old(self)@.contains(row as int, col as int) ==> result == Ok::<(), ApplyError>(())
                && final(self)@ == old(self)@.with_cell(row as int, col as int, alive),
            !old(self)@.contains(row as int, col as int) ==> result == Err::<(), ApplyError>(
                ApplyError::OutOfBounds,
            ) && final(self)@ == old(self)@,
            final(self)@.wf(),
    {
        proof {
            use_type_invariant(&*self);
        }
        if row < self.height && col < self.width {
            let index = self.get_index(row, col);
            let mut cell = self.cells[index];
            cell.set_cell(alive);
            self.cells[index] = cell;
            Ok(())
        } else {
            Err(ApplyError::OutOfBounds)
        }
    }

    /// Renders the grid as text: one line for each row, top to bottom, each
    /// made of one glyph for each cell and closed by a line feed.
    pub fn render(&self) -> (text: String)
        ensures
            text@ == self@.rendered(),
            self@.wf(),
    {
        proof {
            use_type_invariant(self);
        }
        let mut text = String::new();
        let mut row: u32 = 0;
        while row < self.height
            invariant
                self@.wf(),
                row <= self.height,
                text@ == self@.rows_text(row as nat),
            decreases self.height - row,
        {
            let ghost line = self@.row_text(row as int);
            let mut col: u32 = 0;
            while col < self.width
                invariant
                    self@.wf(),
                    row < self.height,
                    col <= self.width,
                    line == self@.row_text(row as int),
                    text@ == self@.rows_text(row as nat) + line.take(col as int),
                decreases self.width - col,
            {
                let index = self.get_index(row, col);
                text.append(self.cells[index].symbol());
                assert(line.take(col + 1) =~= line.take(col as int) + seq![line[col as int]]);
                col += 1;
            }
            proof {
                reveal_strlit("\n");
                assert(line =~= line.take(col as int) + seq!['\n']);
            }
            text.append("\n");
            row += 1;
        }
        text
    }
}

} // verus!
