//! The mathematical model of a grid, and the laws of the game stated over it.

use vstd::prelude::*;
use vstd::arithmetic::div_mod::lemma_fundamental_div_mod;
use vstd::arithmetic::div_mod::lemma_fundamental_div_mod_converse;
use vstd::arithmetic::div_mod::lemma_mod_bound;
use crate::cell::Cell;
use crate::event::Event;
use crate::seed::SeedPolicy;

verus! {

/// A grid as a value of mathematics: its dimensions and its cells in
/// row-major order.
pub struct Board {
    pub width: nat,
    pub height: nat,
    pub cells: Seq<Cell>,
}

impl Board {
    /// The grid of the given dimensions whose cells a policy chose.
    pub open spec fn seeded(width: nat, height: nat, policy: SeedPolicy) -> Board {
        Board { width, height, cells: Seq::new(height * width, |i: int| policy.cell_at(i)) }
    }

    /// There is exactly one cell for each position.
    pub open spec fn wf(self) -> bool {
        self.cells.len() == self.height * self.width
    }

    /// Whether a position lies on the grid.
    pub open spec fn contains(self, row: int, col: int) -> bool {
        0 <= row < self.height && 0 <= col < self.width
    }

    /// The place of a position in the row-major cell sequence.
    pub open spec fn offset(self, row: int, col: int) -> int {
        row * self.width + col
    }

    /// The cell at a position on the grid.
    pub open spec fn cell(self, row: int, col: int) -> Cell {
        self.cells[self.offset(row, col)]
    }

    /// The cell that a position names on the torus: rows wrap modulo the
    /// height and columns modulo the width, so that the row above row 0 is
    /// the last row, and likewise for columns.
    pub open spec fn wrapped(self, row: int, col: int) -> Cell {
        self.cell(row % (self.height as int), col % (self.width as int))
    }

    /// 1 if the wrapped position holds a live cell, else 0. A grid without
    /// cells has no live cell anywhere.
    pub open spec fn live_at(self, row: int, col: int) -> int {
        if self.width == 0 || self.height == 0 {
            0
        } else {
            self.wrapped(row, col).live_count()
        }
    }

    /// The number of live cells among the eight positions around
    /// `(row, col)` on the torus.
    pub open spec fn live_neighbors(self, row: int, col: int) -> int {
        self.live_at(row - 1, col - 1) + self.live_at(row - 1, col) + self.live_at(
            row - 1,
            col + 1,
        ) + self.live_at(row, col - 1) + self.live_at(row, col + 1) + self.live_at(
            row + 1,
            col - 1,
        ) + self.live_at(row + 1, col) + self.live_at(row + 1, col + 1)
    }

    /// The next generation: every cell evolves from its own state and its
    /// live neighbors in this generation.
    pub open spec fn step(self) -> Board {
        Board {
            width: self.width,
            height: self.height,
            cells: Seq::new(
                self.cells.len(),
                |i: int|
                    self.cells[i].next_state(
                        self.live_neighbors(i / (self.width as int), i % (self.width as int)),
                    ),
            ),
        }
    }

    /// The grid with the cell at a position replaced.
    pub open spec fn replaced(self, row: int, col: int, cell: Cell) -> Board {
        Board {
            width: self.width,
            height: self.height,
            cells: self.cells.update(self.offset(row, col), cell),
        }
    }

    /// The grid with the cell at a position flipped.
    pub open spec fn toggled(self, row: int, col: int) -> Board {
        self.replaced(row, col, self.cell(row, col).flipped())
    }

    /// The grid with the cell at a position set to an absolute state.
    pub open spec fn with_cell(self, row: int, col: int, alive: bool) -> Board {
        self.replaced(row, col, Cell::from_alive(alive))
    }

    /// Whether an event can be applied: a tick always, a cell event when its
    /// position lies on the grid.
    pub open spec fn accepts(self, event: Event) -> bool {
        match event {
            Event::Toggle { row, col } => self.contains(row as int, col as int),
            Event::SetCell { row, col, alive } => self.contains(row as int, col as int),
            Event::Tick => true,
        }
    }

    /// The grid after an event. An event that is not accepted changes
    /// nothing.
    pub open spec fn after(self, event: Event) -> Board {
        match event {
            Event::Toggle { row, col } => if self.contains(row as int, col as int) {
                self.toggled(row as int, col as int)
            } else {
                self
            },
            Event::SetCell { row, col, alive } => if self.contains(row as int, col as int) {
                self.with_cell(row as int, col as int, alive)
            } else {
                self
            },
            Event::Tick => self.step(),
        }
    }

    /// Whether no cell is alive.
    pub open spec fn all_dead(self) -> bool {
        forall|i: int| 0 <= i < self.cells.len() ==> self.cells[i] == Cell::Dead
    }

    /// One rendered row: a glyph for each cell of the row, and a line feed.
    pub open spec fn row_text(self, row: int) -> Seq<char> {
        Seq::new(
            self.width + 1,
            |j: int|
                if j < self.width {
                    self.cell(row, j).glyph()
                } else {
                    '\n'
                },
        )
    }

    /// The first `rows` rendered rows, one after the other.
    pub open spec fn rows_text(self, rows: nat) -> Seq<char>
        decreases rows,
    {
        if rows == 0 {
            Seq::empty()
        } else {
            self.rows_text((rows - 1) as nat) + self.row_text(rows - 1)
        }
    }

    /// The grid as text: one line for each row, top to bottom.
    pub open spec fn rendered(self) -> Seq<char> {
        self.rows_text(self.height)
    }

    /// A position on the grid has a place in the cell sequence, and the
    /// place gives the position back.
    pub proof fn lemma_offset(self, row: int, col: int)
        requires
            self.wf(),
            self.contains(row, col),
        ensures
            0 <= self.offset(row, col) < self.cells.len(),
            self.offset(row, col) / (self.width as int) == row,
            self.offset(row, col) % (self.width as int) == col,
    {
        let w = self.width as int;
        let h = self.height as int;
        assert(0 <= row * w && row * w + w <= h * w) by (nonlinear_arith)
            requires
                0 <= row < h,
                0 <= w,
        ;
        lemma_fundamental_div_mod_converse(row * w + col, w, row, col);
    }

    /// Every place in the cell sequence is the place of one position on the
    /// grid.
    pub proof fn lemma_position(self, i: int)
        requires
            self.wf(),
            0 <= i < self.cells.len(),
        ensures
            self.width > 0,
            self.contains(i / (self.width as int), i % (self.width as int)),
            self.offset(i / (self.width as int), i % (self.width as int)) == i,
    {
        let w = self.width as int;
        let h = self.height as int;
        assert(w != 0) by (nonlinear_arith)
            requires
                h * w > 0,
        ;
        lemma_fundamental_div_mod(i, w);
        lemma_mod_bound(i, w);
        let q = i / w;
        assert(0 <= q < h && w * q == q * w) by (nonlinear_arith)
            requires
                0 <= i < h * w,
                w > 0,
                0 <= i - w * q < w,
        ;
    }

    /// On a grid that has cells, every position wraps to a position on the
    /// grid.
    pub proof fn lemma_wrapped(self, row: int, col: int)
        requires
            self.wf(),
            self.width > 0,
            self.height > 0,
        ensures
            self.contains(row % (self.height as int), col % (self.width as int)),
            0 <= self.offset(row % (self.height as int), col % (self.width as int))
                < self.cells.len(),
            0 <= self.live_at(row, col) <= 1,
    {
        lemma_mod_bound(row, self.height as int);
        lemma_mod_bound(col, self.width as int);
        self.lemma_offset(row % (self.height as int), col % (self.width as int));
    }

    /// A neighbor count lies between 0 and 8.
    pub proof fn lemma_live_neighbors_range(self, row: int, col: int)
        requires
            self.wf(),
        ensures
            0 <= self.live_neighbors(row, col) <= 8,
    {
        if self.width > 0 && self.height > 0 {
            self.lemma_wrapped(row - 1, col - 1);
            self.lemma_wrapped(row - 1, col);
            self.lemma_wrapped(row - 1, col + 1);
            self.lemma_wrapped(row, col - 1);
            self.lemma_wrapped(row, col + 1);
            self.lemma_wrapped(row + 1, col - 1);
            self.lemma_wrapped(row + 1, col);
            self.lemma_wrapped(row + 1, col + 1);
        }
    }

    /// The rule of the game, position by position: a cell of the next
    /// generation is the evolved cell of this one.
    pub proof fn lemma_step_cell(self, row: int, col: int)
        requires
            self.wf(),
            self.contains(row, col),
        ensures
            self.step().cell(row, col) == self.cell(row, col).next_state(
                self.live_neighbors(row, col),
            ),
    {
        self.lemma_offset(row, col);
    }

    /// The torus has no edge: a live cell at any of the eight wrapped
    /// positions around `(row, col)` is counted among its neighbors. On a
    /// grid of three rows and three columns, the neighbors of the top left
    /// position thus count the bottom right one, the bottom left one and
    /// the top right one.
    pub proof fn lemma_wrapped_neighbor_counts(self, row: int, col: int, dr: int, dc: int)
        requires
            self.wf(),
            self.width > 0,
            self.height > 0,
            -1 <= dr <= 1,
            -1 <= dc <= 1,
            dr != 0 || dc != 0,
            self.wrapped(row + dr, col + dc) == Cell::Alive,
        ensures
            self.live_neighbors(row, col) >= 1,
    {
        self.lemma_wrapped(row - 1, col - 1);
        self.lemma_wrapped(row - 1, col);
        self.lemma_wrapped(row - 1, col + 1);
        self.lemma_wrapped(row, col - 1);
        self.lemma_wrapped(row, col + 1);
        self.lemma_wrapped(row + 1, col - 1);
        self.lemma_wrapped(row + 1, col);
        self.lemma_wrapped(row + 1, col + 1);
    }

    /// Nothing comes from nothing: the generation after a grid without a
    /// live cell has no live cell.
    pub proof fn lemma_dead_stays_dead(self)
        requires
            self.wf(),
            self.all_dead(),
        ensures
            self.step().wf(),
            self.step().all_dead(),
    {
        assert forall|i: int| 0 <= i < self.step().cells.len() implies self.step().cells[i]
            == Cell::Dead by {
            self.lemma_position(i);
            let row = i / (self.width as int);
            let col = i % (self.width as int);
            self.lemma_wrapped(row - 1, col - 1);
            self.lemma_wrapped(row - 1, col);
            self.lemma_wrapped(row - 1, col + 1);
            self.lemma_wrapped(row, col - 1);
            self.lemma_wrapped(row, col + 1);
            self.lemma_wrapped(row + 1, col - 1);
            self.lemma_wrapped(row + 1, col);
            self.lemma_wrapped(row + 1, col + 1);
            assert(self.live_neighbors(row, col) == 0);
        }
    }

    /// A cell with exactly three live neighbors is alive in the next
    /// generation, whatever it was before.
    pub proof fn lemma_three_neighbors_give_life(self, row: int, col: int)
        requires
            self.wf(),
            self.contains(row, col),
            self.live_neighbors(row, col) == 3,
        ensures
            self.step().cell(row, col) == Cell::Alive,
    {
        self.lemma_step_cell(row, col);
    }

    /// A toggle is its own inverse: the same toggle applied twice gives the
    /// grid back.
    pub proof fn lemma_toggle_twice(self, row: u32, col: u32)
        requires
            self.wf(),
        ensures
            self.after(Event::Toggle { row, col }).after(Event::Toggle { row, col }) == self,
    {
        if self.contains(row as int, col as int) {
            self.lemma_offset(row as int, col as int);
            let once = self.toggled(row as int, col as int);
            let twice = once.toggled(row as int, col as int);
            assert(twice.cells =~= self.cells);
        }
    }

    /// Setting a cell is idempotent: the same set applied twice gives what
    /// it gives applied once.
    pub proof fn lemma_set_twice(self, row: u32, col: u32, alive: bool)
        requires
            self.wf(),
        ensures
            self.after(Event::SetCell { row, col, alive }).after(Event::SetCell { row, col, alive })
                == self.after(Event::SetCell { row, col, alive }),
    {
        if self.contains(row as int, col as int) {
            self.lemma_offset(row as int, col as int);
            let once = self.with_cell(row as int, col as int, alive);
            let twice = once.with_cell(row as int, col as int, alive);
            assert(twice.cells =~= once.cells);
        }
    }

    /// Of two events on one cell the later one decides: after a set, the
    /// cell has the state that the set carried, whatever event came before.
    pub proof fn lemma_later_set_decides(self, earlier: Event, row: u32, col: u32, alive: bool)
        requires
            self.wf(),
            self.contains(row as int, col as int),
        ensures
            self.after(earlier).after(Event::SetCell { row, col, alive }).cell(
                row as int,
                col as int,
            ) == Cell::from_alive(alive),
    {
        self.lemma_after_keeps_shape(earlier);
        self.after(earlier).lemma_offset(row as int, col as int);
    }

    /// No event changes the dimensions of a grid or the number of its
    /// cells.
    pub proof fn lemma_after_keeps_shape(self, event: Event)
        requires
            self.wf(),
        ensures
            self.after(event).wf(),
            self.after(event).width == self.width,
            self.after(event).height == self.height,
    {
        match event {
            Event::Toggle { row, col } => {
                if self.contains(row as int, col as int) {
                    self.lemma_offset(row as int, col as int);
                }
            },
            Event::SetCell { row, col, alive } => {
                if self.contains(row as int, col as int) {
                    self.lemma_offset(row as int, col as int);
                }
            },
            Event::Tick => {},
        }
    }
}

/// Going one position forward or backward on a ring of `n` positions.
pub proof fn lemma_ring_step(x: int, n: int)
    requires
        n > 0,
    ensures
        (x + 1) % n == if x % n == n - 1 {
            0
        } else {
            x % n + 1
        },
        (x - 1) % n == if x % n == 0 {
            n - 1
        } else {
            x % n - 1
        },
{
    let q = x / n;
    let r = x % n;
    lemma_fundamental_div_mod(x, n);
    lemma_mod_bound(x, n);
    assert(n * q == q * n && (q + 1) * n == q * n + n && (q - 1) * n == q * n - n)
        by (nonlinear_arith);
    if r == n - 1 {
        lemma_fundamental_div_mod_converse(x + 1, n, q + 1, 0);
    } else {
        lemma_fundamental_div_mod_converse(x + 1, n, q, r + 1);
    }
    if r == 0 {
        lemma_fundamental_div_mod_converse(x - 1, n, q - 1, n - 1);
    } else {
        lemma_fundamental_div_mod_converse(x - 1, n, q, r - 1);
    }
}

} // verus!
