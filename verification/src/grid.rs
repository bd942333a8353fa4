//! The grid: a fixed-size matrix of cells, each ALIVE (`true`) or DEAD
//! (`false`), stored row-major in a flat buffer.

use vstd::prelude::*;

verus! {

/// Number of rows in every grid.
pub const HEIGHT: usize = 50;

/// Number of columns in every grid.
pub const WIDTH: usize = 50;

/// Total number of cells in every grid.
pub const CELLS: usize = HEIGHT * WIDTH;

/// Row-major position of the cell at row `r`, column `c`.
pub open spec fn cell_index(r: int, c: int) -> int {
    r * (WIDTH as int) + c
}

/// One generation of the simulation: `true` is ALIVE, `false` is DEAD.
pub struct State {
    cells: Vec<bool>,
}

impl View for State {
    type V = Seq<bool>;

    closed spec fn view(&self) -> Seq<bool> {
        self.cells@
    }
}

impl State {
    /// A grid holds exactly `HEIGHT * WIDTH` cells.
    pub open spec fn wf(&self) -> bool {
        self@.len() == CELLS as int
    }

    /// The cell at row `row`, column `col`.
    pub fn get(&self, row: usize, col: usize) -> (alive: bool)
        requires
            self.wf(),
            row < HEIGHT,
            col < WIDTH,
        ensures
            alive == self@[cell_index(row as int, col as int)],
    {
        self.cells[row * WIDTH + col]
    }

    /// Replaces the cell at row `row`, column `col`.
    pub fn set(&mut self, row: usize, col: usize, alive: bool)
        requires
            old(self).wf(),
            row < HEIGHT,
            col < WIDTH,
        ensures
            final(self).wf(),
            final(self)@ == old(self)@.update(cell_index(row as int, col as int), alive),
    {
        let i = row * WIDTH + col;
        self.cells.set(i, alive);
    }
}

/// Relies on rand::random: draws a value of `T` from the process-wide,
/// entropy-seeded generator. Nothing can be promised of the value drawn.
pub assume_specification<T>[ rand::random::<T> ]() -> (r: T)
    where
        rand::distributions::Standard: rand::distributions::Distribution<T>,
;

impl State {
    /// A grid whose every cell is drawn independently, ALIVE or DEAD with
    /// equal probability, from the process-wide random source.
    pub fn random() -> (s: Self)
        ensures
            s.wf(),
    {
        let mut res = State::default();
        let mut row: usize = 0;
        while row < HEIGHT
            invariant
                res.wf(),
                row <= HEIGHT,
            decreases HEIGHT - row,
        {
            let mut col: usize = 0;
            while col < WIDTH
                invariant
                    res.wf(),
                    row < HEIGHT,
                    col <= WIDTH,
                decreases WIDTH - col,
            {
                if rand::random::<bool>() {
                    res.set(row, col, true);
                } else {
                    res.set(row, col, false);
                }
                col = col + 1;
            }
            row = row + 1;
        }
        res
    }
}

impl Default for State {
    /// A blank grid: every cell DEAD.
    fn default() -> (s: Self)
        ensures
            s.wf(),
            forall|i: int| 0 <= i < s@.len() ==> !s@[i],
    {
        let mut cells: Vec<bool> = Vec::new();
        let mut n: usize = 0;
        while n < CELLS
            invariant
                n <= CELLS,
                cells@.len() == n as int,
                forall|i: int| 0 <= i < n as int ==> !cells@[i],
            decreases CELLS - n,
        {
            cells.push(false);
            n = n + 1;
        }
        State { cells }
    }
}

} // verus!
