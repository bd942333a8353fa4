//! The simulation engine: owns the current generation, advances it by the
//! Life rule (edge-bounded, no wraparound), and renders it as text.

use vstd::prelude::*;
use vstd::string::StringExecFns;
use crate::grid::{State, HEIGHT, WIDTH, CELLS, cell_index};

verus! {

/// The text of one rendered grid row: `WIDTH` marker characters, `#` for an
/// ALIVE cell and a space for a DEAD one, terminated by a newline.
pub open spec fn render_row(s: Seq<bool>, r: int) -> Seq<char> {
    Seq::new(
        (WIDTH + 1) as nat,
        |j: int| if j == WIDTH as int {
            '\n'
        } else if s[cell_index(r, j)] {
            '#'
        } else {
            ' '
        },
    )
}

/// The text of the first `r` rendered grid rows.
pub open spec fn render_rows(s: Seq<bool>, r: int) -> Seq<char>
    decreases r,
{
    if r <= 0 {
        Seq::empty()
    } else {
        render_rows(s, r - 1) + render_row(s, r - 1)
    }
}

/// The full rendered frame: `HEIGHT` newline-terminated lines.
pub open spec fn render_text(s: Seq<bool>) -> Seq<char> {
    render_rows(s, HEIGHT as int)
}

/// Whether row `r`, column `c` lies on the grid.
pub open spec fn in_bounds(r: int, c: int) -> bool {
    0 <= r < HEIGHT as int && 0 <= c < WIDTH as int
}

/// 1 if the cell at row `r`, column `c` is on the grid and ALIVE, else 0.
/// A position off the grid never counts: there is no wraparound.
pub open spec fn neighbor_weight(s: Seq<bool>, r: int, c: int) -> nat {
    if in_bounds(r, c) && s[cell_index(r, c)] {
        1nat
    } else {
        0nat
    }
}

/// How many of the up-to-8 adjacent cells of row `r`, column `c` are ALIVE.
pub open spec fn live_neighbors(s: Seq<bool>, r: int, c: int) -> nat {
    neighbor_weight(s, r, c + 1) + neighbor_weight(s, r, c - 1)
        + neighbor_weight(s, r + 1, c + 1) + neighbor_weight(s, r + 1, c)
        + neighbor_weight(s, r + 1, c - 1) + neighbor_weight(s, r - 1, c + 1)
        + neighbor_weight(s, r - 1, c) + neighbor_weight(s, r - 1, c - 1)
}

/// The Life rule for one cell: a cell is ALIVE in the next generation iff it
/// has exactly 3 live neighbors, or it is ALIVE now and has exactly 2.
pub open spec fn next_cell(alive: bool, neighbors: nat) -> bool {
    neighbors == 3 || (alive && neighbors == 2)
}

/// One whole-grid evaluation step: every cell follows `next_cell` at once.
pub open spec fn step(s: Seq<bool>) -> Seq<bool> {
    Seq::new(
        s.len(),
        |i: int| next_cell(s[i], live_neighbors(s, i / (WIDTH as int), i % (WIDTH as int))),
    )
}

/// The simulation engine: holds the current generation.
pub struct Game {
    state: State,
}

impl View for Game {
    type V = Seq<bool>;

    closed spec fn view(&self) -> Seq<bool> {
        self.state@
    }
}

impl Game {
    /// The engine's generation is always a well-formed grid.
    pub closed spec fn wf(&self) -> bool {
        self.state.wf()
    }

    /// Takes the initial generation.
    pub fn new(state: State) -> (g: Self)
        requires
            state.wf(),
        ensures
            g.wf(),
            g@ == state@,
    {
        Game { state }
    }

    /// The cell at row `row`, column `col` of the current generation.
    pub fn get(&self, row: usize, col: usize) -> (alive: bool)
        requires
            self.wf(),
            row < HEIGHT,
            col < WIDTH,
        ensures
            alive == self@[cell_index(row as int, col as int)],
    {
        self.state.get(row, col)
    }

    /// Counts the ALIVE cells among the in-bounds neighbors of row `row`,
    /// column `col`: up to 8 of them, fewer at an edge or corner.
    fn live_neighbor_count(&self, row: usize, col: usize) -> (n: u8)
        requires
            self.wf(),
            row < HEIGHT,
            col < WIDTH,
        ensures
            n as nat == live_neighbors(self@, row as int, col as int),
    {
        let mut n: u8 = 0;
        if col + 1 < WIDTH && self.state.get(row, col + 1) {
            n = n + 1;
        }
        if col > 0 && self.state.get(row, col - 1) {
            n = n + 1;
        }
        if row + 1 < HEIGHT && col + 1 < WIDTH && self.state.get(row + 1, col + 1) {
            n = n + 1;
        }
        if row + 1 < HEIGHT && self.state.get(row + 1, col) {
            n = n + 1;
        }
        if row + 1 < HEIGHT && col > 0 && self.state.get(row + 1, col - 1) {
            n = n + 1;
        }
        if row > 0 && col + 1 < WIDTH && self.state.get(row - 1, col + 1) {
            n = n + 1;
        }
        if row > 0 && self.state.get(row - 1, col) {
            n = n + 1;
        }
        if row > 0 && col > 0 && self.state.get(row - 1, col - 1) {
            n = n + 1;
        }
        n
    }

    /// Advances the current generation by one evaluation step: the whole grid
    /// is rewritten at once by the Life rule, into a fresh blank grid that
    /// then replaces the old one, so no cell's neighbor count is corrupted by
    /// an already-updated neighbor.
    pub fn evaluate(&mut self)
        requires
            old(self).wf(),
        ensures
            final(self).wf(),
            final(self)@ == step(old(self)@),
    {
        let ghost orig: Seq<bool> = self@;
        let mut new_state = State::default();
        let mut row: usize = 0;
        while row < HEIGHT
            invariant
                self.wf(),
                self@ == orig,
                new_state.wf(),
                row <= HEIGHT,
                forall|i: int|
                    0 <= i < cell_index(row as int, 0) ==> new_state@[i] == step(orig)[i],
                forall|i: int|
                    cell_index(row as int, 0) <= i < CELLS as int ==> !new_state@[i],
            decreases HEIGHT - row,
        {
            let mut col: usize = 0;
            while col < WIDTH
                invariant
                    self.wf(),
                    self@ == orig,
                    new_state.wf(),
                    row < HEIGHT,
                    col <= WIDTH,
                    forall|i: int|
                        0 <= i < cell_index(row as int, col as int)
                            ==> new_state@[i] == step(orig)[i],
                    forall|i: int|
                        cell_index(row as int, col as int) <= i < CELLS as int
                            ==> !new_state@[i],
                decreases WIDTH - col,
            {
                let current = self.state.get(row, col);
                let count = self.live_neighbor_count(row, col);
                if (count == 2 || count == 3) && current {
                    new_state.set(row, col, true);
                }
                if count > 3 && current {
                    new_state.set(row, col, false);
                }
                if count == 3 {
                    new_state.set(row, col, true);
                }
                if count < 2 && current {
                    new_state.set(row, col, false);
                }
                proof {
                    lemma_cell_index_roundtrip(row as int, col as int);
                }
                col = col + 1;
            }
            row = row + 1;
        }
        self.state = new_state;
        proof {
            assert(self@ =~= step(orig));
        }
    }

    /// Renders the current generation: `HEIGHT` lines of `WIDTH` characters,
    /// ALIVE cells as `#`, DEAD cells as a space, each line ending in a
    /// newline. Writing it to the terminal is the caller's business.
    pub fn render(&self) -> (text: String)
        requires
            self.wf(),
        ensures
            text@ == render_text(self@),
    {
        let mut text = String::new();
        let mut row: usize = 0;
        while row < HEIGHT
            invariant
                self.wf(),
                row <= HEIGHT,
                text@ == render_rows(self@, row as int),
            decreases HEIGHT - row,
        {
            let mut col: usize = 0;
            proof {
                assert(text@ =~= render_rows(self@, row as int)
                    + render_row(self@, row as int).subrange(0, 0));
            }
            while col < WIDTH
                invariant
                    self.wf(),
                    row < HEIGHT,
                    col <= WIDTH,
                    text@ == render_rows(self@, row as int)
                        + render_row(self@, row as int).subrange(0, col as int),
                decreases WIDTH - col,
            {
                if self.state.get(row, col) {
                    text.append("#");
                } else {
                    text.append(" ");
                }
                proof {
                    reveal_strlit("#");
                    reveal_strlit(" ");
                    assert(text@ =~= render_rows(self@, row as int)
                        + render_row(self@, row as int).subrange(0, col as int + 1));
                }
                col = col + 1;
            }
            text.append("\n");
            proof {
                reveal_strlit("\n");
                assert(text@ =~= render_rows(self@, row as int + 1));
            }
            row = row + 1;
        }
        text
    }
}

/// For an on-grid position, row and column are recovered from the row-major
/// cell index by division and remainder.
proof fn lemma_cell_index_roundtrip(r: int, c: int)
    requires
        in_bounds(r, c),
    ensures
        cell_index(r, c) / (WIDTH as int) == r,
        cell_index(r, c) % (WIDTH as int) == c,
{
}

/// Birth rule: after one evaluation step, a DEAD cell is ALIVE if and only if
/// it had exactly 3 ALIVE neighbors, counted over in-bounds positions only.
pub proof fn lemma_birth(s: Seq<bool>, r: int, c: int)
    requires
        s.len() == CELLS as int,
        in_bounds(r, c),
        !s[cell_index(r, c)],
    ensures
        step(s)[cell_index(r, c)] <==> live_neighbors(s, r, c) == 3,
{
    lemma_cell_index_roundtrip(r, c);
}

/// Survival rule: after one evaluation step, an ALIVE cell is still ALIVE if
/// and only if it had 2 or 3 ALIVE neighbors; otherwise it is DEAD.
pub proof fn lemma_survival(s: Seq<bool>, r: int, c: int)
    requires
        s.len() == CELLS as int,
        in_bounds(r, c),
        s[cell_index(r, c)],
    ensures
        step(s)[cell_index(r, c)] <==> (live_neighbors(s, r, c) == 2
            || live_neighbors(s, r, c) == 3),
{
    lemma_cell_index_roundtrip(r, c);
}

/// A corner cell sees only its 3 in-bounds neighbors: its count is the sum of
/// exactly those three cells, so a missing neighbor is never taken for ALIVE
/// and nothing wraps to the opposite edge. Stated for the top-left and the
/// bottom-right corner; the other two corners are symmetric.
pub proof fn lemma_corner_neighbors(s: Seq<bool>)
    requires
        s.len() == CELLS as int,
    ensures
        live_neighbors(s, 0, 0) == neighbor_weight(s, 0, 1) + neighbor_weight(s, 1, 0)
            + neighbor_weight(s, 1, 1),
        live_neighbors(s, 0, 0) <= 3,
        live_neighbors(s, HEIGHT as int - 1, WIDTH as int - 1) == neighbor_weight(
            s,
            HEIGHT as int - 1,
            WIDTH as int - 2,
        ) + neighbor_weight(s, HEIGHT as int - 2, WIDTH as int - 1) + neighbor_weight(
            s,
            HEIGHT as int - 2,
            WIDTH as int - 2,
        ),
        live_neighbors(s, HEIGHT as int - 1, WIDTH as int - 1) <= 3,
{
}

/// Every cell of the grid is DEAD.
pub open spec fn all_dead(s: Seq<bool>) -> bool {
    forall|i: int| 0 <= i < s.len() ==> !s[i]
}

/// No spontaneous generation: one evaluation step of a fully DEAD grid leaves
/// it fully DEAD.
pub proof fn lemma_dead_stays_dead(s: Seq<bool>)
    requires
        s.len() == CELLS as int,
        all_dead(s),
    ensures
        step(s).len() == s.len(),
        all_dead(step(s)),
{
    assert forall|i: int| 0 <= i < step(s).len() implies !step(s)[i] by {
        let r = i / (WIDTH as int);
        let c = i % (WIDTH as int);
        assert(live_neighbors(s, r, c) == 0);
    }
}

/// The grid after `n` evaluation steps from `s`.
pub open spec fn step_n(s: Seq<bool>, n: nat) -> Seq<bool>
    decreases n,
{
    if n == 0 {
        s
    } else {
        step(step_n(s, (n - 1) as nat))
    }
}

/// A fully DEAD grid remains fully DEAD after any number of evaluation steps.
pub proof fn lemma_dead_stays_dead_forever(s: Seq<bool>, n: nat)
    requires
        s.len() == CELLS as int,
        all_dead(s),
    ensures
        step_n(s, n).len() == s.len(),
        all_dead(step_n(s, n)),
    decreases n,
{
    if n > 0 {
        lemma_dead_stays_dead_forever(s, (n - 1) as nat);
        lemma_dead_stays_dead(step_n(s, (n - 1) as nat));
    }
}

} // verus!
