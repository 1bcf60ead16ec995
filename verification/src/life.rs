//! The grid engine: an immutable board snapshot and the pure
//! generation-stepping algorithm, with configurable birth/survival rules.

use std::sync::Arc;
use vstd::prelude::*;

verus! {

/// One snapshot of the automaton.
///
/// `cells` stores `rows * cols` booleans in row-major order. The rule
/// tables `born` and `survive` list the live-neighbor counts that bring a
/// dead cell to life, respectively keep a live cell alive. They are
/// reference counted and immutable, so every board derived from a common
/// ancestor shares one copy; stepping never mutates them.
pub struct Board {
    pub cells: Vec<bool>,
    pub rows: usize,
    pub cols: usize,
    pub survive: Arc<Vec<usize>>,
    pub born: Arc<Vec<usize>>,
}

/// Neighbor counts that revive a dead cell under the standard rules.
pub open spec fn default_born() -> Seq<usize> {
    seq![3usize]
}

/// Neighbor counts that keep a live cell alive under the standard rules.
pub open spec fn default_survive() -> Seq<usize> {
    seq![2usize, 3usize]
}

/// 1 for a live cell, 0 for a dead one; used to sum neighbor counts.
pub open spec fn occupancy(alive: bool) -> int {
    if alive {
        1
    } else {
        0
    }
}

impl Board {
    /// The cell count that the dimensions call for.
    pub open spec fn len_spec(&self) -> int {
        self.rows * self.cols
    }

    /// Well-formedness: the flat storage matches the dimensions.
    pub open spec fn wf(&self) -> bool {
        self.cells@.len() == self.rows * self.cols
    }

    /// Whether the cell at `(x, y)` is alive. Any coordinate outside
    /// `[0, cols) x [0, rows)` is permanently dead: the grid is bounded,
    /// with no wraparound.
    pub open spec fn alive(&self, x: int, y: int) -> bool {
        &&& 0 <= x < self.cols
        &&& 0 <= y < self.rows
        &&& self.cells@[y * self.cols + x]
    }

    /// How many of the eight Moore neighbors of `(x, y)` are alive.
    /// Out-of-bounds positions count as dead.
    pub open spec fn live_neighbors(&self, x: int, y: int) -> int {
        occupancy(self.alive(x - 1, y - 1)) + occupancy(self.alive(x, y - 1)) + occupancy(
            self.alive(x + 1, y - 1),
        ) + occupancy(self.alive(x - 1, y)) + occupancy(self.alive(x + 1, y)) + occupancy(
            self.alive(x - 1, y + 1),
        ) + occupancy(self.alive(x, y + 1)) + occupancy(self.alive(x + 1, y + 1))
    }

    /// The next state of the cell at `(x, y)`: a live cell persists iff
    /// its neighbor count is in `survive`, a dead cell is born iff its
    /// neighbor count is in `born`.
    pub open spec fn successor_spec(&self, x: int, y: int) -> bool {
        if self.alive(x, y) {
            self.survive@.contains(self.live_neighbors(x, y) as usize)
        } else {
            self.born@.contains(self.live_neighbors(x, y) as usize)
        }
    }

    /// Constructs an all-dead board with the standard rules:
    /// a dead cell is born with exactly 3 live neighbors, a live cell
    /// survives with 2 or 3.
    pub fn new(rows: usize, cols: usize) -> (b: Board)
        requires
            rows * cols <= usize::MAX,
        ensures
            b.wf(),
            b.rows == rows,
            b.cols == cols,
            b.born@ == default_born(),
            b.survive@ == default_survive(),
            forall|i: int| 0 <= i < b.cells@.len() ==> !b.cells@[i],
    {
        let born: Vec<usize> = vec![3];
        let survive: Vec<usize> = vec![2, 3];
        let b = Board::new_with_custom_rules(rows, cols, born, survive);
        proof {
            assert(b.born@ =~= default_born());
            assert(b.survive@ =~= default_survive());
        }
        b
    }

    /// Constructs an all-dead board with caller-supplied rule tables.
    pub fn new_with_custom_rules(
        rows: usize,
        cols: usize,
        born: Vec<usize>,
        survive: Vec<usize>,
    ) -> (b: Board)
        requires
            rows * cols <= usize::MAX,
        ensures
            b.wf(),
            b.rows == rows,
            b.cols == cols,
            b.born@ == born@,
            b.survive@ == survive@,
            forall|i: int| 0 <= i < b.cells@.len() ==> !b.cells@[i],
    {
        let n = rows * cols;
        let mut new_cells: Vec<bool> = Vec::new();
        while new_cells.len() < n
            invariant
                new_cells@.len() <= n,
                forall|i: int| 0 <= i < new_cells@.len() ==> !new_cells@[i],
            decreases n - new_cells@.len(),
        {
            new_cells.push(false);
        }
        Board { cells: new_cells, born: Arc::new(born), survive: Arc::new(survive), rows, cols }
    }

    /// The total number of cells in the board.
    pub fn len(&self) -> (n: usize)
        requires
            self.wf(),
        ensures
            n == self.len_spec(),
    {
        self.cells.len()
    }

    /// The coordinates `(x, y)` of the cell with flat index `cell`.
    pub fn get_cell_coordinates(&self, cell: usize) -> (xy: (usize, usize))
        requires
            self.cols > 0,
        ensures
            xy.0 == cell as int % self.cols as int,
            xy.1 == cell as int / self.cols as int,
    {
        (cell % self.cols, cell / self.cols)
    }

    /// Whether the cell at `(x, y)` is alive. Any out-of-range
    /// coordinate, including one that underflowed past zero, reads as
    /// dead: the boundary is closed, not toroidal.
    pub fn cell_live(&self, x: usize, y: usize) -> (r: bool)
        requires
            self.wf(),
        ensures
            r == self.alive(x as int, y as int),
    {
        if x >= self.cols || y >= self.rows {
            false
        } else {
            // Establishes rows * cols <= usize::MAX, bounding the
            // index arithmetic below.
            let _n = self.cells.len();
            proof {
                assert(y * self.cols + x < self.rows * self.cols) by (nonlinear_arith)
                    requires
                        x < self.cols,
                        y < self.rows,
                ;
            }
            self.cells[y * self.cols + x]
        }
    }

    /// Counts the live cells among the eight Moore neighbors of
    /// `(x, y)`; neighbors that fall off an edge count as dead.
    pub fn live_neighbor_count(&self, x: usize, y: usize) -> (n: usize)
        requires
            self.wf(),
            x < self.cols,
            y < self.rows,
        ensures
            n == self.live_neighbors(x as int, y as int),
    {
        // A coordinate at 0 has no predecessor: usize::MAX can never be
        // a valid column or row, so it stands in for the out-of-bounds
        // position to the left of or above the grid.
        let x_prev = if x == 0 {
            usize::MAX
        } else {
            x - 1
        };
        let y_prev = if y == 0 {
            usize::MAX
        } else {
            y - 1
        };
        let mut count: usize = 0;
        if self.cell_live(x_prev, y_prev) {
            count = count + 1;
        }
        if self.cell_live(x, y_prev) {
            count = count + 1;
        }
        if self.cell_live(x + 1, y_prev) {
            count = count + 1;
        }
        if self.cell_live(x_prev, y) {
            count = count + 1;
        }
        if self.cell_live(x + 1, y) {
            count = count + 1;
        }
        if self.cell_live(x_prev, y + 1) {
            count = count + 1;
        }
        if self.cell_live(x, y + 1) {
            count = count + 1;
        }
        if self.cell_live(x + 1, y + 1) {
            count = count + 1;
        }
        count
    }

    /// The next state of the cell at `(x, y)`, per the rule tables.
    pub fn successor(&self, x: usize, y: usize) -> (r: bool)
        requires
            self.wf(),
            x < self.cols,
            y < self.rows,
        ensures
            r == self.successor_spec(x as int, y as int),
    {
        let neighbors = self.live_neighbor_count(x, y);
        if self.cell_live(x, y) {
            rule_contains(&self.survive, neighbors)
        } else {
            rule_contains(&self.born, neighbors)
        }
    }

    /// The next state of the cell with flat index `cell`.
    pub fn successor_cell(&self, cell: usize) -> (r: bool)
        requires
            self.wf(),
            cell < self.len_spec(),
        ensures
            r == self.successor_spec(
                cell as int % self.cols as int,
                cell as int / self.cols as int,
            ),
    {
        proof {
            assert(self.cols > 0) by (nonlinear_arith)
                requires
                    cell < self.rows * self.cols,
            ;
        }
        let (x, y) = self.get_cell_coordinates(cell);
        proof {
            assert((cell as int) % (self.cols as int) < self.cols) by (nonlinear_arith)
                requires
                    cell < self.rows * self.cols,
                    self.cols > 0,
            ;
            assert((cell as int) / (self.cols as int) < self.rows) by (nonlinear_arith)
                requires
                    cell < self.rows * self.cols,
                    self.cols > 0,
            ;
        }
        self.successor(x, y)
    }

    /// Builds the successor snapshot around a fully computed cell
    /// vector, keeping this board's dimensions and sharing its rule
    /// tables. A vector of any other length than `rows * cols` would
    /// break the board invariant; the precondition rules it out, so a
    /// mismatch can neither truncate nor pad silently.
    pub fn next_board(&self, new_cells: Vec<bool>) -> (b: Board)
        requires
            self.wf(),
            new_cells@.len() == self.len_spec(),
        ensures
            b.wf(),
            b.rows == self.rows,
            b.cols == self.cols,
            b.cells@ == new_cells@,
            b.born@ == self.born@,
            b.survive@ == self.survive@,
    {
        Board {
            cells: new_cells,
            rows: self.rows,
            cols: self.cols,
            born: share_rules(&self.born),
            survive: share_rules(&self.survive),
        }
    }

    /// Computes the next generation: a new board of the same dimensions
    /// and rules in which every cell holds the successor state of the
    /// corresponding cell here. `self` is not mutated, so readers of
    /// this snapshot are undisturbed while the next one is built.
    pub fn next_generation(&self) -> (b: Board)
        requires
            self.wf(),
        ensures
            b.wf(),
            b.rows == self.rows,
            b.cols == self.cols,
            b.born@ == self.born@,
            b.survive@ == self.survive@,
            b.cells@.len() == self.len_spec(),
            forall|i: int|
                0 <= i < b.cells@.len() ==> b.cells@[i] == self.successor_spec(
                    i % (self.cols as int),
                    i / (self.cols as int),
                ),
            forall|x: int, y: int|
                0 <= x < self.cols && 0 <= y < self.rows ==> b.alive(x, y)
                    == self.successor_spec(x, y),
    {
        let n = self.len();
        let mut new_cells: Vec<bool> = Vec::new();
        let mut cell: usize = 0;
        while cell < n
            invariant
                self.wf(),
                n == self.len_spec(),
                cell == new_cells@.len(),
                cell <= n,
                forall|i: int|
                    0 <= i < cell ==> new_cells@[i] == self.successor_spec(
                        i % (self.cols as int),
                        i / (self.cols as int),
                    ),
            decreases n - cell,
        {
            new_cells.push(self.successor_cell(cell));
            cell = cell + 1;
        }
        let b = self.next_board(new_cells);
        proof {
            assert forall|x: int, y: int|
                0 <= x < self.cols && 0 <= y < self.rows implies b.alive(x, y)
                == self.successor_spec(x, y) by {
                let i = y * (self.cols as int) + x;
                assert(0 <= i < self.rows * self.cols) by (nonlinear_arith)
                    requires
                        i == y * (self.cols as int) + x,
                        0 <= x < self.cols,
                        0 <= y < self.rows,
                ;
                assert(i % (self.cols as int) == x) by (nonlinear_arith)
                    requires
                        i == y * (self.cols as int) + x,
                        0 <= x < self.cols,
                        0 <= y,
                ;
                assert(i / (self.cols as int) == y) by (nonlinear_arith)
                    requires
                        i == y * (self.cols as int) + x,
                        0 <= x < self.cols,
                        0 <= y,
                ;
            }
        }
        b
    }

    /// Returns a board of the same dimensions and rules in which every
    /// cell was drawn independently by an unbiased coin flip. Whatever
    /// the flips produce, the cell count is exactly `rows * cols`.
    /// `self` is not mutated.
    pub fn randomize(&self) -> (b: Board)
        requires
            self.wf(),
        ensures
            b.wf(),
            b.rows == self.rows,
            b.cols == self.cols,
            b.born@ == self.born@,
            b.survive@ == self.survive@,
            b.cells@.len() == self.len_spec(),
    {
        let n = self.len();
        let mut new_cells: Vec<bool> = Vec::new();
        while new_cells.len() < n
            invariant
                self.wf(),
                n == self.len_spec(),
                new_cells@.len() <= n,
            decreases n - new_cells@.len(),
        {
            new_cells.push(coin_flip());
        }
        self.next_board(new_cells)
    }

    /// An independent copy of this board: same cells, dimensions and
    /// (shared) rule tables. A stepping thread copies the snapshot out
    /// of the shared state and works on it privately.
    pub fn duplicate(&self) -> (b: Board)
        requires
            self.wf(),
        ensures
            b.wf(),
            b.cells@ == self.cells@,
            b.rows == self.rows,
            b.cols == self.cols,
            b.born@ == self.born@,
            b.survive@ == self.survive@,
    {
        let n = self.cells.len();
        let mut cells: Vec<bool> = Vec::new();
        while cells.len() < n
            invariant
                n == self.cells@.len(),
                cells@.len() <= n,
                forall|i: int| 0 <= i < cells@.len() ==> cells@[i] == self.cells@[i],
            decreases n - cells@.len(),
        {
            let i = cells.len();
            cells.push(self.cells[i]);
        }
        proof {
            assert(cells@ =~= self.cells@);
        }
        Board {
            cells,
            rows: self.rows,
            cols: self.cols,
            born: share_rules(&self.born),
            survive: share_rules(&self.survive),
        }
    }

    /// The width of the board, as its number of columns.
    pub fn width(&self) -> (w: usize)
        ensures
            w == self.cols,
    {
        self.cols
    }

    /// The height of the board, as its number of rows.
    pub fn height(&self) -> (h: usize)
        ensures
            h == self.rows,
    {
        self.rows
    }
}

/// Law: under the standard rules, a cell's next state follows the
/// classic birth/survival table — a live cell stays alive exactly when
/// it has 2 or 3 live neighbors, and a dead cell comes alive exactly
/// when it has 3. This holds for every cell, interior or not, since
/// off-grid neighbors already read as dead.
pub proof fn lemma_standard_rules_successor(b: Board, x: int, y: int)
    requires
        b.born@ == default_born(),
        b.survive@ == default_survive(),
    ensures
        b.successor_spec(x, y) == if b.alive(x, y) {
            b.live_neighbors(x, y) == 2 || b.live_neighbors(x, y) == 3
        } else {
            (b.live_neighbors(x, y) == 3)
        },
{
    let n = b.live_neighbors(x, y);
    assert(0 <= n <= 8);
    assert(default_born()[0] == 3usize);
    assert(default_survive()[0] == 2usize);
    assert(default_survive()[1] == 3usize);
    if n == 2 {
        assert(default_survive().contains(n as usize)) by {
            assert(default_survive()[0] == n as usize);
        }
    }
    if n == 3 {
        assert(default_survive().contains(n as usize)) by {
            assert(default_survive()[1] == n as usize);
        }
        assert(default_born().contains(n as usize)) by {
            assert(default_born()[0] == n as usize);
        }
    }
    if default_survive().contains(n as usize) {
        let j = choose|j: int| 0 <= j < default_survive().len() && default_survive()[j] == n as usize;
        assert(n == 2 || n == 3);
    }
    if default_born().contains(n as usize) {
        let j = choose|j: int| 0 <= j < default_born().len() && default_born()[j] == n as usize;
        assert(n == 3);
    }
}

/// Law: the boundary is closed. A position outside the grid is never
/// alive, so an edge or corner cell can only draw its neighbor count
/// from the positions that actually lie on the grid; for the corner
/// cell at (0, 0) those are exactly (1, 0), (0, 1) and (1, 1).
pub proof fn lemma_boundary_closed(b: Board, x: int, y: int)
    ensures
        !(0 <= x < b.cols && 0 <= y < b.rows) ==> !b.alive(x, y),
        b.live_neighbors(0, 0) == occupancy(b.alive(1, 0)) + occupancy(b.alive(0, 1)) + occupancy(
            b.alive(1, 1),
        ),
{
}

/// Law: no spontaneous generation. On a board with no live cell whose
/// birth rule does not list a count of 0 — the standard rules among
/// them — every successor cell is dead, whatever the board's size.
pub proof fn lemma_all_dead_stays_dead(b: Board, x: int, y: int)
    requires
        b.wf(),
        forall|i: int| 0 <= i < b.cells@.len() ==> !b.cells@[i],
        !b.born@.contains(0usize),
    ensures
        !b.successor_spec(x, y),
{
    assert forall|i: int, j: int| !b.alive(i, j) by {
        if 0 <= i < b.cols && 0 <= j < b.rows {
            assert(0 <= j * (b.cols as int) + i < b.rows * b.cols) by (nonlinear_arith)
                requires
                    0 <= i < b.cols,
                    0 <= j < b.rows,
            ;
        }
    }
    assert(b.live_neighbors(x, y) == 0);
}

/// Relies on Arc::clone: the returned handle refers to the same
/// immutable rule table, so it holds the same sequence of counts.
#[verifier::external_body]
fn share_rules(rules: &Arc<Vec<usize>>) -> (r: Arc<Vec<usize>>)
    ensures
        r@ == rules@,
{
    Arc::clone(rules)
}

/// Relies on rand::random: an unbiased coin flip drawn from the
/// thread-local generator; nothing is assumed about the value.
#[verifier::external_body]
fn coin_flip() -> bool {
    rand::random::<bool>()
}

/// Whether `rules` lists the neighbor count `n`.
fn rule_contains(rules: &Vec<usize>, n: usize) -> (r: bool)
    ensures
        r == rules@.contains(n),
{
    let mut i: usize = 0;
    while i < rules.len()
        invariant
            i <= rules@.len(),
            forall|j: int| 0 <= j < i ==> rules@[j] != n,
        decreases rules@.len() - i,
    {
        if rules[i] == n {
            proof {
                assert(rules@[i as int] == n);
            }
            return true;
        }
        i = i + 1;
    }
    false
}

} // verus!
