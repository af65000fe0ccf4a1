//! The toroidal grid of cells and the generation-transition rule.
//!
//! A grid is a rectangular matrix of boolean cell states whose dimensions are
//! fixed at creation. Indexing is toroidal: the neighbor to the "north" of
//! row 0 is the last row, and symmetrically for columns, so every cell has a
//! full eight neighbors.

use vstd::prelude::*;

verus! {

/// Wraps an integer offset onto the circular index range `[0, m)`.
///
/// This is the toroidal index rule: the result is non-negative for every
/// input, so an offset of `-1` from index `0` lands on `m - 1`.
pub open spec fn wrap(i: int, m: int) -> int {
    ((i % m) + m) % m
}

pub proof fn lemma_wrap_in_range(i: int, m: int)
    requires
        1 <= m,
        0 <= i < m,
    ensures
        wrap(i, m) == i,
{
    assert(((i % m) + m) % m == i) by (nonlinear_arith)
        requires
            1 <= m,
            0 <= i < m,
    ;
}

pub proof fn lemma_wrap_below(m: int)
    requires
        1 <= m,
    ensures
        wrap(-1, m) == m - 1,
{
    assert(((-1 % m) + m) % m == m - 1) by (nonlinear_arith)
        requires
            1 <= m,
    ;
}

pub proof fn lemma_wrap_above(m: int)
    requires
        1 <= m,
    ensures
        wrap(m, m) == 0,
{
    assert(((m % m) + m) % m == 0) by (nonlinear_arith)
        requires
            1 <= m,
    ;
}

/// The width that a well-formed grid's rows share.
pub open spec fn grid_width(g: Seq<Seq<bool>>) -> int {
    g[0].len() as int
}

/// A well-formed grid: at least one row, at least one column, and every row
/// of the same width.
pub open spec fn grid_wf(g: Seq<Seq<bool>>) -> bool {
    &&& g.len() >= 1
    &&& grid_width(g) >= 1
    &&& forall|r: int| 0 <= r < g.len() ==> (#[trigger] g[r]).len() == grid_width(g)
}

/// The cell at toroidal coordinates `(r, c)`: both indices are wrapped onto
/// the grid, so any integer offsets address some cell.
pub open spec fn cell_at(g: Seq<Seq<bool>>, r: int, c: int) -> bool {
    g[wrap(r, g.len() as int)][wrap(c, grid_width(g))]
}

/// `1` if the cell at toroidal coordinates `(r, c)` is alive, else `0`.
pub open spec fn live_at(g: Seq<Seq<bool>>, r: int, c: int) -> int {
    if cell_at(g, r, c) {
        1
    } else {
        0
    }
}

/// How many of the eight toroidal neighbors of `(r, c)` are alive.
pub open spec fn neighbor_count(g: Seq<Seq<bool>>, r: int, c: int) -> int {
    live_at(g, r - 1, c - 1) + live_at(g, r - 1, c) + live_at(g, r - 1, c + 1) + live_at(
        g,
        r,
        c - 1,
    ) + live_at(g, r, c + 1) + live_at(g, r + 1, c - 1) + live_at(g, r + 1, c) + live_at(
        g,
        r + 1,
        c + 1,
    )
}

/// The standard Life rule (B3/S23) for one cell of the next generation:
/// a live cell survives with two or three live neighbors, a dead cell is
/// born with exactly three.
pub open spec fn next_cell(g: Seq<Seq<bool>>, r: int, c: int) -> bool {
    if g[r][c] {
        neighbor_count(g, r, c) == 2 || neighbor_count(g, r, c) == 3
    } else {
        neighbor_count(g, r, c) == 3
    }
}

/// The next generation: every cell of the result is the Life rule applied to
/// the previous generation's neighbor counts, one consistent snapshot.
pub open spec fn next_grid(g: Seq<Seq<bool>>) -> Seq<Seq<bool>> {
    Seq::new(g.len(), |r: int| Seq::new(grid_width(g) as nat, |c: int| next_cell(g, r, c)))
}

/// No neighbor count leaves `[0, 8]`: it is a sum of eight indicators.
pub proof fn lemma_neighbor_count_range(g: Seq<Seq<bool>>, r: int, c: int)
    ensures
        0 <= neighbor_count(g, r, c) <= 8,
{
}

/// Toroidal wraparound across the rows: a live cell in row 0 is counted as a
/// neighbor of the cell of the last row in the same or an adjacent column.
pub proof fn lemma_row_wraparound(g: Seq<Seq<bool>>, c: int, c2: int)
    requires
        grid_wf(g),
        0 <= c < grid_width(g),
        g[0][c],
        c2 == c || c2 == wrap(c - 1, grid_width(g)) || c2 == wrap(c + 1, grid_width(g)),
    ensures
        0 <= c2 < grid_width(g),
        neighbor_count(g, g.len() - 1, c2) >= 1,
{
    let h = g.len() as int;
    let w = grid_width(g);
    lemma_wrap_above(h);
    if c2 == c {
        lemma_wrap_in_range(c, w);
        assert(cell_at(g, h - 1 + 1, c2) == g[0][c]);
    } else if c2 == wrap(c - 1, w) {
        if c == 0 {
            lemma_wrap_below(w);
            lemma_wrap_above(w);
            assert(c2 == w - 1);
            assert(cell_at(g, h - 1 + 1, c2 + 1) == g[0][c]);
        } else {
            lemma_wrap_in_range(c - 1, w);
            lemma_wrap_in_range(c, w);
            assert(c2 == c - 1);
            assert(cell_at(g, h - 1 + 1, c2 + 1) == g[0][c]);
        }
    } else {
        if c == w - 1 {
            lemma_wrap_above(w);
            lemma_wrap_below(w);
            assert(c2 == 0);
            assert(cell_at(g, h - 1 + 1, c2 - 1) == g[0][c]);
        } else {
            lemma_wrap_in_range(c + 1, w);
            lemma_wrap_in_range(c, w);
            assert(c2 == c + 1);
            assert(cell_at(g, h - 1 + 1, c2 - 1) == g[0][c]);
        }
    }
}

/// Toroidal wraparound across the columns: a live cell in column 0 is counted
/// as a neighbor of the cell of the last column in the same or an adjacent row.
pub proof fn lemma_col_wraparound(g: Seq<Seq<bool>>, r: int, r2: int)
    requires
        grid_wf(g),
        0 <= r < g.len(),
        g[r][0],
        r2 == r || r2 == wrap(r - 1, g.len() as int) || r2 == wrap(r + 1, g.len() as int),
    ensures
        0 <= r2 < g.len(),
        neighbor_count(g, r2, grid_width(g) - 1) >= 1,
{
    let h = g.len() as int;
    let w = grid_width(g);
    lemma_wrap_above(w);
    if r2 == r {
        lemma_wrap_in_range(r, h);
        assert(cell_at(g, r2, w - 1 + 1) == g[r][0]);
    } else if r2 == wrap(r - 1, h) {
        if r == 0 {
            lemma_wrap_below(h);
            lemma_wrap_above(h);
            assert(r2 == h - 1);
            assert(cell_at(g, r2 + 1, w - 1 + 1) == g[r][0]);
        } else {
            lemma_wrap_in_range(r - 1, h);
            lemma_wrap_in_range(r, h);
            assert(r2 == r - 1);
            assert(cell_at(g, r2 + 1, w - 1 + 1) == g[r][0]);
        }
    } else {
        if r == h - 1 {
            lemma_wrap_above(h);
            lemma_wrap_below(h);
            assert(r2 == 0);
            assert(cell_at(g, r2 - 1, w - 1 + 1) == g[r][0]);
        } else {
            lemma_wrap_in_range(r + 1, h);
            lemma_wrap_in_range(r, h);
            assert(r2 == r + 1);
            assert(cell_at(g, r2 - 1, w - 1 + 1) == g[r][0]);
        }
    }
}

/// One Game of Life session's grid: a toroidal boolean cell matrix whose
/// dimensions are fixed at creation.
pub struct Game {
    width: u16,
    height: u16,
    state: Vec<Vec<bool>>,
}

impl View for Game {
    type V = Seq<Seq<bool>>;

    closed spec fn view(&self) -> Seq<Seq<bool>> {
        self.state@.map_values(|row: Vec<bool>| row@)
    }
}

impl Game {
    /// The grid's width in cells.
    pub closed spec fn spec_width(&self) -> u16 {
        self.width
    }

    /// The grid's height in cells.
    pub closed spec fn spec_height(&self) -> u16 {
        self.height
    }

    /// Well-formedness: the dimensions are at least one cell each, there are
    /// exactly `height` rows, and every row holds exactly `width` cells.
    pub open spec fn wf(&self) -> bool {
        &&& self.spec_width() >= 1
        &&& self.spec_height() >= 1
        &&& self@.len() == self.spec_height() as int
        &&& forall|r: int|
            0 <= r < self@.len() ==> (#[trigger] self@[r]).len() == self.spec_width() as int
    }

    /// A well-formed `Game` carries a well-formed grid of its dimensions.
    pub proof fn lemma_wf_grid(&self)
        requires
            self.wf(),
        ensures
            grid_wf(self@),
            grid_width(self@) == self.spec_width() as int,
            self@.len() == self.spec_height() as int,
    {
        assert(self@[0].len() == self.spec_width() as int);
    }

    pub fn width(&self) -> (w: u16)
        ensures
            w == self.spec_width(),
    {
        self.width
    }

    pub fn height(&self) -> (h: u16)
        ensures
            h == self.spec_height(),
    {
        self.height
    }

    /// The cell at (row, col), without wrapping.
    pub fn get(&self, row: usize, col: usize) -> (b: bool)
        requires
            self.wf(),
            row < self.spec_height() as usize,
            col < self.spec_width() as usize,
        ensures
            b == self@[row as int][col as int],
    {
        proof {
            assert(self@.len() == self.state@.len());
            assert(self@[row as int] == self.state@[row as int]@);
            assert(self@[row as int].len() == self.spec_width() as int);
        }
        self.state[row][col]
    }

    /// Sets the cell at (row, col), leaving every other cell unchanged.
    pub fn set_cell(&mut self, row: usize, col: usize, alive: bool)
        requires
            old(self).wf(),
            row < old(self).spec_height() as usize,
            col < old(self).spec_width() as usize,
        ensures
            final(self).wf(),
            final(self).spec_width() == old(self).spec_width(),
            final(self).spec_height() == old(self).spec_height(),
            final(self)@ == old(self)@.update(
                row as int,
                old(self)@[row as int].update(col as int, alive),
            ),
    {
        proof {
            assert(self@.len() == self.state@.len());
            assert(self@[row as int] == self.state@[row as int]@);
            assert(self@[row as int].len() == self.spec_width() as int);
        }
        self.state[row][col] = alive;
        proof {
            assert(self@ =~~= old(self)@.update(
                row as int,
                old(self)@[row as int].update(col as int, alive),
            ));
        }
    }

    /// A grid of the given dimensions with every cell set to `alive`:
    /// the all-dead and all-alive seed policies.
    pub fn new_filled(width: u16, height: u16, alive: bool) -> (g: Game)
        requires
            width >= 1,
            height >= 1,
        ensures
            g.wf(),
            g.spec_width() == width,
            g.spec_height() == height,
            forall|r: int, c: int|
                0 <= r < height && 0 <= c < width ==> g@[r][c] == alive,
    {
        let mut state: Vec<Vec<bool>> = Vec::new();
        let mut r: usize = 0;
        while r < height as usize
            invariant
                r <= height as usize,
                state@.len() == r as int,
                forall|i: int|
                    0 <= i < r as int ==> (#[trigger] state@[i])@ =~= Seq::new(
                        width as nat,
                        |c: int| alive,
                    ),
            decreases height as usize - r,
        {
            let mut row: Vec<bool> = Vec::new();
            let mut c: usize = 0;
            while c < width as usize
                invariant
                    c <= width as usize,
                    row@.len() == c as int,
                    forall|j: int| 0 <= j < c as int ==> row@[j] == alive,
                decreases width as usize - c,
            {
                row.push(alive);
                c += 1;
            }
            proof {
                assert(row@ =~= Seq::new(width as nat, |c: int| alive));
            }
            state.push(row);
            r += 1;
        }
        let g = Game { width, height, state };
        proof {
            assert(g@.len() == height as int);
            assert(forall|i: int|
                0 <= i < height as int ==> (#[trigger] g@[i]).len() == width as int);
        }
        g
    }

    /// Builds a grid from explicit rows. Returns `Some` exactly when the rows
    /// form a well-formed grid whose dimensions fit the terminal's cell
    /// addressing: at least one row and one column, every row of the same
    /// width, and neither dimension above `u16::MAX`.
    pub fn from_rows(rows: Vec<Vec<bool>>) -> (g: Option<Game>)
        ensures
            match g {
                Some(game) => {
                    &&& game.wf()
                    &&& game@ == rows_view(&rows)
                    &&& game.spec_height() as int == rows@.len()
                    &&& game.spec_width() as int == rows@[0]@.len()
                    &&& rows_fit(&rows)
                },
                None => !rows_fit(&rows),
            },
    {
        if rows.len() == 0 || rows.len() > u16::MAX as usize {
            return None;
        }
        let width = rows[0].len();
        if width == 0 || width > u16::MAX as usize {
            return None;
        }
        let mut r: usize = 1;
        while r < rows.len()
            invariant
                1 <= r as int <= rows@.len(),
                width as int == rows@[0]@.len(),
                forall|i: int| 0 <= i < r as int ==> (#[trigger] rows@[i])@.len() == width as int,
            decreases rows@.len() - r as int,
        {
            if rows[r].len() != width {
                return None;
            }
            r += 1;
        }
        let g = Game { width: width as u16, height: rows.len() as u16, state: rows };
        proof {
            assert(g@.len() == g.state@.len());
            assert(forall|i: int|
                0 <= i < g@.len() ==> (#[trigger] g@[i]).len() == width as int);
        }
        Some(g)
    }
}

/// The wrapped index one step below `i` on the circular range `[0, m)`.
fn prev_index(i: usize, m: usize) -> (r: usize)
    requires
        1 <= m,
        i < m,
    ensures
        r < m,
        r as int == wrap(i as int - 1, m as int),
{
    if i == 0 {
        proof {
            lemma_wrap_below(m as int);
        }
        m - 1
    } else {
        proof {
            lemma_wrap_in_range(i as int - 1, m as int);
        }
        i - 1
    }
}

/// The wrapped index one step above `i` on the circular range `[0, m)`.
fn next_index(i: usize, m: usize) -> (r: usize)
    requires
        1 <= m,
        i < m,
    ensures
        r < m,
        r as int == wrap(i as int + 1, m as int),
{
    if i == m - 1 {
        proof {
            lemma_wrap_above(m as int);
        }
        0
    } else {
        proof {
            lemma_wrap_in_range(i as int + 1, m as int);
        }
        i + 1
    }
}

impl Game {
    /// Counts the live cells among the eight toroidal neighbors of
    /// (row_i, col_i); the count never leaves `[0, 8]`.
    pub fn get_neighbours(&self, row_i: usize, col_i: usize) -> (n: usize)
        requires
            self.wf(),
            row_i < self.spec_height() as usize,
            col_i < self.spec_width() as usize,
        ensures
            n == neighbor_count(self@, row_i as int, col_i as int),
            n <= 8,
    {
        proof {
            self.lemma_wf_grid();
        }
        let h = self.height as usize;
        let w = self.width as usize;
        let rm1 = prev_index(row_i, h);
        let rp1 = next_index(row_i, h);
        let cm1 = prev_index(col_i, w);
        let cp1 = next_index(col_i, w);
        proof {
            lemma_wrap_in_range(row_i as int, h as int);
            lemma_wrap_in_range(col_i as int, w as int);
        }
        let mut n: usize = 0;
        if self.get(rm1, cm1) {
            n += 1;
        }
        if self.get(rm1, col_i) {
            n += 1;
        }
        if self.get(rm1, cp1) {
            n += 1;
        }
        if self.get(row_i, cm1) {
            n += 1;
        }
        if self.get(row_i, cp1) {
            n += 1;
        }
        if self.get(rp1, cm1) {
            n += 1;
        }
        if self.get(rp1, col_i) {
            n += 1;
        }
        if self.get(rp1, cp1) {
            n += 1;
        }
        n
    }

    /// One generation step of the Life rule (B3/S23), computed for every
    /// cell against the snapshot held in `self`. Taking the grid by shared
    /// reference keeps the operation pure: the input grid is untouched.
    pub fn evolve(&self) -> (next: Game)
        requires
            self.wf(),
        ensures
            next.wf(),
            next.spec_width() == self.spec_width(),
            next.spec_height() == self.spec_height(),
            next@ == next_grid(self@),
    {
        proof {
            self.lemma_wf_grid();
        }
        let h = self.height as usize;
        let w = self.width as usize;
        let mut new_state: Vec<Vec<bool>> = Vec::new();
        let mut r: usize = 0;
        while r < h
            invariant
                self.wf(),
                h == self.spec_height() as usize,
                w == self.spec_width() as usize,
                r <= h,
                new_state@.len() == r as int,
                forall|i: int|
                    0 <= i < r as int ==> (#[trigger] new_state@[i])@ == next_grid(self@)[i],
            decreases h - r,
        {
            let mut new_row: Vec<bool> = Vec::new();
            let mut c: usize = 0;
            while c < w
                invariant
                    self.wf(),
                    h == self.spec_height() as usize,
                    w == self.spec_width() as usize,
                    r < h,
                    c <= w,
                    new_row@.len() == c as int,
                    forall|j: int|
                        0 <= j < c as int ==> new_row@[j] == next_cell(self@, r as int, j),
                decreases w - c,
            {
                let neighbours = self.get_neighbours(r, c);
                let current = self.get(r, c);
                let new_cell = if current {
                    neighbours == 2 || neighbours == 3
                } else {
                    neighbours == 3
                };
                new_row.push(new_cell);
                c += 1;
            }
            proof {
                self.lemma_wf_grid();
                assert(new_row@ =~= next_grid(self@)[r as int]);
            }
            new_state.push(new_row);
            r += 1;
        }
        let g = Game { width: self.width, height: self.height, state: new_state };
        proof {
            assert(g@.len() == new_state@.len());
            assert(g@ =~= next_grid(self@));
            assert(forall|i: int|
                0 <= i < g@.len() ==> (#[trigger] g@[i]).len() == self.spec_width() as int);
        }
        g
    }
}

/// The fraction of `u64` values below this threshold is the seeding density:
/// a uniform draw falls under it with probability 0.44 (the threshold is
/// 0.44 of 2^64, rounded down).
pub const ALIVE_THRESHOLD: u64 = 8116567392432202711;

/// Relies on `rand::random::<u64>`: one draw from the thread-local generator,
/// uniform over the `u64` range. The result depends on the generator's state,
/// so nothing is promised of it.
#[verifier::external_body]
fn random_u64() -> (r: u64) {
    rand::random::<u64>()
}

impl Game {
    /// A grid of the given dimensions seeded at random: each cell is alive
    /// independently with the default density. Which cells come out alive is
    /// up to the random source; the dimensions and well-formedness are not.
    pub fn new_random(width: u16, height: u16) -> (g: Game)
        requires
            width >= 1,
            height >= 1,
        ensures
            g.wf(),
            g.spec_width() == width,
            g.spec_height() == height,
    {
        let mut state: Vec<Vec<bool>> = Vec::new();
        let mut r: usize = 0;
        while r < height as usize
            invariant
                r <= height as usize,
                state@.len() == r as int,
                forall|i: int|
                    0 <= i < r as int ==> (#[trigger] state@[i])@.len() == width as int,
            decreases height as usize - r,
        {
            let mut row: Vec<bool> = Vec::new();
            let mut c: usize = 0;
            while c < width as usize
                invariant
                    c <= width as usize,
                    row@.len() == c as int,
                decreases width as usize - c,
            {
                row.push(random_u64() < ALIVE_THRESHOLD);
                c += 1;
            }
            state.push(row);
            r += 1;
        }
        let g = Game { width, height, state };
        proof {
            assert(g@.len() == height as int);
            assert(forall|i: int|
                0 <= i < height as int ==> (#[trigger] g@[i]).len() == width as int);
        }
        g
    }
}

/// Rule fidelity, cell by cell: in the next generation a live cell survives
/// exactly with two or three live neighbors, and a dead cell is born exactly
/// with three — each judged against the previous generation's counts.
pub proof fn lemma_rule_table(g: Seq<Seq<bool>>, r: int, c: int)
    requires
        grid_wf(g),
        0 <= r < g.len(),
        0 <= c < grid_width(g),
    ensures
        g[r][c] ==> (next_grid(g)[r][c] <==> (neighbor_count(g, r, c) == 2 || neighbor_count(
            g,
            r,
            c,
        ) == 3)),
        !g[r][c] ==> (next_grid(g)[r][c] <==> neighbor_count(g, r, c) == 3),
{
}

/// Evolution is a function of the grid's cell values alone: two value-equal
/// grids, however they were constructed, evolve to value-equal generations.
pub proof fn lemma_evolve_deterministic(a: Game, b: Game)
    requires
        a@ == b@,
    ensures
        next_grid(a@) == next_grid(b@),
{
}

/// The rows of a cell matrix as a mathematical grid.
pub open spec fn rows_view(rows: &Vec<Vec<bool>>) -> Seq<Seq<bool>> {
    rows@.map_values(|row: Vec<bool>| row@)
}

/// Whether explicit rows form a well-formed grid with both dimensions in
/// `[1, u16::MAX]`.
pub open spec fn rows_fit(rows: &Vec<Vec<bool>>) -> bool {
    &&& 1 <= rows@.len() <= u16::MAX as int
    &&& 1 <= rows@[0]@.len() <= u16::MAX as int
    &&& forall|i: int| 0 <= i < rows@.len() ==> (#[trigger] rows@[i])@.len() == rows@[0]@.len()
}

} // verus!
