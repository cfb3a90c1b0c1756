//! The cell grid and the Game-of-Life generation rule.
use vstd::prelude::*;

verus! {

use crate::GRID_SIZE;

/// One cell of the grid: an alive flag, plus a marker for cells that were
/// stamped by the chaos feature rather than placed by hand.
#[derive(Clone, Copy, PartialEq, Eq, Structural, Debug)]
pub struct Cell {
    pub alive: bool,
    pub chaotic: bool,
}

/// A dead cell carrying no chaos marker.
pub open spec fn dead_cell() -> Cell {
    Cell { alive: false, chaotic: false }
}

/// A grid is well formed when it is square: every row is as long as the
/// column of rows.
pub open spec fn grid_wf(g: Seq<Seq<Cell>>) -> bool {
    forall|r: int| 0 <= r < g.len() ==> (#[trigger] g[r]).len() == g.len()
}

/// Whether the cell at `(r, c)` is inside the grid and alive; positions off
/// the grid count as dead, so the border is not wrapped around.
pub open spec fn alive_at(g: Seq<Seq<Cell>>, r: int, c: int) -> bool {
    0 <= r < g.len() && 0 <= c < g[r].len() && g[r][c].alive
}

/// One where the condition holds, zero where it does not.
pub open spec fn one_if(b: bool) -> int {
    if b {
        1
    } else {
        0
    }
}

/// How many of the eight neighbours of `(r, c)` are alive.
pub open spec fn live_neighbors(g: Seq<Seq<Cell>>, r: int, c: int) -> int {
    one_if(alive_at(g, r - 1, c - 1)) + one_if(alive_at(g, r - 1, c)) + one_if(
        alive_at(g, r - 1, c + 1),
    ) + one_if(alive_at(g, r, c - 1)) + one_if(alive_at(g, r, c + 1)) + one_if(
        alive_at(g, r + 1, c - 1),
    ) + one_if(alive_at(g, r + 1, c)) + one_if(alive_at(g, r + 1, c + 1))
}

/// The generation rule for one cell: an alive cell survives on two or three
/// alive neighbours; a dead cell is born on exactly three; anything else dies.
pub open spec fn next_alive(g: Seq<Seq<Cell>>, r: int, c: int) -> bool {
    if g[r][c].alive {
        live_neighbors(g, r, c) == 2 || live_neighbors(g, r, c) == 3
    } else {
        live_neighbors(g, r, c) == 3
    }
}

/// The cell at `(r, c)` after one generation: the rule decides the alive
/// flag, the chaos marker is kept.
pub open spec fn cell_next(g: Seq<Seq<Cell>>, r: int, c: int) -> Cell {
    Cell { alive: next_alive(g, r, c), chaotic: g[r][c].chaotic }
}

/// The whole grid after one generation, every cell judged against the same
/// prior snapshot.
pub open spec fn step(g: Seq<Seq<Cell>>) -> Seq<Seq<Cell>> {
    Seq::new(g.len(), |r: int| Seq::new(g.len(), |c: int| cell_next(g, r, c)))
}

/// Whether stamping `coords` with its anchor at column `start_x`, row
/// `start_y` touches the position `(r, c)`: some offset pair, row first,
/// lands there.
pub open spec fn pattern_hits(
    coords: Seq<(usize, usize)>,
    start_x: int,
    start_y: int,
    r: int,
    c: int,
) -> bool {
    exists|k: int|
        0 <= k < coords.len() && (#[trigger] coords[k]).0 + start_y == r && coords[k].1 + start_x
            == c
}

/// The cell at `(r, c)` after stamping: alive with the given chaos marker
/// where the pattern lands, untouched everywhere else.
pub open spec fn stamp_cell(
    g: Seq<Seq<Cell>>,
    coords: Seq<(usize, usize)>,
    start_x: int,
    start_y: int,
    chaotic: bool,
    r: int,
    c: int,
) -> Cell {
    if pattern_hits(coords, start_x, start_y, r, c) {
        Cell { alive: true, chaotic }
    } else {
        g[r][c]
    }
}

/// The whole grid after stamping `coords` at the anchor: only the offsets
/// that land inside the grid have any effect.
pub open spec fn stamped(
    g: Seq<Seq<Cell>>,
    coords: Seq<(usize, usize)>,
    start_x: int,
    start_y: int,
    chaotic: bool,
) -> Seq<Seq<Cell>> {
    Seq::new(
        g.len(),
        |r: int| Seq::new(g[r].len(), |c: int| stamp_cell(g, coords, start_x, start_y, chaotic, r, c)),
    )
}

/// The grid after flipping the alive flag of the cell in column `x`, row
/// `y`, with its chaos marker kept.
pub open spec fn toggled(g: Seq<Seq<Cell>>, x: int, y: int) -> Seq<Seq<Cell>> {
    g.update(y, g[y].update(x, Cell { alive: !g[y][x].alive, chaotic: g[y][x].chaotic }))
}

/// Flipping the same cell twice gives back the grid it started from.
pub proof fn lemma_toggle_twice(g: Seq<Seq<Cell>>, x: int, y: int)
    requires
        0 <= y < g.len(),
        0 <= x < g[y].len(),
    ensures
        toggled(toggled(g, x, y), x, y) == g,
{
    let g1 = toggled(g, x, y);
    let g2 = toggled(g1, x, y);
    assert(g1[y][x] == (Cell { alive: !g[y][x].alive, chaotic: g[y][x].chaotic }));
    assert(g2[y] =~= g[y]);
    assert(g2 =~~= g);
}

/// A grid whose alive cells are exactly the two-by-two block of cells
/// anchored at row `i`, column `j`.
pub open spec fn block_only(g: Seq<Seq<Cell>>, i: int, j: int) -> bool {
    forall|r: int, c: int|
        0 <= r < g.len() && 0 <= c < g[r].len() ==> ((#[trigger] g[r][c]).alive <==> (i <= r <= i
            + 1 && j <= c <= j + 1))
}

/// In a block-only grid a position is alive exactly when it lies in the
/// block, wherever the position is.
proof fn lemma_block_alive_at(g: Seq<Seq<Cell>>, i: int, j: int, x: int, y: int)
    requires
        grid_wf(g),
        0 <= i,
        i + 1 < g.len(),
        0 <= j,
        j + 1 < g.len(),
        block_only(g, i, j),
    ensures
        alive_at(g, x, y) <==> (i <= x <= i + 1 && j <= y <= j + 1),
{
    if 0 <= x < g.len() && 0 <= y < g[x].len() {
        assert(g[x][y].alive <==> (i <= x <= i + 1 && j <= y <= j + 1));
    }
}

/// A two-by-two block is a still life: one generation leaves the grid
/// exactly as it was.
pub proof fn lemma_block_still_life(g: Seq<Seq<Cell>>, i: int, j: int)
    requires
        grid_wf(g),
        0 <= i,
        i + 1 < g.len(),
        0 <= j,
        j + 1 < g.len(),
        block_only(g, i, j),
    ensures
        step(g) == g,
{
    assert forall|r: int| 0 <= r < g.len() implies step(g)[r] =~= g[r] by {
        assert forall|c: int| 0 <= c < g.len() implies step(g)[r][c] == g[r][c] by {
            lemma_block_alive_at(g, i, j, r - 1, c - 1);
            lemma_block_alive_at(g, i, j, r - 1, c);
            lemma_block_alive_at(g, i, j, r - 1, c + 1);
            lemma_block_alive_at(g, i, j, r, c - 1);
            lemma_block_alive_at(g, i, j, r, c + 1);
            lemma_block_alive_at(g, i, j, r + 1, c - 1);
            lemma_block_alive_at(g, i, j, r + 1, c);
            lemma_block_alive_at(g, i, j, r + 1, c + 1);
            lemma_block_alive_at(g, i, j, r, c);
            assert(step(g)[r][c] == cell_next(g, r, c));
        }
    }
    assert(step(g) =~~= g);
}

/// The grid after `n` generations.
pub open spec fn step_n(g: Seq<Seq<Cell>>, n: nat) -> Seq<Seq<Cell>>
    decreases n,
{
    if n == 0 {
        g
    } else {
        step(step_n(g, (n - 1) as nat))
    }
}

/// A two-by-two block is stable indefinitely: any number of generations
/// leaves the grid exactly as it was.
pub proof fn lemma_block_stable_forever(g: Seq<Seq<Cell>>, i: int, j: int, n: nat)
    requires
        grid_wf(g),
        0 <= i,
        i + 1 < g.len(),
        0 <= j,
        j + 1 < g.len(),
        block_only(g, i, j),
    ensures
        step_n(g, n) == g,
    decreases n,
{
    if n > 0 {
        lemma_block_stable_forever(g, i, j, (n - 1) as nat);
        lemma_block_still_life(g, i, j);
    }
}

/// A grid whose alive cells are exactly the three cells of row `r0` whose
/// columns are `c0 - 1`, `c0` and `c0 + 1`: a horizontal blinker.
pub open spec fn row_trio_only(g: Seq<Seq<Cell>>, r0: int, c0: int) -> bool {
    forall|r: int, c: int|
        0 <= r < g.len() && 0 <= c < g[r].len() ==> ((#[trigger] g[r][c]).alive <==> (r == r0 && c0
            - 1 <= c <= c0 + 1))
}

/// A grid whose alive cells are exactly the three cells of column `c0`
/// whose rows are `r0 - 1`, `r0` and `r0 + 1`: a vertical blinker.
pub open spec fn col_trio_only(g: Seq<Seq<Cell>>, r0: int, c0: int) -> bool {
    forall|r: int, c: int|
        0 <= r < g.len() && 0 <= c < g[r].len() ==> ((#[trigger] g[r][c]).alive <==> (c == c0 && r0
            - 1 <= r <= r0 + 1))
}

/// In a horizontal-blinker grid a position is alive exactly when it lies on
/// the trio, wherever the position is.
proof fn lemma_row_trio_alive_at(g: Seq<Seq<Cell>>, r0: int, c0: int, x: int, y: int)
    requires
        grid_wf(g),
        0 <= r0 < g.len(),
        1 <= c0,
        c0 + 1 < g.len(),
        row_trio_only(g, r0, c0),
    ensures
        alive_at(g, x, y) <==> (x == r0 && c0 - 1 <= y <= c0 + 1),
{
    if 0 <= x < g.len() && 0 <= y < g[x].len() {
        assert(g[x][y].alive <==> (x == r0 && c0 - 1 <= y <= c0 + 1));
    }
}

/// In a vertical-blinker grid a position is alive exactly when it lies on
/// the trio, wherever the position is.
proof fn lemma_col_trio_alive_at(g: Seq<Seq<Cell>>, r0: int, c0: int, x: int, y: int)
    requires
        grid_wf(g),
        1 <= r0,
        r0 + 1 < g.len(),
        0 <= c0 < g.len(),
        col_trio_only(g, r0, c0),
    ensures
        alive_at(g, x, y) <==> (y == c0 && r0 - 1 <= x <= r0 + 1),
{
    if 0 <= x < g.len() && 0 <= y < g[x].len() {
        assert(g[x][y].alive <==> (y == c0 && r0 - 1 <= x <= r0 + 1));
    }
}

/// One generation turns a horizontal blinker into the vertical one with the
/// same centre.
pub proof fn lemma_blinker_flips(g: Seq<Seq<Cell>>, r0: int, c0: int)
    requires
        grid_wf(g),
        1 <= r0,
        r0 + 1 < g.len(),
        1 <= c0,
        c0 + 1 < g.len(),
        row_trio_only(g, r0, c0),
    ensures
        col_trio_only(step(g), r0, c0),
{
    assert forall|r: int, c: int|
        0 <= r < step(g).len() && 0 <= c < step(g)[r].len() implies ((#[trigger] step(
        g,
    )[r][c]).alive <==> (c == c0 && r0 - 1 <= r <= r0 + 1)) by {
        lemma_row_trio_alive_at(g, r0, c0, r - 1, c - 1);
        lemma_row_trio_alive_at(g, r0, c0, r - 1, c);
        lemma_row_trio_alive_at(g, r0, c0, r - 1, c + 1);
        lemma_row_trio_alive_at(g, r0, c0, r, c - 1);
        lemma_row_trio_alive_at(g, r0, c0, r, c + 1);
        lemma_row_trio_alive_at(g, r0, c0, r + 1, c - 1);
        lemma_row_trio_alive_at(g, r0, c0, r + 1, c);
        lemma_row_trio_alive_at(g, r0, c0, r + 1, c + 1);
        lemma_row_trio_alive_at(g, r0, c0, r, c);
        assert(step(g)[r][c] == cell_next(g, r, c));
    }
}

/// One generation turns a vertical blinker into the horizontal one with the
/// same centre.
pub proof fn lemma_blinker_flips_back(g: Seq<Seq<Cell>>, r0: int, c0: int)
    requires
        grid_wf(g),
        1 <= r0,
        r0 + 1 < g.len(),
        1 <= c0,
        c0 + 1 < g.len(),
        col_trio_only(g, r0, c0),
    ensures
        row_trio_only(step(g), r0, c0),
{
    assert forall|r: int, c: int|
        0 <= r < step(g).len() && 0 <= c < step(g)[r].len() implies ((#[trigger] step(
        g,
    )[r][c]).alive <==> (r == r0 && c0 - 1 <= c <= c0 + 1)) by {
        lemma_col_trio_alive_at(g, r0, c0, r - 1, c - 1);
        lemma_col_trio_alive_at(g, r0, c0, r - 1, c);
        lemma_col_trio_alive_at(g, r0, c0, r - 1, c + 1);
        lemma_col_trio_alive_at(g, r0, c0, r, c - 1);
        lemma_col_trio_alive_at(g, r0, c0, r, c + 1);
        lemma_col_trio_alive_at(g, r0, c0, r + 1, c - 1);
        lemma_col_trio_alive_at(g, r0, c0, r + 1, c);
        lemma_col_trio_alive_at(g, r0, c0, r + 1, c + 1);
        lemma_col_trio_alive_at(g, r0, c0, r, c);
        assert(step(g)[r][c] == cell_next(g, r, c));
    }
}

/// A blinker oscillates with period two: two generations give back exactly
/// the grid it started from, while one generation does not.
pub proof fn lemma_blinker_period_two(g: Seq<Seq<Cell>>, r0: int, c0: int)
    requires
        grid_wf(g),
        1 <= r0,
        r0 + 1 < g.len(),
        1 <= c0,
        c0 + 1 < g.len(),
        row_trio_only(g, r0, c0),
    ensures
        step(step(g)) == g,
        step(g) != g,
{
    let g1 = step(g);
    let g2 = step(g1);
    lemma_blinker_flips(g, r0, c0);
    lemma_blinker_flips_back(g1, r0, c0);
    assert forall|r: int| 0 <= r < g.len() implies g2[r] =~= g[r] by {
        assert forall|c: int| 0 <= c < g.len() implies g2[r][c] == g[r][c] by {
            assert(g2[r][c] == cell_next(g1, r, c));
            assert(g1[r][c] == cell_next(g, r, c));
            assert(g2[r][c].chaotic == g[r][c].chaotic);
            assert(g2[r][c].alive <==> (r == r0 && c0 - 1 <= c <= c0 + 1));
            assert(g[r][c].alive <==> (r == r0 && c0 - 1 <= c <= c0 + 1));
        }
    }
    assert(g2 =~~= g);
    assert(g1[r0 - 1][c0].alive);
    assert(!g[r0 - 1][c0].alive);
}

/// Taking one more offset into account hits exactly the old positions plus
/// the one the new offset lands on.
proof fn lemma_hits_extend(coords: Seq<(usize, usize)>, k: int, sx: int, sy: int, r: int, c: int)
    requires
        0 <= k < coords.len(),
    ensures
        pattern_hits(coords.take(k + 1), sx, sy, r, c) <==> (pattern_hits(
            coords.take(k),
            sx,
            sy,
            r,
            c,
        ) || (coords[k].0 + sy == r && coords[k].1 + sx == c)),
{
    let pre = coords.take(k);
    let ext = coords.take(k + 1);
    if pattern_hits(ext, sx, sy, r, c) {
        let j = choose|j: int|
            0 <= j < ext.len() && (#[trigger] ext[j]).0 + sy == r && ext[j].1 + sx == c;
        assert(ext[j] == coords[j]);
        if j < k {
            assert(pre[j] == coords[j]);
            assert(pattern_hits(pre, sx, sy, r, c));
        }
    }
    if pattern_hits(pre, sx, sy, r, c) {
        let j = choose|j: int|
            0 <= j < pre.len() && (#[trigger] pre[j]).0 + sy == r && pre[j].1 + sx == c;
        assert(ext[j] == pre[j]);
        assert(pattern_hits(ext, sx, sy, r, c));
    }
    if coords[k].0 + sy == r && coords[k].1 + sx == c {
        assert(ext[k] == coords[k]);
        assert(pattern_hits(ext, sx, sy, r, c));
    }
}

/// A square matrix of cells, indexed row first: `self@[row][col]`.
#[derive(Debug)]
pub struct GameGrid {
    grid: Vec<Vec<Cell>>,
}

/// The cells behind a vector of row vectors, as a sequence of sequences.
spec fn rows_view(rows: Seq<Vec<Cell>>) -> Seq<Seq<Cell>> {
    Seq::new(rows.len(), |r: int| rows[r]@)
}

impl View for GameGrid {
    type V = Seq<Seq<Cell>>;

    closed spec fn view(&self) -> Seq<Seq<Cell>> {
        rows_view(self.grid@)
    }
}

/// Count the alive cells among the eight neighbours of `(r, c)`, leaving out
/// the positions that fall off the grid.
fn count_live_neighbors(grid: &Vec<Vec<Cell>>, r: usize, c: usize) -> (n: usize)
    requires
        grid_wf(rows_view(grid@)),
        r < grid@.len(),
        c < grid@.len(),
    ensures
        n == live_neighbors(rows_view(grid@), r as int, c as int),
{
    let ghost g = rows_view(grid@);
    proof {
        assert forall|i: int| 0 <= i < grid@.len() implies (#[trigger] grid@[i])@.len()
            == grid@.len() by {
            assert(g[i] == grid@[i]@);
        }
    }
    let size = grid.len();
    let mut n: usize = 0;
    if r > 0 {
        if c > 0 && grid[r - 1][c - 1].alive {
            n = n + 1;
        }
        if grid[r - 1][c].alive {
            n = n + 1;
        }
        if c + 1 < size && grid[r - 1][c + 1].alive {
            n = n + 1;
        }
    }
    if c > 0 && grid[r][c - 1].alive {
        n = n + 1;
    }
    if c + 1 < size && grid[r][c + 1].alive {
        n = n + 1;
    }
    if r + 1 < size {
        if c > 0 && grid[r + 1][c - 1].alive {
            n = n + 1;
        }
        if grid[r + 1][c].alive {
            n = n + 1;
        }
        if c + 1 < size && grid[r + 1][c + 1].alive {
            n = n + 1;
        }
    }
    n
}

impl GameGrid {
    /// An all-dead square grid with `size` cells to a side.
    pub fn with_size(size: usize) -> (g: GameGrid)
        ensures
            g@.len() == size,
            grid_wf(g@),
            forall|r: int, c: int|
                0 <= r < size && 0 <= c < size ==> #[trigger] g@[r][c] == dead_cell(),
    {
        let mut grid: Vec<Vec<Cell>> = Vec::new();
        let mut r: usize = 0;
        while r < size
            invariant
                r <= size,
                grid@.len() == r,
                forall|i: int| 0 <= i < r ==> (#[trigger] grid@[i])@.len() == size,
                forall|i: int, j: int|
                    0 <= i < r && 0 <= j < size ==> #[trigger] grid@[i]@[j] == dead_cell(),
            decreases size - r,
        {
            let mut row: Vec<Cell> = Vec::new();
            let mut c: usize = 0;
            while c < size
                invariant
                    c <= size,
                    row@.len() == c,
                    forall|j: int| 0 <= j < c ==> #[trigger] row@[j] == dead_cell(),
                decreases size - c,
            {
                row.push(Cell { alive: false, chaotic: false });
                c = c + 1;
            }
            grid.push(row);
            r = r + 1;
        }
        GameGrid { grid }
    }

    /// The all-dead grid the game starts from, at the game's full size.
    pub fn new() -> (g: GameGrid)
        ensures
            g@.len() == GRID_SIZE,
            grid_wf(g@),
            forall|r: int, c: int|
                0 <= r < GRID_SIZE && 0 <= c < GRID_SIZE ==> #[trigger] g@[r][c] == dead_cell(),
    {
        GameGrid::with_size(GRID_SIZE)
    }

    /// Stamp a pattern of `(row, col)` offsets with its anchor at column
    /// `start_x`, row `start_y`. Every offset that lands on the grid is set
    /// alive with the given chaos marker; offsets that fall off the grid are
    /// skipped without complaint.
    pub fn apply_pattern(
        &mut self,
        coords: &Vec<(usize, usize)>,
        start_x: usize,
        start_y: usize,
        chaotic: bool,
    )
        requires
            grid_wf(old(self)@),
        ensures
            final(self)@ == stamped(old(self)@, coords@, start_x as int, start_y as int, chaotic),
            grid_wf(final(self)@),
    {
        let ghost g0 = self@;
        let size = self.grid.len();
        let mut k: usize = 0;
        while k < coords.len()
            invariant
                k <= coords@.len(),
                size == g0.len(),
                grid_wf(g0),
                self@.len() == g0.len(),
                grid_wf(self@),
                forall|r: int, c: int|
                    0 <= r < g0.len() && 0 <= c < g0.len() ==> #[trigger] self@[r][c] == stamp_cell(
                        g0,
                        coords@.take(k as int),
                        start_x as int,
                        start_y as int,
                        chaotic,
                        r,
                        c,
                    ),
            decreases coords@.len() - k,
        {
            let ghost pre = self@;
            let ghost sx = start_x as int;
            let ghost sy = start_y as int;
            let (y, x) = coords[k];
            if y < size && start_y < size - y && x < size && start_x < size - x {
                let tr = y + start_y;
                let tc = x + start_x;
                let ghost pre_rows = self.grid@;
                proof {
                    assert(self@.len() == pre_rows.len());
                    assert(self@[tr as int] == pre_rows[tr as int]@);
                    assert(self@[tr as int].len() == g0.len());
                }
                self.grid[tr][tc] = Cell { alive: true, chaotic };
                proof {
                    assert forall|i: int| 0 <= i < self@.len() implies (#[trigger] self@[i]).len()
                        == self@.len() by {
                        assert(self@[i] == self.grid@[i]@);
                        if i != tr {
                            assert(self.grid@[i] == pre_rows[i]);
                            assert(pre[i] == pre_rows[i]@);
                        } else {
                            assert(self.grid@[i]@ == pre_rows[i]@.update(
                                tc as int,
                                Cell { alive: true, chaotic },
                            ));
                        }
                        assert(pre[i].len() == pre.len());
                    }
                    assert forall|r: int, c: int|
                        0 <= r < g0.len() && 0 <= c < g0.len() implies #[trigger] self@[r][c]
                        == stamp_cell(
                        g0,
                        coords@.take(k as int + 1),
                        sx,
                        sy,
                        chaotic,
                        r,
                        c,
                    ) by {
                        lemma_hits_extend(coords@, k as int, sx, sy, r, c);
                        assert(self@[r] == self.grid@[r]@);
                        assert(pre[r] == pre_rows[r]@);
                        if r == tr && c == tc {
                            assert(self@[r][c] == (Cell { alive: true, chaotic }));
                        } else if r == tr {
                            assert(self.grid@[r]@ == pre_rows[r]@.update(
                                tc as int,
                                Cell { alive: true, chaotic },
                            ));
                            assert(self@[r][c] == pre[r][c]);
                        } else {
                            assert(self.grid@[r] == pre_rows[r]);
                            assert(self@[r][c] == pre[r][c]);
                        }
                    }
                }
            } else {
                proof {
                    assert forall|r: int, c: int|
                        0 <= r < g0.len() && 0 <= c < g0.len() implies #[trigger] self@[r][c]
                        == stamp_cell(
                        g0,
                        coords@.take(k as int + 1),
                        sx,
                        sy,
                        chaotic,
                        r,
                        c,
                    ) by {
                        lemma_hits_extend(coords@, k as int, sx, sy, r, c);
                        assert(coords@[k as int].0 + sy >= g0.len() || coords@[k as int].1 + sx
                            >= g0.len());
                    }
                }
            }
            k = k + 1;
        }
        proof {
            assert(coords@.take(coords@.len() as int) =~= coords@);
            let gf = stamped(g0, coords@, start_x as int, start_y as int, chaotic);
            assert forall|r: int| 0 <= r < g0.len() implies self@[r] =~= gf[r] by {
                assert(self@[r].len() == g0.len());
            }
            assert(self@ =~~= gf);
        }
    }

    /// Advance the grid one generation. Every cell is judged against the
    /// grid as it stood before the call, so a partially updated row never
    /// leaks into a neighbour count.
    pub fn apply_rules(&mut self)
        requires
            grid_wf(old(self)@),
        ensures
            final(self)@ == step(old(self)@),
            grid_wf(final(self)@),
    {
        let ghost g0 = self@;
        let size = self.grid.len();
        let mut next: Vec<Vec<Cell>> = Vec::new();
        let mut r: usize = 0;
        while r < size
            invariant
                r <= size,
                self@ == g0,
                size == g0.len(),
                grid_wf(g0),
                next@.len() == r,
                forall|i: int| 0 <= i < r ==> (#[trigger] next@[i])@ == step(g0)[i],
            decreases size - r,
        {
            let mut row: Vec<Cell> = Vec::new();
            let mut c: usize = 0;
            while c < size
                invariant
                    c <= size,
                    r < size,
                    self@ == g0,
                    size == g0.len(),
                    grid_wf(g0),
                    row@.len() == c,
                    forall|j: int| 0 <= j < c ==> #[trigger] row@[j] == cell_next(g0, r as int, j),
                decreases size - c,
            {
                let count = count_live_neighbors(&self.grid, r, c);
                let was_alive = self.grid[r][c].alive;
                let alive = if was_alive {
                    count == 2 || count == 3
                } else {
                    count == 3
                };
                row.push(Cell { alive, chaotic: self.grid[r][c].chaotic });
                c = c + 1;
            }
            proof {
                assert(row@ =~= step(g0)[r as int]);
            }
            next.push(row);
            r = r + 1;
        }
        self.grid = next;
        proof {
            assert(self@ =~~= step(g0));
        }
    }

    /// Flip the alive flag of the cell in column `x`, row `y`; its chaos
    /// marker and every other cell stay as they were.
    pub fn toggle_cell(&mut self, x: usize, y: usize)
        requires
            y < old(self)@.len(),
            x < old(self)@[y as int].len(),
        ensures
            final(self)@ == toggled(old(self)@, x as int, y as int),
    {
        let ghost pre = self@;
        let ghost pre_rows = self.grid@;
        proof {
            assert(self@[y as int] == pre_rows[y as int]@);
        }
        let cell = self.grid[y][x];
        self.grid[y][x] = Cell { alive: !cell.alive, chaotic: cell.chaotic };
        proof {
            let gf = toggled(pre, x as int, y as int);
            assert forall|i: int| 0 <= i < pre.len() implies self@[i] =~= gf[i] by {
                assert(self@[i] == self.grid@[i]@);
                if i != y {
                    assert(self.grid@[i] == pre_rows[i]);
                    assert(pre[i] == pre_rows[i]@);
                } else {
                    assert(self.grid@[i]@ == pre_rows[i]@.update(
                        x as int,
                        Cell { alive: !pre[y as int][x as int].alive, chaotic: pre[y as int][x as int].chaotic },
                    ));
                }
            }
            assert(self@ =~~= gf);
        }
    }

    /// Stamp the glider gun from the catalog with its anchor in the
    /// top-left corner.
    pub fn seed_glider_gun(&mut self)
        requires
            grid_wf(old(self)@),
        ensures
            final(self)@ == stamped(
                old(self)@,
                crate::game_editor::glider_gun_view().coords,
                0,
                0,
                false,
            ),
            grid_wf(final(self)@),
    {
        let pattern = crate::game_editor::glider_gun_pattern();
        self.apply_pattern(pattern.coords(), 0, 0, false);
    }

    /// Borrow the rows of cells, for a caller that draws them.
    pub fn get_ref(&self) -> (rows: &Vec<Vec<Cell>>)
        ensures
            rows@.len() == self@.len(),
            forall|r: int| 0 <= r < rows@.len() ==> (#[trigger] rows@[r])@ == self@[r],
    {
        &self.grid
    }
}

impl Default for GameGrid {
    /// The same all-dead grid as `GameGrid::new`.
    fn default() -> (g: GameGrid)
        ensures
            g@.len() == GRID_SIZE,
            grid_wf(g@),
            forall|r: int, c: int|
                0 <= r < GRID_SIZE && 0 <= c < GRID_SIZE ==> #[trigger] g@[r][c] == dead_cell(),
    {
        GameGrid::new()
    }
}

} // verus!
