//! The top-level state machine: editing against running, the chaos toggle,
//! and what one frame of input does to the game.
use vstd::prelude::*;

verus! {

use crate::GRID_SIZE;
use crate::game_editor::{GameEditor, EditorView, editor_wf, catalog};
use crate::game_grid::{Cell, GameGrid, grid_wf, step, stamped, toggled, dead_cell};

/// Whether the game is editing the grid or running generations.
#[derive(Clone, Copy, PartialEq, Eq, Structural, Debug)]
pub enum GameState {
    Running,
    Editing,
}

/// One frame of input, reduced to plain values: which control keys went
/// down, which digit key if any, and the grid cell `(x, y)` of a left click
/// if one happened.
#[derive(Clone, Copy, Debug)]
pub struct FrameInput {
    pub space_pressed: bool,
    pub escape_pressed: bool,
    pub chaos_pressed: bool,
    pub digit_pressed: Option<usize>,
    pub clicked_cell: Option<(usize, usize)>,
}

/// What the game is in specifications: the grid, the mode, the editor and
/// the chaos switch.
#[verifier::ext_equal]
pub ghost struct GameView {
    pub grid: Seq<Seq<Cell>>,
    pub state: GameState,
    pub editor: EditorView,
    pub chaos: bool,
}

/// A well-formed game: a square grid at the game's size, and an editor that
/// offers the catalog with a selection that points into it.
pub open spec fn game_wf(g: GameView) -> bool {
    &&& grid_wf(g.grid)
    &&& g.grid.len() == GRID_SIZE
    &&& editor_wf(g.editor)
    &&& g.editor.patterns == catalog()
}

/// The mode after the mode key: space swaps editing and running.
pub open spec fn state_after(s: GameState, space: bool) -> GameState {
    if space {
        match s {
            GameState::Running => GameState::Editing,
            GameState::Editing => GameState::Running,
        }
    } else {
        s
    }
}

/// The selection after one editing frame: a digit that names a catalog
/// entry selects it, any other digit changes nothing, and escape clears
/// whatever is left.
pub open spec fn sel_after(sel: Option<int>, digit: Option<usize>, escape: bool) -> Option<int> {
    let s1 = match digit {
        Some(d) => if (d as int) < catalog().len() {
            Some(d as int)
        } else {
            sel
        },
        None => sel,
    };
    if escape {
        None
    } else {
        s1
    }
}

/// The grid after one editing click: with a selection the pattern is
/// stamped at the clicked cell, without one the clicked cell is toggled if
/// it is on the grid, and without a click nothing changes.
pub open spec fn grid_after_click(
    g: Seq<Seq<Cell>>,
    sel: Option<int>,
    click: Option<(usize, usize)>,
) -> Seq<Seq<Cell>> {
    match click {
        None => g,
        Some((gx, gy)) => match sel {
            Some(i) => stamped(g, catalog()[i].coords, gx as int, gy as int, false),
            None => if gx < g.len() && gy < g.len() {
                toggled(g, gx as int, gy as int)
            } else {
                g
            },
        },
    }
}

/// Relies on macroquad::rand::gen_range, which scales one 32-bit draw of
/// its global generator into `[low, high)`; for the small spans used here
/// (well below 2^21) the scaling arithmetic is exact, so the result is at
/// least `low` and below `high`. Nothing more is promised of a random draw.
#[verifier::external_body]
fn random_in_range(low: usize, high: usize) -> (r: usize)
    requires
        low < high,
        high <= 0x10_0000,
    ensures
        low <= r < high,
{
    macroquad::rand::gen_range(low, high)
}

/// A stamped grid is as large as it was, and every cell either kept its
/// value or was just set alive with the stamp's chaos marker.
proof fn lemma_stamp_bound(
    g: Seq<Seq<Cell>>,
    g2: Seq<Seq<Cell>>,
    coords: Seq<(usize, usize)>,
    sx: int,
    sy: int,
)
    requires
        g2 == stamped(g, coords, sx, sy, true),
    ensures
        g2.len() == g.len(),
        forall|r: int, c: int|
            0 <= r < g.len() && 0 <= c < g[r].len() ==> #[trigger] g2[r][c] == g[r][c] || g2[r][c]
                == (Cell { alive: true, chaotic: true }),
{
    assert forall|r: int, c: int| 0 <= r < g.len() && 0 <= c < g[r].len() implies #[trigger] g2[r][c]
        == g[r][c] || g2[r][c] == (Cell { alive: true, chaotic: true }) by {
        assert(g2[r][c] == crate::game_grid::stamp_cell(g, coords, sx, sy, true, r, c));
    }
}

/// The grid, the mode and the editor, glued together and fed one frame of
/// input at a time.
#[derive(Debug)]
pub struct Game {
    game_grid: GameGrid,
    game_state: GameState,
    game_editor: GameEditor,
    chaos: bool,
}

impl View for Game {
    type V = GameView;

    closed spec fn view(&self) -> GameView {
        GameView {
            grid: self.game_grid@,
            state: self.game_state,
            editor: self.game_editor@,
            chaos: self.chaos,
        }
    }
}

impl Game {
    /// A fresh game: an all-dead grid, the editing mode, the full catalog
    /// with nothing selected, and chaos off.
    pub fn new() -> (g: Game)
        ensures
            game_wf(g@),
            g@.state == GameState::Editing,
            g@.editor.selected is None,
            g@.chaos == false,
            forall|r: int, c: int|
                0 <= r < GRID_SIZE && 0 <= c < GRID_SIZE ==> #[trigger] g@.grid[r][c]
                    == dead_cell(),
    {
        let game_grid = GameGrid::new();
        let game_state = GameState::Editing;
        let game_editor = GameEditor::new();
        Game { game_grid, game_state, game_editor, chaos: false }
    }

    /// Borrow the grid, for a caller that draws it.
    pub fn grid(&self) -> (r: &GameGrid)
        ensures
            r@ == self@.grid,
    {
        &self.game_grid
    }

    /// The current mode.
    pub fn state(&self) -> (r: GameState)
        ensures
            r == self@.state,
    {
        self.game_state
    }

    /// Whether chaos mode is on.
    pub fn chaos(&self) -> (r: bool)
        ensures
            r == self@.chaos,
    {
        self.chaos
    }

    /// Borrow the editor, for a caller that lists the catalog or shows the
    /// selection.
    pub fn editor(&self) -> (r: &GameEditor)
        ensures
            r@ == self@.editor,
    {
        &self.game_editor
    }

    /// One editing frame: a digit key selects the catalog entry with that
    /// id, escape clears the selection, and a left click either stamps the
    /// selected pattern at the clicked cell or, with nothing selected,
    /// toggles that cell if it is on the grid.
    pub fn handle_editing(
        &mut self,
        digit: Option<usize>,
        escape: bool,
        click: Option<(usize, usize)>,
    )
        requires
            game_wf(old(self)@),
        ensures
            game_wf(final(self)@),
            final(self)@.state == old(self)@.state,
            final(self)@.chaos == old(self)@.chaos,
            final(self)@.editor.selected == sel_after(old(self)@.editor.selected, digit, escape),
            final(self)@.grid == grid_after_click(
                old(self)@.grid,
                sel_after(old(self)@.editor.selected, digit, escape),
                click,
            ),
    {
        proof {
            crate::game_editor::lemma_catalog_ids();
        }
        let ghost sel1 = sel_after(old(self)@.editor.selected, digit, escape);
        if let Some(d) = digit {
            let _ = self.game_editor.select_pattern(d);
        }
        if escape {
            self.game_editor.unselect_pattern();
        }
        proof {
            assert(self@.editor.selected == sel1);
        }
        if let Some((gx, gy)) = click {
            let selected = self.game_editor.pattern_selected();
            match selected {
                Some(pattern) => {
                    let coords = pattern.coords();
                    self.game_grid.apply_pattern(coords, gx, gy, false);
                },
                None => {
                    if gx < GRID_SIZE && gy < GRID_SIZE {
                        self.game_grid.toggle_cell(gx, gy);
                    }
                },
            }
        }
    }

    /// The state-transition keys of one frame: space swaps editing and
    /// running, and the chaos key flips the chaos switch. The grid and the
    /// editor are untouched.
    pub fn apply_input_rules(&mut self, space: bool, chaos_key: bool)
        ensures
            final(self)@.state == state_after(old(self)@.state, space),
            final(self)@.chaos == (old(self)@.chaos != chaos_key),
            final(self)@.grid == old(self)@.grid,
            final(self)@.editor == old(self)@.editor,
    {
        match self.game_state {
            GameState::Running => {
                if space {
                    self.game_state = GameState::Editing;
                }
            },
            GameState::Editing => {
                if space {
                    self.game_state = GameState::Running;
                }
            },
        }
        if chaos_key {
            self.chaos = !self.chaos;
        }
    }

    /// One roll of the chaos feature for each catalog entry: when the die
    /// lands on one, the entry is stamped, marked chaotic, at a position
    /// drawn at random. Whatever the dice said, every cell either keeps its
    /// old value or has just been set alive and chaotic, and nothing else
    /// about the game moves.
    pub fn apply_random(&mut self)
        requires
            game_wf(old(self)@),
        ensures
            game_wf(final(self)@),
            final(self)@.state == old(self)@.state,
            final(self)@.chaos == old(self)@.chaos,
            final(self)@.editor == old(self)@.editor,
            final(self)@.grid.len() == old(self)@.grid.len(),
            forall|r: int, c: int|
                0 <= r < old(self)@.grid.len() && 0 <= c < old(self)@.grid.len()
                    ==> #[trigger] final(self)@.grid[r][c] == old(self)@.grid[r][c]
                    || final(self)@.grid[r][c] == (Cell { alive: true, chaotic: true }),
    {
        let ghost pre = self@;
        let count = self.game_editor.get_editor_patterns().len();
        let mut k: usize = 0;
        while k < count
            invariant
                game_wf(self@),
                count == pre.editor.patterns.len(),
                self@.state == pre.state,
                self@.chaos == pre.chaos,
                self@.editor == pre.editor,
                self@.grid.len() == pre.grid.len(),
                forall|r: int, c: int|
                    0 <= r < pre.grid.len() && 0 <= c < pre.grid.len()
                        ==> #[trigger] self@.grid[r][c] == pre.grid[r][c] || self@.grid[r][c] == (
                    Cell { alive: true, chaotic: true }),
            decreases count - k,
        {
            let ghost mid = self@;
            let roll = random_in_range(1, 6) == 1;
            if roll {
                let n1 = random_in_range(1, GRID_SIZE);
                let n2 = random_in_range(1, GRID_SIZE);
                let patterns = self.game_editor.get_editor_patterns();
                let coords = patterns[k].coords();
                self.game_grid.apply_pattern(coords, n1, n2, true);
                proof {
                    lemma_stamp_bound(mid.grid, self@.grid, patterns@[k as int]@.coords,
                        n1 as int, n2 as int);
                }
            }
            k = k + 1;
        }
    }

    /// One frame. Editing handles the digit, escape and click of the input;
    /// running advances the grid one generation and, with chaos on, rolls
    /// the chaos stamps. Afterwards the state-transition keys apply either
    /// way.
    pub fn tick(&mut self, input: FrameInput)
        requires
            game_wf(old(self)@),
        ensures
            game_wf(final(self)@),
            final(self)@.state == state_after(old(self)@.state, input.space_pressed),
            final(self)@.chaos == (old(self)@.chaos != input.chaos_pressed),
            old(self)@.state is Editing ==> {
                &&& final(self)@.editor.selected == sel_after(
                    old(self)@.editor.selected,
                    input.digit_pressed,
                    input.escape_pressed,
                )
                &&& final(self)@.grid == grid_after_click(
                    old(self)@.grid,
                    sel_after(
                        old(self)@.editor.selected,
                        input.digit_pressed,
                        input.escape_pressed,
                    ),
                    input.clicked_cell,
                )
            },
            old(self)@.state is Running ==> final(self)@.editor == old(self)@.editor,
            old(self)@.state is Running && !old(self)@.chaos ==> final(self)@.grid == step(
                old(self)@.grid,
            ),
            old(self)@.state is Running && old(self)@.chaos ==> {
                &&& final(self)@.grid.len() == old(self)@.grid.len()
                &&& forall|r: int, c: int|
                    0 <= r < old(self)@.grid.len() && 0 <= c < old(self)@.grid.len()
                        ==> #[trigger] final(self)@.grid[r][c] == step(old(self)@.grid)[r][c]
                        || final(self)@.grid[r][c] == (Cell { alive: true, chaotic: true })
            },
    {
        match self.game_state {
            GameState::Running => {
                self.game_grid.apply_rules();
                if self.chaos {
                    self.apply_random();
                }
            },
            GameState::Editing => {
                self.handle_editing(
                    input.digit_pressed,
                    input.escape_pressed,
                    input.clicked_cell,
                );
            },
        }
        self.apply_input_rules(input.space_pressed, input.chaos_pressed);
    }

    /// The status line for the current mode.
    pub fn status_label(&self) -> (r: &'static str)
        ensures
            self@.state is Running && self@.chaos ==> r@ == "Running (chaos)"@,
            self@.state is Running && !self@.chaos ==> r@ == "Running"@,
            self@.state is Editing ==> r@ == "Editing"@,
    {
        match self.game_state {
            GameState::Running => if self.chaos {
                "Running (chaos)"
            } else {
                "Running"
            },
            GameState::Editing => "Editing",
        }
    }
}

} // verus!
