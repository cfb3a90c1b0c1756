//! The pattern catalog and the editor's selection state.
use vstd::prelude::*;

verus! {

/// What a pattern is in specifications: its catalog id, its display name and
/// its `(row, col)` offsets.
#[verifier::ext_equal]
pub ghost struct PatternView {
    pub id: int,
    pub name: Seq<char>,
    pub coords: Seq<(usize, usize)>,
}

/// A named pattern of the catalog: a list of `(row, col)` offsets relative
/// to an anchor cell.
#[derive(Debug)]
pub struct EditorPattern {
    id: usize,
    name: &'static str,
    coords: Vec<(usize, usize)>,
}

impl View for EditorPattern {
    type V = PatternView;

    closed spec fn view(&self) -> PatternView {
        PatternView { id: self.id as int, name: self.name@, coords: self.coords@ }
    }
}

impl EditorPattern {
    /// Bundle an id, a name and a list of offsets into a pattern.
    pub fn new(id: usize, name: &'static str, coords: Vec<(usize, usize)>) -> (p: EditorPattern)
        ensures
            p@.id == id,
            p@.name == name@,
            p@.coords == coords@,
    {
        EditorPattern { id, name, coords }
    }

    /// The pattern's catalog id.
    pub fn id(&self) -> (r: usize)
        ensures
            r == self@.id,
    {
        self.id
    }

    /// The pattern's display name.
    pub fn name(&self) -> (r: &'static str)
        ensures
            r@ == self@.name,
    {
        self.name
    }

    /// The pattern's `(row, col)` offsets.
    pub fn coords(&self) -> (r: &Vec<(usize, usize)>)
        ensures
            r@ == self@.coords,
    {
        &self.coords
    }
}

/// Gosper's glider gun.
pub open spec fn glider_gun_view() -> PatternView {
    PatternView {
        id: 0,
        name: "glider gun"@,
        coords: seq![
            (1usize, 25usize),
            (2, 23),
            (2, 25),
            (3, 13),
            (3, 14),
            (3, 21),
            (3, 22),
            (3, 35),
            (3, 36),
            (4, 12),
            (4, 16),
            (4, 21),
            (4, 22),
            (4, 35),
            (4, 36),
            (5, 1),
            (5, 2),
            (5, 11),
            (5, 17),
            (5, 21),
            (5, 22),
            (6, 1),
            (6, 2),
            (6, 11),
            (6, 15),
            (6, 17),
            (6, 18),
            (6, 23),
            (6, 25),
            (7, 11),
            (7, 17),
            (7, 25),
            (8, 12),
            (8, 16),
            (9, 13),
            (9, 14),
        ],
    }
}

/// The glider: five cells that walk diagonally.
pub open spec fn glider_view() -> PatternView {
    PatternView {
        id: 1,
        name: "glider"@,
        coords: seq![(0usize, 1usize), (1, 2), (2, 0), (2, 1), (2, 2)],
    }
}

/// The pulsar: a large period-three oscillator.
pub open spec fn pulsar_view() -> PatternView {
    PatternView {
        id: 2,
        name: "pulsar"@,
        coords: seq![
            (2usize, 4usize),
            (2, 5),
            (2, 6),
            (2, 10),
            (2, 11),
            (2, 12),
            (4, 2),
            (4, 7),
            (4, 9),
            (4, 14),
            (5, 2),
            (5, 7),
            (5, 9),
            (5, 14),
            (6, 2),
            (6, 7),
            (6, 9),
            (6, 14),
            (7, 4),
            (7, 5),
            (7, 6),
            (7, 10),
            (7, 11),
            (7, 12),
            (9, 4),
            (9, 5),
            (9, 6),
            (9, 10),
            (9, 11),
            (9, 12),
            (10, 2),
            (10, 7),
            (10, 9),
            (10, 14),
            (11, 2),
            (11, 7),
            (11, 9),
            (11, 14),
            (12, 2),
            (12, 7),
            (12, 9),
            (12, 14),
            (14, 4),
            (14, 5),
            (14, 6),
            (14, 10),
            (14, 11),
            (14, 12),
        ],
    }
}

/// The pentadecathlon: a period-fifteen oscillator.
pub open spec fn pentadecathlon_view() -> PatternView {
    PatternView {
        id: 3,
        name: "pentadecathlon"@,
        coords: seq![
            (0usize, 1usize),
            (1, 1),
            (2, 0),
            (2, 2),
            (3, 1),
            (4, 1),
            (5, 1),
            (6, 0),
            (6, 2),
            (7, 1),
        ],
    }
}

/// The blinker: three cells in a row.
pub open spec fn blinker_view() -> PatternView {
    PatternView { id: 4, name: "blinker"@, coords: seq![(0usize, 0usize), (0, 1), (0, 2)] }
}

/// The toad: a period-two oscillator of six cells.
pub open spec fn toad_view() -> PatternView {
    PatternView {
        id: 5,
        name: "toad"@,
        coords: seq![(1usize, 1usize), (1, 2), (1, 3), (2, 0), (2, 1), (2, 2)],
    }
}

/// The beacon: two blocks that blink at the corners.
pub open spec fn beacon_view() -> PatternView {
    PatternView {
        id: 6,
        name: "beacon"@,
        coords: seq![(1usize, 1usize), (1, 2), (2, 1), (2, 2), (3, 3), (3, 4), (4, 3), (4, 4)],
    }
}

/// The catalog as specifications see it, in the order the editor offers it.
pub open spec fn catalog() -> Seq<PatternView> {
    seq![
        glider_gun_view(),
        glider_view(),
        pulsar_view(),
        pentadecathlon_view(),
        blinker_view(),
        toad_view(),
        beacon_view(),
    ]
}

/// Every catalog entry's id is its position in the catalog.
pub proof fn lemma_catalog_ids()
    ensures
        catalog().len() == 7,
        forall|i: int| 0 <= i < catalog().len() ==> (#[trigger] catalog()[i]).id == i,
{
    assert forall|i: int| 0 <= i < catalog().len() implies (#[trigger] catalog()[i]).id == i by {
        if i == 0 {
            assert(catalog()[0] == glider_gun_view());
        } else if i == 1 {
            assert(catalog()[1] == glider_view());
        } else if i == 2 {
            assert(catalog()[2] == pulsar_view());
        } else if i == 3 {
            assert(catalog()[3] == pentadecathlon_view());
        } else if i == 4 {
            assert(catalog()[4] == blinker_view());
        } else if i == 5 {
            assert(catalog()[5] == toad_view());
        } else {
            assert(catalog()[6] == beacon_view());
        }
    }
}

/// Build the glider gun catalog entry.
pub(crate) fn glider_gun_pattern() -> (p: EditorPattern)
    ensures
        p@ =~= glider_gun_view(),
{
    let coords: Vec<(usize, usize)> = vec![
        (1, 25),
        (2, 23),
        (2, 25),
        (3, 13),
        (3, 14),
        (3, 21),
        (3, 22),
        (3, 35),
        (3, 36),
        (4, 12),
        (4, 16),
        (4, 21),
        (4, 22),
        (4, 35),
        (4, 36),
        (5, 1),
        (5, 2),
        (5, 11),
        (5, 17),
        (5, 21),
        (5, 22),
        (6, 1),
        (6, 2),
        (6, 11),
        (6, 15),
        (6, 17),
        (6, 18),
        (6, 23),
        (6, 25),
        (7, 11),
        (7, 17),
        (7, 25),
        (8, 12),
        (8, 16),
        (9, 13),
        (9, 14),
    ];
    proof {
        assert(coords@ =~= glider_gun_view().coords);
    }
    EditorPattern::new(0, "glider gun", coords)
}

/// Build the glider catalog entry.
fn glider_pattern() -> (p: EditorPattern)
    ensures
        p@ =~= glider_view(),
{
    let coords: Vec<(usize, usize)> = vec![(0, 1), (1, 2), (2, 0), (2, 1), (2, 2)];
    proof {
        assert(coords@ =~= glider_view().coords);
    }
    EditorPattern::new(1, "glider", coords)
}

/// Build the pulsar catalog entry.
fn pulsar_pattern() -> (p: EditorPattern)
    ensures
        p@ =~= pulsar_view(),
{
    let coords: Vec<(usize, usize)> = vec![
        (2, 4),
        (2, 5),
        (2, 6),
        (2, 10),
        (2, 11),
        (2, 12),
        (4, 2),
        (4, 7),
        (4, 9),
        (4, 14),
        (5, 2),
        (5, 7),
        (5, 9),
        (5, 14),
        (6, 2),
        (6, 7),
        (6, 9),
        (6, 14),
        (7, 4),
        (7, 5),
        (7, 6),
        (7, 10),
        (7, 11),
        (7, 12),
        (9, 4),
        (9, 5),
        (9, 6),
        (9, 10),
        (9, 11),
        (9, 12),
        (10, 2),
        (10, 7),
        (10, 9),
        (10, 14),
        (11, 2),
        (11, 7),
        (11, 9),
        (11, 14),
        (12, 2),
        (12, 7),
        (12, 9),
        (12, 14),
        (14, 4),
        (14, 5),
        (14, 6),
        (14, 10),
        (14, 11),
        (14, 12),
    ];
    proof {
        assert(coords@ =~= pulsar_view().coords);
    }
    EditorPattern::new(2, "pulsar", coords)
}

/// Build the pentadecathlon catalog entry.
fn pentadecathlon_pattern() -> (p: EditorPattern)
    ensures
        p@ =~= pentadecathlon_view(),
{
    let coords: Vec<(usize, usize)> = vec![
        (0, 1),
        (1, 1),
        (2, 0),
        (2, 2),
        (3, 1),
        (4, 1),
        (5, 1),
        (6, 0),
        (6, 2),
        (7, 1),
    ];
    proof {
        assert(coords@ =~= pentadecathlon_view().coords);
    }
    EditorPattern::new(3, "pentadecathlon", coords)
}

/// Build the blinker catalog entry.
fn blinker_pattern() -> (p: EditorPattern)
    ensures
        p@ =~= blinker_view(),
{
    let coords: Vec<(usize, usize)> = vec![(0, 0), (0, 1), (0, 2)];
    proof {
        assert(coords@ =~= blinker_view().coords);
    }
    EditorPattern::new(4, "blinker", coords)
}

/// Build the toad catalog entry.
fn toad_pattern() -> (p: EditorPattern)
    ensures
        p@ =~= toad_view(),
{
    let coords: Vec<(usize, usize)> = vec![(1, 1), (1, 2), (1, 3), (2, 0), (2, 1), (2, 2)];
    proof {
        assert(coords@ =~= toad_view().coords);
    }
    EditorPattern::new(5, "toad", coords)
}

/// Build the beacon catalog entry.
fn beacon_pattern() -> (p: EditorPattern)
    ensures
        p@ =~= beacon_view(),
{
    let coords: Vec<(usize, usize)> = vec![
        (1, 1),
        (1, 2),
        (2, 1),
        (2, 2),
        (3, 3),
        (3, 4),
        (4, 3),
        (4, 4),
    ];
    proof {
        assert(coords@ =~= beacon_view().coords);
    }
    EditorPattern::new(6, "beacon", coords)
}

/// The editor's selection: either nothing, or one entry of the catalog.
#[derive(Debug)]
enum EditorState {
    PatternSelected { index: usize },
    Idle,
}

/// What the editor is in specifications: the catalog it offers and the index
/// of the selected entry, if any.
#[verifier::ext_equal]
pub ghost struct EditorView {
    pub patterns: Seq<PatternView>,
    pub selected: Option<int>,
}

/// A well-formed editor's selection, when there is one, points at an entry
/// of its catalog.
pub open spec fn editor_wf(e: EditorView) -> bool {
    match e.selected {
        Some(i) => 0 <= i < e.patterns.len(),
        None => true,
    }
}

/// Whether some catalog entry carries the given id.
pub open spec fn has_pattern(patterns: Seq<PatternView>, id: int) -> bool {
    exists|i: int| 0 <= i < patterns.len() && (#[trigger] patterns[i]).id == id
}

/// The ordered pattern catalog together with at most one selected entry.
#[derive(Debug)]
pub struct GameEditor {
    state: EditorState,
    editor_patterns: Vec<EditorPattern>,
}

impl View for GameEditor {
    type V = EditorView;

    closed spec fn view(&self) -> EditorView {
        EditorView {
            patterns: Seq::new(self.editor_patterns@.len(), |i: int| self.editor_patterns@[i]@),
            selected: match self.state {
                EditorState::PatternSelected { index } => Some(index as int),
                EditorState::Idle => None,
            },
        }
    }
}

impl GameEditor {
    /// An editor offering the full catalog, with nothing selected yet.
    pub fn new() -> (e: GameEditor)
        ensures
            e@.patterns == catalog(),
            e@.selected is None,
            editor_wf(e@),
    {
        let mut editor_patterns: Vec<EditorPattern> = Vec::new();
        editor_patterns.push(glider_gun_pattern());
        editor_patterns.push(glider_pattern());
        editor_patterns.push(pulsar_pattern());
        editor_patterns.push(pentadecathlon_pattern());
        editor_patterns.push(blinker_pattern());
        editor_patterns.push(toad_pattern());
        editor_patterns.push(beacon_pattern());
        let e = GameEditor { state: EditorState::Idle, editor_patterns };
        proof {
            assert(e@.patterns =~~= catalog());
        }
        e
    }

    /// Borrow the catalog, in order.
    pub fn get_editor_patterns(&self) -> (r: &Vec<EditorPattern>)
        ensures
            r@.len() == self@.patterns.len(),
            forall|i: int| 0 <= i < r@.len() ==> (#[trigger] r@[i])@ == self@.patterns[i],
    {
        &self.editor_patterns
    }

    /// Borrow the catalog, in order.
    pub fn patterns(&self) -> (r: &Vec<EditorPattern>)
        ensures
            r@.len() == self@.patterns.len(),
            forall|i: int| 0 <= i < r@.len() ==> (#[trigger] r@[i])@ == self@.patterns[i],
    {
        &self.editor_patterns
    }

    /// The selected catalog entry, if one is selected.
    pub fn pattern_selected(&self) -> (r: Option<&EditorPattern>)
        requires
            editor_wf(self@),
        ensures
            r is Some <==> self@.selected is Some,
            r matches Some(p) ==> self@.selected matches Some(i) && p@ == self@.patterns[i],
    {
        match &self.state {
            EditorState::PatternSelected { index } => Some(&self.editor_patterns[*index]),
            EditorState::Idle => None,
        }
    }

    /// Select the first catalog entry carrying the given id. When no entry
    /// does, report failure and leave the selection as it was.
    pub fn select_pattern(&mut self, id: usize) -> (r: Result<(), &'static str>)
        ensures
            final(self)@.patterns == old(self)@.patterns,
            r is Ok <==> has_pattern(old(self)@.patterns, id as int),
            r is Ok ==> (final(self)@.selected matches Some(i) && 0 <= i < old(
                self,
            )@.patterns.len() && old(self)@.patterns[i].id == id && (forall|j: int|
                0 <= j < i ==> (#[trigger] old(self)@.patterns[j]).id != id)),
            r is Err ==> final(self)@ == old(self)@,
            r matches Err(m) ==> m@ == "Pattern not found"@,
            editor_wf(old(self)@) ==> editor_wf(final(self)@),
    {
        let ghost pats = self@.patterns;
        let mut k: usize = 0;
        while k < self.editor_patterns.len()
            invariant
                self == old(self),
                k <= pats.len(),
                pats.len() == self.editor_patterns@.len(),
                pats == self@.patterns,
                forall|j: int| 0 <= j < k ==> (#[trigger] pats[j]).id != id,
            decreases pats.len() - k,
        {
            if self.editor_patterns[k].id() == id {
                self.state = EditorState::PatternSelected { index: k };
                proof {
                    assert(self@.patterns =~= pats);
                    assert(pats[k as int] == self.editor_patterns@[k as int]@);
                    assert(has_pattern(pats, id as int));
                }
                return Ok(());
            }
            k = k + 1;
        }
        proof {
            assert(!has_pattern(pats, id as int));
        }
        Err("Pattern not found")
    }

    /// Clear the selection, whatever it was.
    pub fn unselect_pattern(&mut self)
        ensures
            final(self)@.patterns == old(self)@.patterns,
            final(self)@.selected is None,
            editor_wf(final(self)@),
    {
        self.state = EditorState::Idle;
        proof {
            assert(self@.patterns =~= old(self)@.patterns);
        }
    }
}

} // verus!
