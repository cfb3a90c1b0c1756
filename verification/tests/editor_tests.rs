use life_grid::game_editor::{EditorPattern, GameEditor};

#[test]
fn catalog_lists_the_seven_patterns_in_order() {
    let editor = GameEditor::new();
    let patterns = editor.get_editor_patterns();
    assert_eq!(patterns.len(), 7);
    let names = [
        "glider gun",
        "glider",
        "pulsar",
        "pentadecathlon",
        "blinker",
        "toad",
        "beacon",
    ];
    for (i, pattern) in patterns.iter().enumerate() {
        assert_eq!(pattern.id(), i);
        assert_eq!(pattern.name(), names[i]);
    }
    assert_eq!(editor.patterns().len(), 7);
}

#[test]
fn catalog_coords_match_the_classic_shapes() {
    let editor = GameEditor::new();
    let patterns = editor.get_editor_patterns();
    assert_eq!(patterns[1].coords(), &vec![(0, 1), (1, 2), (2, 0), (2, 1), (2, 2)]);
    assert_eq!(patterns[4].coords(), &vec![(0, 0), (0, 1), (0, 2)]);
    assert_eq!(patterns[0].coords().len(), 36);
    assert_eq!(patterns[2].coords().len(), 48);
}

#[test]
fn nothing_is_selected_at_the_start() {
    let editor = GameEditor::new();
    assert!(editor.pattern_selected().is_none());
}

#[test]
fn selecting_a_known_id_succeeds() {
    let mut editor = GameEditor::new();
    assert_eq!(editor.select_pattern(4), Ok(()));
    let selected = editor.pattern_selected().expect("a pattern is selected");
    assert_eq!(selected.id(), 4);
    assert_eq!(selected.name(), "blinker");
}

#[test]
fn selecting_an_unknown_id_fails_and_keeps_the_selection() {
    let mut editor = GameEditor::new();
    assert_eq!(editor.select_pattern(2), Ok(()));
    assert_eq!(editor.select_pattern(42), Err("Pattern not found"));
    let selected = editor.pattern_selected().expect("the old selection stays");
    assert_eq!(selected.id(), 2);
}

#[test]
fn selecting_an_unknown_id_from_idle_stays_idle() {
    let mut editor = GameEditor::new();
    assert_eq!(editor.select_pattern(9), Err("Pattern not found"));
    assert!(editor.pattern_selected().is_none());
}

#[test]
fn unselect_clears_any_selection() {
    let mut editor = GameEditor::new();
    assert_eq!(editor.select_pattern(0), Ok(()));
    editor.unselect_pattern();
    assert!(editor.pattern_selected().is_none());
    editor.unselect_pattern();
    assert!(editor.pattern_selected().is_none());
}

#[test]
fn a_pattern_keeps_what_it_was_built_from() {
    let coords: Vec<(usize, usize)> = vec![(0, 0), (1, 1)];
    let pattern = EditorPattern::new(11, "diagonal", coords.clone());
    assert_eq!(pattern.id(), 11);
    assert_eq!(pattern.name(), "diagonal");
    assert_eq!(pattern.coords(), &coords);
}
