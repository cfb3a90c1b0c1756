use life_grid::game::{FrameInput, Game, GameState};
use life_grid::GRID_SIZE;

fn no_input() -> FrameInput {
    FrameInput {
        space_pressed: false,
        escape_pressed: false,
        chaos_pressed: false,
        digit_pressed: None,
        clicked_cell: None,
    }
}

fn alive(game: &Game, y: usize, x: usize) -> bool {
    game.grid().get_ref()[y][x].alive
}

fn count_alive(game: &Game) -> usize {
    game.grid()
        .get_ref()
        .iter()
        .map(|row| row.iter().filter(|cell| cell.alive).count())
        .sum()
}

#[test]
fn a_fresh_game_edits_an_empty_grid() {
    let game = Game::new();
    assert_eq!(game.state(), GameState::Editing);
    assert!(!game.chaos());
    assert!(game.editor().pattern_selected().is_none());
    assert_eq!(game.grid().get_ref().len(), GRID_SIZE);
    assert_eq!(count_alive(&game), 0);
    assert_eq!(game.status_label(), "Editing");
}

#[test]
fn space_swaps_editing_and_running() {
    let mut game = Game::new();
    let mut input = no_input();
    input.space_pressed = true;
    game.tick(input);
    assert_eq!(game.state(), GameState::Running);
    game.tick(input);
    assert_eq!(game.state(), GameState::Editing);
}

#[test]
fn the_chaos_key_flips_the_switch() {
    let mut game = Game::new();
    game.apply_input_rules(false, true);
    assert!(game.chaos());
    game.apply_input_rules(false, true);
    assert!(!game.chaos());
    assert_eq!(game.state(), GameState::Editing);
}

#[test]
fn status_labels_follow_mode_and_chaos() {
    let mut game = Game::new();
    assert_eq!(game.status_label(), "Editing");
    game.apply_input_rules(true, false);
    assert_eq!(game.status_label(), "Running");
    game.apply_input_rules(false, true);
    assert_eq!(game.status_label(), "Running (chaos)");
}

#[test]
fn an_editing_click_without_selection_toggles_the_cell() {
    let mut game = Game::new();
    let mut input = no_input();
    input.clicked_cell = Some((7, 3));
    game.tick(input);
    assert!(alive(&game, 3, 7));
    assert_eq!(count_alive(&game), 1);
    game.tick(input);
    assert_eq!(count_alive(&game), 0);
}

#[test]
fn an_editing_click_off_the_grid_changes_nothing() {
    let mut game = Game::new();
    let mut input = no_input();
    input.clicked_cell = Some((GRID_SIZE, 0));
    game.tick(input);
    assert_eq!(count_alive(&game), 0);
}

#[test]
fn a_digit_selects_and_a_click_stamps_the_pattern() {
    let mut game = Game::new();
    let mut select = no_input();
    select.digit_pressed = Some(4);
    game.tick(select);
    let selected = game.editor().pattern_selected().expect("the digit selects");
    assert_eq!(selected.name(), "blinker");
    let mut click = no_input();
    click.clicked_cell = Some((10, 20));
    game.tick(click);
    assert!(alive(&game, 20, 10) && alive(&game, 20, 11) && alive(&game, 20, 12));
    assert_eq!(count_alive(&game), 3);
}

#[test]
fn an_unknown_digit_keeps_the_selection() {
    let mut game = Game::new();
    let mut input = no_input();
    input.digit_pressed = Some(6);
    game.tick(input);
    input.digit_pressed = Some(9);
    game.tick(input);
    let selected = game.editor().pattern_selected().expect("the selection stays");
    assert_eq!(selected.id(), 6);
}

#[test]
fn escape_clears_the_selection() {
    let mut game = Game::new();
    let mut input = no_input();
    input.digit_pressed = Some(1);
    game.tick(input);
    let mut escape = no_input();
    escape.escape_pressed = true;
    game.tick(escape);
    assert!(game.editor().pattern_selected().is_none());
}

#[test]
fn a_running_tick_advances_one_generation() {
    let mut game = Game::new();
    let mut stamp = no_input();
    stamp.digit_pressed = Some(4);
    stamp.clicked_cell = Some((10, 20));
    game.tick(stamp);
    assert!(alive(&game, 20, 10) && alive(&game, 20, 11) && alive(&game, 20, 12));
    let mut to_running = no_input();
    to_running.space_pressed = true;
    game.tick(to_running);
    assert_eq!(game.state(), GameState::Running);
    game.tick(no_input());
    assert!(alive(&game, 19, 11) && alive(&game, 20, 11) && alive(&game, 21, 11));
    assert!(!alive(&game, 20, 10) && !alive(&game, 20, 12));
    assert_eq!(count_alive(&game), 3);
}

#[test]
fn handle_editing_matches_tick_in_editing_mode() {
    let mut game = Game::new();
    game.handle_editing(Some(5), false, None);
    let selected = game.editor().pattern_selected().expect("the digit selects");
    assert_eq!(selected.name(), "toad");
    game.handle_editing(None, true, Some((2, 2)));
    assert!(game.editor().pattern_selected().is_none());
    assert!(alive(&game, 2, 2));
}

#[test]
fn chaos_stamps_stay_off_the_first_row_and_column() {
    let mut game = Game::new();
    for _ in 0..100 {
        game.apply_random();
    }
    let rows = game.grid().get_ref();
    for x in 0..GRID_SIZE {
        assert!(!rows[0][x].alive);
    }
    for y in 0..GRID_SIZE {
        assert!(!rows[y][0].alive);
    }
}

#[test]
fn chaos_stamps_only_alive_chaotic_cells() {
    let mut game = Game::new();
    game.handle_editing(None, false, Some((0, 0)));
    assert!(alive(&game, 0, 0));
    for _ in 0..50 {
        game.apply_random();
    }
    assert!(alive(&game, 0, 0));
    let rows = game.grid().get_ref();
    assert_eq!(rows.len(), GRID_SIZE);
    for (y, row) in rows.iter().enumerate() {
        for (x, cell) in row.iter().enumerate() {
            if cell.chaotic {
                assert!(cell.alive);
            }
            if cell.alive && !cell.chaotic {
                assert_eq!((y, x), (0, 0));
            }
        }
    }
}
