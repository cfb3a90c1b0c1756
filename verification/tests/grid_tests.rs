use life_grid::game_grid::{Cell, GameGrid};
use life_grid::GRID_SIZE;

fn alive(g: &GameGrid, y: usize, x: usize) -> bool {
    g.get_ref()[y][x].alive
}

fn count_alive(g: &GameGrid) -> usize {
    g.get_ref()
        .iter()
        .map(|row| row.iter().filter(|cell| cell.alive).count())
        .sum()
}

fn alive_flags(g: &GameGrid) -> Vec<Vec<bool>> {
    g.get_ref()
        .iter()
        .map(|row| row.iter().map(|cell| cell.alive).collect())
        .collect()
}

#[test]
fn new_grid_is_full_size_and_dead() {
    let g = GameGrid::new();
    let rows = g.get_ref();
    assert_eq!(rows.len(), GRID_SIZE);
    for row in rows.iter() {
        assert_eq!(row.len(), GRID_SIZE);
    }
    assert_eq!(count_alive(&g), 0);
}

#[test]
fn lone_cell_dies_of_underpopulation() {
    let mut g = GameGrid::with_size(3);
    g.toggle_cell(1, 1);
    assert!(alive(&g, 1, 1));
    assert_eq!(count_alive(&g), 1);
    g.apply_rules();
    assert_eq!(count_alive(&g), 0);
}

#[test]
fn block_is_a_still_life() {
    let mut g = GameGrid::with_size(6);
    let block: Vec<(usize, usize)> = vec![(0, 0), (0, 1), (1, 0), (1, 1)];
    g.apply_pattern(&block, 2, 2, false);
    assert_eq!(count_alive(&g), 4);
    let before = alive_flags(&g);
    for _ in 0..5 {
        g.apply_rules();
        assert_eq!(alive_flags(&g), before);
    }
}

#[test]
fn blinker_oscillates_with_period_two() {
    let mut g = GameGrid::with_size(5);
    let blinker: Vec<(usize, usize)> = vec![(0, 0), (0, 1), (0, 2)];
    g.apply_pattern(&blinker, 1, 2, false);
    let horizontal = alive_flags(&g);
    assert!(alive(&g, 2, 1) && alive(&g, 2, 2) && alive(&g, 2, 3));
    g.apply_rules();
    let vertical = alive_flags(&g);
    assert!(alive(&g, 1, 2) && alive(&g, 2, 2) && alive(&g, 3, 2));
    assert_eq!(count_alive(&g), 3);
    assert_ne!(vertical, horizontal);
    g.apply_rules();
    assert_eq!(alive_flags(&g), horizontal);
}

#[test]
fn stamping_past_the_edge_sets_only_the_inbounds_cells() {
    let mut g = GameGrid::with_size(3);
    let coords: Vec<(usize, usize)> = vec![(0, 0), (0, 2), (5, 5)];
    g.apply_pattern(&coords, 1, 1, false);
    assert!(alive(&g, 1, 1));
    assert_eq!(count_alive(&g), 1);
}

#[test]
fn stamping_keeps_cells_off_the_pattern() {
    let mut g = GameGrid::with_size(4);
    g.toggle_cell(0, 3);
    let coords: Vec<(usize, usize)> = vec![(0, 0)];
    g.apply_pattern(&coords, 1, 1, true);
    assert!(alive(&g, 1, 1));
    assert!(g.get_ref()[1][1].chaotic);
    assert!(alive(&g, 3, 0));
    assert!(!g.get_ref()[3][0].chaotic);
    assert_eq!(count_alive(&g), 2);
}

#[test]
fn double_toggle_restores_the_cell() {
    let mut g = GameGrid::with_size(4);
    let before = g.get_ref().clone();
    g.toggle_cell(2, 3);
    assert!(alive(&g, 3, 2));
    g.toggle_cell(2, 3);
    assert_eq!(*g.get_ref(), before);
}

#[test]
fn toggle_only_touches_its_cell() {
    let mut g = GameGrid::with_size(3);
    g.toggle_cell(0, 0);
    g.toggle_cell(2, 1);
    assert!(alive(&g, 0, 0));
    assert!(alive(&g, 1, 2));
    assert_eq!(count_alive(&g), 2);
}

#[test]
fn seeded_glider_gun_matches_its_pattern() {
    let mut g = GameGrid::new();
    g.seed_glider_gun();
    assert_eq!(count_alive(&g), 36);
    assert!(alive(&g, 1, 25));
    assert!(alive(&g, 9, 14));
    assert!(!alive(&g, 0, 0));
    assert!(!g.get_ref()[1][25].chaotic);
}

#[test]
fn default_grid_matches_new() {
    let g = GameGrid::default();
    let rows = g.get_ref();
    assert_eq!(rows.len(), GRID_SIZE);
    assert_eq!(count_alive(&g), 0);
}

#[test]
fn cell_flags_are_plain_data() {
    let cell = Cell { alive: true, chaotic: false };
    let copy = cell;
    assert!(copy.alive);
    assert!(!copy.chaotic);
    assert_eq!(cell, copy);
}
