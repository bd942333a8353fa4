use game_of_life::game::Game;
use game_of_life::grid::{State, HEIGHT, WIDTH};

fn blank_game() -> Game {
    Game::new(State::default())
}

/// Builds a game whose only ALIVE cells are the given (row, col) positions.
fn game_with_alive(cells: &[(usize, usize)]) -> Game {
    let mut state = State::default();
    for &(r, c) in cells {
        state.set(r, c, true);
    }
    Game::new(state)
}

fn alive_positions(game: &Game) -> Vec<(usize, usize)> {
    let mut alive = Vec::new();
    for r in 0..HEIGHT {
        for c in 0..WIDTH {
            if game.get(r, c) {
                alive.push((r, c));
            }
        }
    }
    alive
}

#[test]
fn blank_grid_every_cell_dead() {
    let game = blank_game();
    assert_eq!(alive_positions(&game), Vec::new());
}

#[test]
fn random_grid_is_full_size() {
    let state = State::random();
    let game = Game::new(state);
    // Every cell is reachable; its value is whatever the generator drew.
    for r in 0..HEIGHT {
        for c in 0..WIDTH {
            let _ = game.get(r, c);
        }
    }
}

#[test]
fn dead_grid_stays_dead() {
    let mut game = blank_game();
    for _ in 0..5 {
        game.evaluate();
        assert_eq!(alive_positions(&game), Vec::new());
    }
}

#[test]
fn blinker_turns_from_row_to_column() {
    let mut game = game_with_alive(&[(10, 10), (10, 11), (10, 12)]);
    game.evaluate();
    assert_eq!(alive_positions(&game), vec![(9, 11), (10, 11), (11, 11)]);
    // Of the original row, only the center survives.
    assert!(!game.get(10, 10));
    assert!(game.get(10, 11));
    assert!(!game.get(10, 12));
}

#[test]
fn dead_cell_born_with_exactly_three_neighbors() {
    // Three neighbors around the dead cell (20, 20): it is born.
    let mut game = game_with_alive(&[(19, 19), (19, 21), (21, 20)]);
    assert!(!game.get(20, 20));
    game.evaluate();
    assert!(game.get(20, 20));
}

#[test]
fn dead_cell_not_born_with_two_neighbors() {
    let mut game = game_with_alive(&[(19, 19), (19, 21)]);
    game.evaluate();
    assert!(!game.get(20, 20));
}

#[test]
fn dead_cell_not_born_with_four_neighbors() {
    let mut game = game_with_alive(&[(19, 19), (19, 21), (21, 19), (21, 21)]);
    game.evaluate();
    assert!(!game.get(20, 20));
}

#[test]
fn live_cell_survives_with_two_neighbors() {
    let mut game = game_with_alive(&[(20, 20), (19, 19), (21, 21)]);
    game.evaluate();
    assert!(game.get(20, 20));
}

#[test]
fn live_cell_survives_with_three_neighbors() {
    let mut game = game_with_alive(&[(20, 20), (19, 19), (19, 21), (21, 20)]);
    game.evaluate();
    assert!(game.get(20, 20));
}

#[test]
fn live_cell_dies_of_loneliness() {
    let mut game = game_with_alive(&[(20, 20), (19, 19)]);
    game.evaluate();
    assert!(!game.get(20, 20));
}

#[test]
fn live_cell_dies_of_overcrowding() {
    let mut game = game_with_alive(&[(20, 20), (19, 19), (19, 20), (19, 21), (20, 19)]);
    game.evaluate();
    assert!(!game.get(20, 20));
}

#[test]
fn corner_cell_born_from_its_three_neighbors() {
    // (0, 0) has only (0, 1), (1, 0) and (1, 1) as neighbors; all three
    // ALIVE is exactly 3, so the corner is born.
    let mut game = game_with_alive(&[(0, 1), (1, 0), (1, 1)]);
    assert!(!game.get(0, 0));
    game.evaluate();
    assert!(game.get(0, 0));
}

#[test]
fn corner_cell_ignores_opposite_edges() {
    // If the grid wrapped around, (0, 0) would see (0, 49), (49, 0) and
    // (49, 49) as neighbors and survive with 3. It must not: out-of-bounds
    // positions never count, so the corner dies of loneliness.
    let mut game = game_with_alive(&[(0, 0), (0, 49), (49, 0), (49, 49)]);
    game.evaluate();
    assert!(!game.get(0, 0));
}

#[test]
fn missing_neighbors_are_not_alive() {
    // A lone corner cell has 0 live neighbors, not 5 phantom ones.
    let mut game = game_with_alive(&[(0, 0)]);
    game.evaluate();
    assert_eq!(alive_positions(&game), Vec::new());
}
