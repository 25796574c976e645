use tetris_core::board::{GameMap, OutOfBounds, Presence, NUM_BLOCKS_X, NUM_BLOCKS_Y};
use tetris_core::game_color::GameColor;

fn fill_row(map: &mut GameMap, row: usize, color: GameColor) {
    for col in 0..NUM_BLOCKS_X {
        map.set_cell(row, col, color);
    }
}

fn count_occupied(map: &GameMap) -> usize {
    let mut n = 0;
    for row in 0..NUM_BLOCKS_Y {
        for col in 0..NUM_BLOCKS_X {
            if let Ok(Presence::Yes(_)) = map.cell_at(row, col) {
                n += 1;
            }
        }
    }
    n
}

#[test]
fn new_board_is_empty_and_in_bounds() {
    let map = GameMap::new();
    assert_eq!(count_occupied(&map), 0);
    assert_eq!(map.cell_at(0, 0), Ok(Presence::No));
    assert_eq!(map.cell_at(NUM_BLOCKS_Y - 1, NUM_BLOCKS_X - 1), Ok(Presence::No));
}

#[test]
fn cell_at_rejects_out_of_bounds() {
    let map = GameMap::new();
    assert_eq!(map.cell_at(NUM_BLOCKS_Y, 0), Err(OutOfBounds));
    assert_eq!(map.cell_at(0, NUM_BLOCKS_X), Err(OutOfBounds));
    assert_eq!(map.cell_at(usize::MAX, usize::MAX), Err(OutOfBounds));
}

#[test]
fn set_cell_occupies_exactly_one_cell() {
    let mut map = GameMap::new();
    map.set_cell(5, 7, GameColor::Green);
    assert_eq!(map.cell_at(5, 7), Ok(Presence::Yes(GameColor::Green)));
    assert_eq!(count_occupied(&map), 1);
}

#[test]
fn row_is_full_only_when_all_ten_columns_are() {
    let mut map = GameMap::new();
    for col in 0..NUM_BLOCKS_X - 1 {
        map.set_cell(12, col, GameColor::Blue);
    }
    assert!(!map.is_row_full(12));
    map.set_cell(12, NUM_BLOCKS_X - 1, GameColor::Blue);
    assert!(map.is_row_full(12));
    assert!(!map.is_row_full(11));
}

#[test]
fn remove_and_insert_shift_rows() {
    let mut map = GameMap::new();
    map.set_cell(10, 3, GameColor::Pink);
    map.remove_row(15);
    map.insert_empty_row_at_top();
    // the marked row moved down by one; the board keeps its shape
    assert_eq!(map.cell_at(11, 3), Ok(Presence::Yes(GameColor::Pink)));
    assert_eq!(map.cell_at(10, 3), Ok(Presence::No));
    assert_eq!(count_occupied(&map), 1);
}

#[test]
fn full_row_scan_finds_ascending_indices() {
    let mut map = GameMap::new();
    fill_row(&mut map, 7, GameColor::Red);
    fill_row(&mut map, 3, GameColor::Cyan);
    assert_eq!(map.full_rows(), vec![3, 7]);
}

#[test]
fn full_row_scan_twice_yields_the_same_rows() {
    let mut map = GameMap::new();
    fill_row(&mut map, 0, GameColor::Red);
    fill_row(&mut map, 19, GameColor::Red);
    map.set_cell(9, 9, GameColor::Red);
    let first = map.full_rows();
    let second = map.full_rows();
    assert_eq!(first, second);
    assert_eq!(first, vec![0, 19]);
}

#[test]
fn resolve_lines_clears_rows_three_and_seven() {
    let mut map = GameMap::new();
    fill_row(&mut map, 3, GameColor::Orange);
    fill_row(&mut map, 7, GameColor::Purple);
    let cleared = map.resolve_lines();
    assert_eq!(cleared, 2);
    // still a full 20 x 10 board, and nothing is left occupied
    assert!(map.cell_at(NUM_BLOCKS_Y - 1, NUM_BLOCKS_X - 1).is_ok());
    assert_eq!(map.cell_at(NUM_BLOCKS_Y, 0), Err(OutOfBounds));
    assert_eq!(count_occupied(&map), 0);
    assert_eq!(map.cell_at(3, 0), Ok(Presence::No));
    assert_eq!(map.cell_at(7, 0), Ok(Presence::No));
}

#[test]
fn resolve_lines_shifts_rows_above_down() {
    let mut map = GameMap::new();
    map.set_cell(18, 0, GameColor::Green);
    fill_row(&mut map, 19, GameColor::Red);
    map.set_cell(2, 4, GameColor::Blue);
    let cleared = map.resolve_lines();
    assert_eq!(cleared, 1);
    // everything above the cleared bottom row moved down by one
    assert_eq!(map.cell_at(19, 0), Ok(Presence::Yes(GameColor::Green)));
    assert_eq!(map.cell_at(18, 0), Ok(Presence::No));
    assert_eq!(map.cell_at(3, 4), Ok(Presence::Yes(GameColor::Blue)));
    assert_eq!(count_occupied(&map), 2);
}

#[test]
fn resolve_lines_keeps_partial_rows_in_order() {
    let mut map = GameMap::new();
    map.set_cell(16, 1, GameColor::Cyan);
    fill_row(&mut map, 17, GameColor::Red);
    map.set_cell(18, 2, GameColor::Yellow);
    fill_row(&mut map, 19, GameColor::Red);
    let cleared = map.resolve_lines();
    assert_eq!(cleared, 2);
    assert_eq!(map.cell_at(18, 1), Ok(Presence::Yes(GameColor::Cyan)));
    assert_eq!(map.cell_at(19, 2), Ok(Presence::Yes(GameColor::Yellow)));
    assert_eq!(count_occupied(&map), 2);
}

#[test]
fn resolve_lines_on_settled_board_clears_nothing() {
    let mut map = GameMap::new();
    fill_row(&mut map, 19, GameColor::Red);
    assert_eq!(map.resolve_lines(), 1);
    assert_eq!(map.resolve_lines(), 0);
    assert_eq!(count_occupied(&map), 0);
}
