use tetris_core::board::{GameMap, Presence, NUM_BLOCKS_X};
use tetris_core::engine::{can_place, commit, get_block_matrix, Position};
use tetris_core::game_color::GameColor;
use tetris_core::piece::{Piece, PieceType};

// The I piece at rotation 0 (mask 17476) fills column 1 of its frame, rows
// 0 through 3; the O piece (mask 1632) fills columns 1 and 2, rows 1 and 2.

#[test]
fn block_matrix_matches_mask_bits() {
    let m = get_block_matrix(17476);
    for r in 0..4 {
        for c in 0..4 {
            if c == 1 {
                assert_eq!(m[r][c], Presence::Yes(GameColor::Red));
            } else {
                assert_eq!(m[r][c], Presence::No);
            }
        }
    }
    let full = get_block_matrix(u16::MAX);
    let none = get_block_matrix(0);
    for r in 0..4 {
        for c in 0..4 {
            assert_eq!(full[r][c], Presence::Yes(GameColor::Red));
            assert_eq!(none[r][c], Presence::No);
        }
    }
}

#[test]
fn can_place_accepts_open_positions() {
    let map = GameMap::new();
    let piece = Piece::from_type(PieceType::I);
    assert!(can_place(&piece, &Position { x: 4, y: 0 }, &map));
    assert!(can_place(&piece, &Position { x: 4, y: 16 }, &map));
    assert!(can_place(&piece, &Position { x: -1, y: 0 }, &map));
    assert!(can_place(&piece, &Position { x: 8, y: 0 }, &map));
}

#[test]
fn can_place_rejects_below_the_bottom() {
    let map = GameMap::new();
    let piece = Piece::from_type(PieceType::I);
    // lowest filled cell sits at row y + 3
    assert!(!can_place(&piece, &Position { x: 4, y: 17 }, &map));
    let flat = Piece::from_type(PieceType::O);
    // lowest filled cell sits at row y + 2
    assert!(can_place(&flat, &Position { x: 4, y: 17 }, &map));
    assert!(!can_place(&flat, &Position { x: 4, y: 18 }, &map));
}

#[test]
fn can_place_rejects_the_sides_on_visible_rows() {
    let map = GameMap::new();
    let piece = Piece::from_type(PieceType::O);
    // filled columns are x + 1 and x + 2
    assert!(can_place(&piece, &Position { x: -1, y: 0 }, &map));
    assert!(!can_place(&piece, &Position { x: -2, y: 0 }, &map));
    assert!(can_place(&piece, &Position { x: 7, y: 0 }, &map));
    assert!(!can_place(&piece, &Position { x: 8, y: 0 }, &map));
}

#[test]
fn can_place_ignores_the_sides_above_the_board() {
    let map = GameMap::new();
    let piece = Piece::from_type(PieceType::O);
    // all filled cells sit on negative rows, where no side check applies
    assert!(can_place(&piece, &Position { x: -2, y: -3 }, &map));
    assert!(can_place(&piece, &Position { x: 42, y: -3 }, &map));
    // one row lower the filled cells reach row 0 and the side check bites
    assert!(!can_place(&piece, &Position { x: -2, y: -2 }, &map));
}

#[test]
fn can_place_rejects_occupied_cells() {
    let mut map = GameMap::new();
    map.set_cell(3, 5, GameColor::Gray);
    let piece = Piece::from_type(PieceType::I);
    // the I column lands on column x + 1
    assert!(!can_place(&piece, &Position { x: 4, y: 0 }, &map));
    assert!(!can_place(&piece, &Position { x: 4, y: 3 }, &map));
    assert!(can_place(&piece, &Position { x: 5, y: 0 }, &map));
    assert!(can_place(&piece, &Position { x: 4, y: 4 }, &map));
}

#[test]
fn commit_writes_the_piece_color() {
    let mut map = GameMap::new();
    let piece = Piece::from_type(PieceType::I);
    commit(&piece, &Position { x: 4, y: 16 }, &mut map);
    for row in 16..20 {
        assert_eq!(map.cell_at(row, 5), Ok(Presence::Yes(GameColor::Cyan)));
    }
    assert_eq!(map.cell_at(15, 5), Ok(Presence::No));
    assert_eq!(map.cell_at(16, 4), Ok(Presence::No));
}

#[test]
fn commit_drops_cells_outside_the_board() {
    let mut map = GameMap::new();
    let piece = Piece::from_type(PieceType::O);
    // columns x + 1 = 9 and x + 2 = 10: the latter is silently dropped
    commit(&piece, &Position { x: 8, y: 10 }, &mut map);
    assert_eq!(map.cell_at(11, 9), Ok(Presence::Yes(GameColor::Yellow)));
    assert_eq!(map.cell_at(12, 9), Ok(Presence::Yes(GameColor::Yellow)));
    let mut occupied = 0;
    for row in 0..20 {
        for col in 0..NUM_BLOCKS_X {
            if let Ok(Presence::Yes(_)) = map.cell_at(row, col) {
                occupied += 1;
            }
        }
    }
    assert_eq!(occupied, 2);
    // rows above the top are dropped as well
    let mut upper = GameMap::new();
    commit(&piece, &Position { x: 4, y: -2 }, &mut upper);
    assert_eq!(upper.cell_at(0, 5), Ok(Presence::Yes(GameColor::Yellow)));
    assert_eq!(upper.cell_at(0, 6), Ok(Presence::Yes(GameColor::Yellow)));
    assert_eq!(upper.cell_at(1, 5), Ok(Presence::No));
}

#[test]
fn commits_complete_a_row_for_is_row_full() {
    let mut map = GameMap::new();
    let piece = Piece::from_type(PieceType::O);
    // O pieces at x = -1, 1, 3, 5, 7 cover columns 0..10 on rows 18 and 19
    for x in [-1, 1, 3, 5, 7] {
        let pos = Position { x, y: 17 };
        assert!(can_place(&piece, &pos, &map));
        commit(&piece, &pos, &mut map);
    }
    assert!(map.is_row_full(18));
    assert!(map.is_row_full(19));
    assert!(!map.is_row_full(17));
    assert_eq!(map.resolve_lines(), 2);
}
