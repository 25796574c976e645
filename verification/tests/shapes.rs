use tetris_core::game_color::GameColor;
use tetris_core::piece::{Piece, PieceType};

const ALL_TYPES: [PieceType; 7] = [
    PieceType::I,
    PieceType::J,
    PieceType::L,
    PieceType::O,
    PieceType::S,
    PieceType::T,
    PieceType::Z,
];

#[test]
fn shape_table_exact_masks() {
    assert_eq!(Piece::from_type(PieceType::L).states, [17504, 1856, 1570, 736]);
    assert_eq!(Piece::from_type(PieceType::J).states, [8800, 1136, 1604, 3616]);
    assert_eq!(Piece::from_type(PieceType::S).states, [17952, 1728, 17952, 1728]);
    assert_eq!(Piece::from_type(PieceType::Z).states, [9792, 3168, 9792, 3168]);
    assert_eq!(Piece::from_type(PieceType::T).states, [17984, 3648, 19520, 19968]);
    assert_eq!(Piece::from_type(PieceType::I).states, [17476, 3840, 17476, 3840]);
    assert_eq!(Piece::from_type(PieceType::O).states, [1632, 1632, 1632, 1632]);
}

#[test]
fn shape_table_canonical_colors() {
    assert_eq!(Piece::from_type(PieceType::L).color, GameColor::Orange);
    assert_eq!(Piece::from_type(PieceType::J).color, GameColor::Blue);
    assert_eq!(Piece::from_type(PieceType::S).color, GameColor::Green);
    assert_eq!(Piece::from_type(PieceType::Z).color, GameColor::Red);
    assert_eq!(Piece::from_type(PieceType::T).color, GameColor::Purple);
    assert_eq!(Piece::from_type(PieceType::I).color, GameColor::Cyan);
    assert_eq!(Piece::from_type(PieceType::O).color, GameColor::Yellow);
}

#[test]
fn every_mask_fills_exactly_four_cells() {
    for t in ALL_TYPES {
        let p = Piece::from_type(t);
        for m in p.states {
            assert_eq!(m.count_ones(), 4, "mask {} of {:?}", m, t);
        }
    }
}

#[test]
fn new_piece_starts_at_rotation_zero() {
    for t in ALL_TYPES {
        assert_eq!(Piece::from_type(t).current_state, 0);
    }
}

#[test]
fn rotation_wraps_modulo_four() {
    let mut p = Piece::from_type(PieceType::T);
    assert_eq!(p.current_state, 0);
    p.rotate();
    assert_eq!(p.current_state, 1);
    assert_eq!(p.current_mask(), 3648);
    p.rotate();
    p.rotate();
    assert_eq!(p.current_state, 3);
    p.rotate();
    assert_eq!(p.current_state, 0);
    assert_eq!(p.current_mask(), 17984);
}

#[test]
fn random_pieces_are_from_the_shape_table() {
    for _ in 0..100 {
        let p = Piece::random();
        assert_eq!(p.current_state, 0);
        let expected = Piece::from_type(p.kind);
        assert_eq!(p.states, expected.states);
        assert_eq!(p.color, expected.color);
    }
}

#[test]
fn random_reaches_all_seven_kinds() {
    let mut seen = [false; 7];
    for _ in 0..500 {
        let p = Piece::random();
        let idx = ALL_TYPES.iter().position(|t| *t == p.kind).unwrap();
        seen[idx] = true;
    }
    assert!(seen.iter().all(|s| *s), "kinds seen: {:?}", seen);
}

#[test]
fn default_color_is_red() {
    assert_eq!(GameColor::default(), GameColor::Red);
}
