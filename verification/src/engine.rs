use vstd::prelude::*;

use crate::board::{row_filled, GameMap, Presence, NUM_BLOCKS_X, NUM_BLOCKS_Y};
use crate::game_color::GameColor;
use crate::piece::{
    lemma_mask_has_a_cell, lemma_masks_have_four_cells, mask_bit, Piece,
};

verus! {

/// Board coordinate of a piece's local-frame origin (the top-left corner of
/// its 4 x 4 frame).
#[derive(Debug, Clone, Copy, PartialEq, Eq, Structural)]
pub struct Position {
    pub x: isize,
    pub y: isize,
}

/// A filled cell at absolute board coordinates (`row`, `col`) collides when
/// it lies at or below the bottom boundary, outside a side boundary while on
/// a row within `[0, height)`, or on an occupied board cell. Rows above the
/// board (negative `row`) are not checked against the sides.
pub open spec fn collides_cell(b: Seq<Seq<Presence>>, row: int, col: int) -> bool {
    ||| row >= NUM_BLOCKS_Y as int
    ||| row >= 0 && !(0 <= col < NUM_BLOCKS_X as int)
    ||| 0 <= row < NUM_BLOCKS_Y as int && 0 <= col < NUM_BLOCKS_X as int && b[row][col] is Yes
}

/// The mask anchored at (`x`, `y`) fits the board: no filled cell of its
/// 4 x 4 frame collides.
pub open spec fn mask_fits(mask: u16, x: int, y: int, b: Seq<Seq<Presence>>) -> bool {
    forall|i: u16|
        i < 16 && #[trigger] mask_bit(mask, i) ==> !collides_cell(
            b,
            y + i as int / 4,
            x + i as int % 4,
        )
}

/// Some filled cell among the first `n` frame cells of the mask anchored at
/// (`x`, `y`) lands on (`row`, `col`).
pub open spec fn mask_covers_upto(mask: u16, x: int, y: int, row: int, col: int, n: int) -> bool {
    exists|i: u16|
        i < n && #[trigger] mask_bit(mask, i) && y + i as int / 4 == row && x + i as int % 4
            == col
}

/// Some filled cell of the mask anchored at (`x`, `y`) lands on (`row`, `col`).
pub open spec fn mask_covers(mask: u16, x: int, y: int, row: int, col: int) -> bool {
    mask_covers_upto(mask, x, y, row, col, 16)
}

/// The board after burning the mask in: every covered in-bounds cell takes
/// the piece's color, every other cell keeps its value.
pub open spec fn committed_board(
    b: Seq<Seq<Presence>>,
    mask: u16,
    x: int,
    y: int,
    color: GameColor,
) -> Seq<Seq<Presence>> {
    Seq::new(
        b.len(),
        |r: int|
            Seq::new(
                b[r].len(),
                |c: int|
                    if mask_covers(mask, x, y, r, c) {
                        Presence::Yes(color)
                    } else {
                        b[r][c]
                    },
            ),
    )
}

/// Collision test: true iff the piece's current mask, anchored at the
/// candidate position, fits the board. Pure; callable for arbitrary
/// candidate positions.
pub fn can_place(piece: &Piece, pos: &Position, map: &GameMap) -> (r: bool)
    requires
        piece.wf(),
        map.wf(),
        pos.x <= isize::MAX - 3,
        pos.y <= isize::MAX - 3,
    ensures
        r == mask_fits(piece.spec_mask(), pos.x as int, pos.y as int, map@),
{
    let mask = piece.current_mask();
    for i in 0..16u16
        invariant
            map.wf(),
            pos.x <= isize::MAX - 3,
            pos.y <= isize::MAX - 3,
            mask == piece.spec_mask(),
            forall|j: u16|
                j < i && #[trigger] mask_bit(mask, j) ==> !collides_cell(
                    map@,
                    pos.y as int + j as int / 4,
                    pos.x as int + j as int % 4,
                ),
    {
        let shift: u16 = 15 - i;
        if mask & (1u16 << shift) != 0 {
            proof {
                assert(mask_bit(mask, i));
            }
            let block_y: isize = pos.y + (i / 4) as isize;
            let block_x: isize = pos.x + (i % 4) as isize;
            if block_y >= NUM_BLOCKS_Y as isize {
                proof {
                    assert(collides_cell(map@, block_y as int, block_x as int));
                }
                return false;
            }
            if block_y >= 0 {
                if block_x < 0 || block_x >= NUM_BLOCKS_X as isize {
                    proof {
                        assert(collides_cell(map@, block_y as int, block_x as int));
                    }
                    return false;
                }
                match map.get_cell(block_y as usize, block_x as usize) {
                    Presence::Yes(_) => {
                        proof {
                            assert(collides_cell(map@, block_y as int, block_x as int));
                        }
                        return false;
                    },
                    Presence::No => {},
                }
            }
            proof {
                assert(!collides_cell(map@, block_y as int, block_x as int));
            }
        }
    }
    true
}

/// Burns the piece's filled cells into the board at the given position; the
/// cells take the piece's color. Filled cells whose absolute coordinates lie
/// outside the board are silently dropped.
pub fn commit(piece: &Piece, pos: &Position, map: &mut GameMap)
    requires
        piece.wf(),
        old(map).wf(),
        pos.x <= isize::MAX - 3,
        pos.y <= isize::MAX - 3,
    ensures
        final(map).wf(),
        final(map)@ == committed_board(
            old(map)@,
            piece.spec_mask(),
            pos.x as int,
            pos.y as int,
            piece.color,
        ),
{
    let ghost orig = map@;
    let ghost x = pos.x as int;
    let ghost y = pos.y as int;
    let mask = piece.current_mask();
    let color = piece.color;
    for i in 0..16u16
        invariant
            map.wf(),
            orig.len() == NUM_BLOCKS_Y as int,
            forall|r: int| 0 <= r < orig.len() ==> (#[trigger] orig[r]).len() == NUM_BLOCKS_X
                as int,
            pos.x <= isize::MAX - 3,
            pos.y <= isize::MAX - 3,
            x == pos.x as int,
            y == pos.y as int,
            mask == piece.spec_mask(),
            color == piece.color,
            forall|r: int, c: int|
                0 <= r < NUM_BLOCKS_Y as int && 0 <= c < NUM_BLOCKS_X as int ==> #[trigger] map@[r][c]
                    == (if mask_covers_upto(mask, x, y, r, c, i as int) {
                    Presence::Yes(color)
                } else {
                    orig[r][c]
                }),
    {
        let shift: u16 = 15 - i;
        if mask & (1u16 << shift) != 0 {
            proof {
                assert(mask_bit(mask, i));
            }
            let block_y: isize = pos.y + (i / 4) as isize;
            let block_x: isize = pos.x + (i % 4) as isize;
            if block_y >= 0 && block_y < NUM_BLOCKS_Y as isize && block_x >= 0 && block_x
                < NUM_BLOCKS_X as isize {
                map.set_cell(block_y as usize, block_x as usize, color);
                proof {
                    assert forall|r: int, c: int|
                        0 <= r < NUM_BLOCKS_Y as int && 0 <= c < NUM_BLOCKS_X as int implies #[trigger] map@[r][c]
                        == (if mask_covers_upto(mask, x, y, r, c, i as int + 1) {
                        Presence::Yes(color)
                    } else {
                        orig[r][c]
                    }) by {
                        if r == block_y as int && c == block_x as int {
                            assert(mask_covers_upto(mask, x, y, r, c, i as int + 1));
                        } else {
                            if mask_covers_upto(mask, x, y, r, c, i as int + 1) {
                                let j = choose|j: u16|
                                    j < i as int + 1 && #[trigger] mask_bit(mask, j) && y
                                        + j as int / 4 == r && x + j as int % 4 == c;
                                assert(j < i);
                                assert(mask_covers_upto(mask, x, y, r, c, i as int));
                            }
                        }
                    }
                }
            } else {
                proof {
                    assert forall|r: int, c: int|
                        0 <= r < NUM_BLOCKS_Y as int && 0 <= c < NUM_BLOCKS_X as int implies (
                    mask_covers_upto(mask, x, y, r, c, i as int + 1) == mask_covers_upto(
                        mask,
                        x,
                        y,
                        r,
                        c,
                        i as int,
                    )) by {
                        if mask_covers_upto(mask, x, y, r, c, i as int + 1) {
                            let j = choose|j: u16|
                                j < i as int + 1 && #[trigger] mask_bit(mask, j) && y + j as int
                                    / 4 == r && x + j as int % 4 == c;
                            assert(j < i);
                        }
                    }
                }
            }
        } else {
            proof {
                assert(!mask_bit(mask, i));
                assert forall|r: int, c: int|
                    0 <= r < NUM_BLOCKS_Y as int && 0 <= c < NUM_BLOCKS_X as int implies (
                mask_covers_upto(mask, x, y, r, c, i as int + 1) == mask_covers_upto(
                    mask,
                    x,
                    y,
                    r,
                    c,
                    i as int,
                )) by {
                    if mask_covers_upto(mask, x, y, r, c, i as int + 1) {
                        let j = choose|j: u16|
                            j < i as int + 1 && #[trigger] mask_bit(mask, j) && y + j as int / 4
                                == r && x + j as int % 4 == c;
                        assert(j < i);
                    }
                }
            }
        }
    }
    proof {
        assert(map@ =~~= committed_board(orig, mask, x, y, color));
    }
}

/// A 4 x 4 frame of cells, row-major, as drawing code reads a mask.
pub type PieceMatrix = [[Presence; 4]; 4];

/// One frame cell of a mask, as the matrix helper fills it.
fn matrix_cell(num: u16, i: u16) -> (p: Presence)
    requires
        i < 16,
    ensures
        p == if mask_bit(num, i) {
            Presence::Yes(GameColor::Red)
        } else {
            Presence::No
        },
{
    let shift: u16 = 15 - i;
    if num & (1u16 << shift) != 0 {
        proof {
            assert(mask_bit(num, i));
        }
        Presence::Yes(GameColor::Red)
    } else {
        proof {
            assert(!mask_bit(num, i));
        }
        Presence::No
    }
}

/// Expands a 16-bit orientation mask into its 4 x 4 cell frame. The frame
/// carries shape only; filled cells take a fixed placeholder color, and
/// drawing reads the live piece's own color separately.
pub fn get_block_matrix(num: u16) -> (m: PieceMatrix)
    ensures
        forall|r: int, c: int|
            0 <= r < 4 && 0 <= c < 4 ==> #[trigger] m@[r]@[c] == (if mask_bit(
                num,
                (4 * r + c) as u16,
            ) {
                Presence::Yes(GameColor::Red)
            } else {
                Presence::No
            }),
{
    let m: PieceMatrix = [
        [matrix_cell(num, 0), matrix_cell(num, 1), matrix_cell(num, 2), matrix_cell(num, 3)],
        [matrix_cell(num, 4), matrix_cell(num, 5), matrix_cell(num, 6), matrix_cell(num, 7)],
        [matrix_cell(num, 8), matrix_cell(num, 9), matrix_cell(num, 10), matrix_cell(num, 11)],
        [matrix_cell(num, 12), matrix_cell(num, 13), matrix_cell(num, 14), matrix_cell(num, 15)],
    ];
    m
}

/// A well-formed piece that fits somewhere at or below the board's top edge
/// stays within these anchor bounds: its mask fills cells, and every filled
/// cell must clear the bottom and the sides.
pub proof fn lemma_fits_bounds(p: Piece, x: int, y: int, b: Seq<Seq<Presence>>)
    requires
        p.wf(),
        mask_fits(p.spec_mask(), x, y, b),
        y >= 0,
    ensures
        y < NUM_BLOCKS_Y as int,
        -3 <= x < NUM_BLOCKS_X as int,
{
    lemma_masks_have_four_cells(p.kind, p.current_state as int);
    lemma_mask_has_a_cell(p.spec_mask());
    let i = choose|i: u16| i < 16 && mask_bit(p.spec_mask(), i);
    assert(!collides_cell(b, y + i as int / 4, x + i as int % 4));
    assert(0 <= i as int / 4 < 4);
    assert(0 <= i as int % 4 < 4);
}

/// Law: a placement is rejected whenever any filled cell of the mask maps to
/// a row at or below the bottom boundary, or onto an occupied in-bounds
/// board cell.
pub proof fn lemma_placement_rejected(mask: u16, x: int, y: int, b: Seq<Seq<Presence>>, i: u16)
    requires
        i < 16,
        mask_bit(mask, i),
        (y + i as int / 4 >= NUM_BLOCKS_Y as int) || (0 <= y + i as int / 4 < NUM_BLOCKS_Y as int
            && 0 <= x + i as int % 4 < NUM_BLOCKS_X as int && b[y + i as int / 4][x + i as int
            % 4] is Yes),
    ensures
        !mask_fits(mask, x, y, b),
{
}

/// Law: a committed cell is occupied, and an occupied cell stays occupied
/// across a commit.
pub proof fn lemma_commit_keeps_occupied(
    b: Seq<Seq<Presence>>,
    mask: u16,
    x: int,
    y: int,
    color: GameColor,
    row: int,
    col: int,
)
    requires
        0 <= row < b.len(),
        0 <= col < b[row].len(),
        b[row][col] is Yes || mask_covers(mask, x, y, row, col),
    ensures
        committed_board(b, mask, x, y, color)[row][col] is Yes,
{
}

/// Law: a commit that, together with the cells already occupied, covers all
/// ten columns of a row leaves that row fully occupied.
pub proof fn lemma_commit_fills_row(
    b: Seq<Seq<Presence>>,
    mask: u16,
    x: int,
    y: int,
    color: GameColor,
    row: int,
)
    requires
        0 <= row < b.len(),
        b[row].len() == NUM_BLOCKS_X as int,
        forall|c: int|
            0 <= c < NUM_BLOCKS_X as int ==> b[row][c] is Yes || mask_covers(mask, x, y, row, c),
    ensures
        row_filled(committed_board(b, mask, x, y, color)[row]),
{
}

} // verus!
