use vstd::prelude::*;

use crate::game_color::GameColor;

verus! {

broadcast use vstd::seq_lib::group_seq_properties;

/// Board width in cells.
pub const NUM_BLOCKS_X: usize = 10;

/// Board height in rows.
pub const NUM_BLOCKS_Y: usize = 20;

/// One board cell: empty, or occupied together with its color.
#[derive(Debug, Clone, Copy, PartialEq, Eq, Structural)]
pub enum Presence {
    No,
    Yes(GameColor),
}

/// Error for a cell query outside the board; surfacing it means a caller
/// passed unvalidated coordinates.
#[derive(Debug, Clone, Copy, PartialEq, Eq, Structural)]
pub struct OutOfBounds;

/// True when every cell of `row` is occupied.
pub open spec fn row_filled(row: Seq<Presence>) -> bool {
    forall|c: int| 0 <= c < NUM_BLOCKS_X ==> row[c] is Yes
}

/// A row of empty cells.
pub open spec fn empty_row() -> Seq<Presence> {
    Seq::new(NUM_BLOCKS_X as nat, |c: int| Presence::No)
}

/// `n` empty rows.
pub open spec fn empty_rows(n: int) -> Seq<Seq<Presence>>
    recommends
        n >= 0,
{
    Seq::new(n as nat, |r: int| empty_row())
}

/// The rows of a board that are not fully occupied, in order.
pub open spec fn rows_kept(b: Seq<Seq<Presence>>) -> Seq<Seq<Presence>> {
    b.filter(|row: Seq<Presence>| !row_filled(row))
}

/// How many rows of a board are fully occupied.
pub open spec fn num_full_rows(b: Seq<Seq<Presence>>) -> int {
    b.len() - rows_kept(b).len()
}

/// The board after a line clear: one empty row inserted at the top for each
/// full row removed, every other row kept in order.
pub open spec fn cleared_board(b: Seq<Seq<Presence>>) -> Seq<Seq<Presence>> {
    empty_rows(num_full_rows(b)) + rows_kept(b)
}

/// The ascending indices of the fully occupied rows of a board.
pub open spec fn full_row_indices(b: Seq<Seq<Presence>>) -> Seq<int> {
    Seq::new(b.len(), |r: int| r).filter(|r: int| row_filled(b[r]))
}

/// The playfield: a fixed 20-row by 10-column grid of cells, viewed as a
/// sequence of rows from top to bottom.
#[derive(Debug, Clone)]
pub struct GameMap {
    cells: Vec<Vec<Presence>>,
}

impl View for GameMap {
    type V = Seq<Seq<Presence>>;

    closed spec fn view(&self) -> Seq<Seq<Presence>> {
        Seq::new(self.cells@.len(), |r: int| self.cells@[r]@)
    }
}

impl GameMap {
    /// Every row has the fixed width.
    pub open spec fn rows_wf(self) -> bool {
        forall|r: int| 0 <= r < self@.len() ==> (#[trigger] self@[r]).len() == NUM_BLOCKS_X
    }

    /// The full board shape: 20 rows of 10 cells.
    pub open spec fn wf(self) -> bool {
        &&& self@.len() == NUM_BLOCKS_Y
        &&& self.rows_wf()
    }

    /// Builds the empty board.
    pub fn new() -> (m: GameMap)
        ensures
            m.wf(),
            m@ == empty_rows(NUM_BLOCKS_Y as int),
    {
        let mut cells: Vec<Vec<Presence>> = Vec::new();
        for r in 0..NUM_BLOCKS_Y
            invariant
                cells@.len() == r,
                forall|i: int| 0 <= i < r ==> (#[trigger] cells@[i])@ == empty_row(),
        {
            let mut row: Vec<Presence> = Vec::new();
            for c in 0..NUM_BLOCKS_X
                invariant
                    row@.len() == c,
                    forall|j: int| 0 <= j < c ==> row@[j] is No,
            {
                row.push(Presence::No);
            }
            proof {
                assert(row@ =~= empty_row());
            }
            cells.push(row);
        }
        let m = GameMap { cells };
        proof {
            assert(m@ =~= empty_rows(NUM_BLOCKS_Y as int));
        }
        m
    }

    /// Reads one pre-validated cell.
    pub fn get_cell(&self, row: usize, col: usize) -> (p: Presence)
        requires
            self.wf(),
            row < NUM_BLOCKS_Y,
            col < NUM_BLOCKS_X,
        ensures
            p == self@[row as int][col as int],
    {
        proof {
            assert(self@[row as int] == self.cells@[row as int]@);
        }
        self.cells[row][col]
    }

    /// Reads one cell; in-bounds coordinates give the cell, anything else the
    /// out-of-bounds error.
    pub fn cell_at(&self, row: usize, col: usize) -> (r: Result<Presence, OutOfBounds>)
        requires
            self.wf(),
        ensures
            row < NUM_BLOCKS_Y && col < NUM_BLOCKS_X ==> r == Ok::<Presence, OutOfBounds>(
                self@[row as int][col as int],
            ),
            !(row < NUM_BLOCKS_Y && col < NUM_BLOCKS_X) ==> r == Err::<Presence, OutOfBounds>(
                OutOfBounds,
            ),
    {
        if row < NUM_BLOCKS_Y && col < NUM_BLOCKS_X {
            proof {
                assert(self@[row as int] == self.cells@[row as int]@);
            }
            Ok(self.cells[row][col])
        } else {
            Err(OutOfBounds)
        }
    }

    /// Overwrites one pre-validated cell as occupied with the given color.
    pub fn set_cell(&mut self, row: usize, col: usize, color: GameColor)
        requires
            old(self).wf(),
            row < NUM_BLOCKS_Y,
            col < NUM_BLOCKS_X,
        ensures
            final(self).wf(),
            final(self)@ == old(self)@.update(
                row as int,
                old(self)@[row as int].update(col as int, Presence::Yes(color)),
            ),
    {
        proof {
            assert(self@[row as int] == self.cells@[row as int]@);
        }
        let mut r = self.cells.remove(row);
        r[col] = Presence::Yes(color);
        self.cells.insert(row, r);
        proof {
            assert(self@ =~= old(self)@.update(
                row as int,
                old(self)@[row as int].update(col as int, Presence::Yes(color)),
            ));
        }
    }

    /// True iff every cell of the given row is occupied.
    pub fn is_row_full(&self, row: usize) -> (r: bool)
        requires
            self.wf(),
            row < NUM_BLOCKS_Y,
        ensures
            r == row_filled(self@[row as int]),
    {
        for col in 0..NUM_BLOCKS_X
            invariant
                self.wf(),
                row < NUM_BLOCKS_Y,
                forall|c: int| 0 <= c < col ==> self@[row as int][c] is Yes,
        {
            proof {
                assert(self@[row as int] == self.cells@[row as int]@);
            }
            match self.cells[row][col] {
                Presence::No => {
                    return false;
                },
                Presence::Yes(_) => {},
            }
        }
        true
    }

    /// Structural primitive of the line-clear resolver: drops one row,
    /// shifting the rows below it up.
    pub fn remove_row(&mut self, row: usize)
        requires
            old(self).rows_wf(),
            row < old(self)@.len(),
        ensures
            final(self).rows_wf(),
            final(self)@ == old(self)@.remove(row as int),
    {
        self.cells.remove(row);
        proof {
            assert(self@ =~= old(self)@.remove(row as int));
        }
    }

    /// Structural primitive of the line-clear resolver: pushes an empty row
    /// in at the top, shifting every row down.
    pub fn insert_empty_row_at_top(&mut self)
        requires
            old(self).rows_wf(),
        ensures
            final(self).rows_wf(),
            final(self)@ == seq![empty_row()] + old(self)@,
    {
        let mut row: Vec<Presence> = Vec::new();
        for c in 0..NUM_BLOCKS_X
            invariant
                row@.len() == c,
                forall|j: int| 0 <= j < c ==> row@[j] is No,
        {
            row.push(Presence::No);
        }
        proof {
            assert(row@ =~= empty_row());
        }
        self.cells.insert(0, row);
        proof {
            assert(self@ =~= seq![empty_row()] + old(self)@);
        }
    }

    /// Scans the board for fully occupied rows; returns their indices in
    /// ascending order.
    pub fn full_rows(&self) -> (r: Vec<usize>)
        requires
            self.wf(),
        ensures
            r@.map_values(|u: usize| u as int) == full_row_indices(self@),
    {
        let mut found: Vec<usize> = Vec::new();
        for row in 0..NUM_BLOCKS_Y
            invariant
                self.wf(),
                found@.map_values(|u: usize| u as int) == Seq::new(row as nat, |r: int| r).filter(
                    |r: int| row_filled(self@[r]),
                ),
        {
            proof {
                reveal(Seq::filter);
                assert(Seq::new((row + 1) as nat, |r: int| r).drop_last() =~= Seq::new(
                    row as nat,
                    |r: int| r,
                ));
            }
            if self.is_row_full(row) {
                let ghost prev = found@;
                found.push(row);
                proof {
                    assert(found@.map_values(|u: usize| u as int) =~= prev.map_values(
                        |u: usize| u as int,
                    ).push(row as int));
                }
            }
        }
        proof {
            assert(Seq::new(NUM_BLOCKS_Y as nat, |r: int| r) =~= Seq::new(
                self@.len(),
                |r: int| r,
            ));
        }
        found
    }
    /// Resolves completed lines: removes every fully occupied row, inserts an
    /// empty row at the top for each, and returns how many rows were cleared.
    pub fn resolve_lines(&mut self) -> (n: usize)
        requires
            old(self).wf(),
        ensures
            final(self).wf(),
            n as int == num_full_rows(old(self)@),
            final(self)@ == cleared_board(old(self)@),
    {
        let ghost orig = self@;
        let mut cleared: usize = 0;
        for y in 0..NUM_BLOCKS_Y
            invariant
                self.wf(),
                orig.len() == NUM_BLOCKS_Y,
                cleared <= y,
                cleared as int == y - rows_kept(orig.subrange(0, y as int)).len(),
                self@ == empty_rows(cleared as int) + rows_kept(orig.subrange(0, y as int))
                    + orig.subrange(y as int, NUM_BLOCKS_Y as int),
        {
            let ghost pre = orig.subrange(0, y as int);
            let ghost kept = rows_kept(pre);
            let ghost tail = orig.subrange(y as int, NUM_BLOCKS_Y as int);
            proof {
                assert(orig.subrange(0, y + 1) =~= pre.push(orig[y as int]));
                assert(tail =~= seq![orig[y as int]] + orig.subrange(
                    y + 1,
                    NUM_BLOCKS_Y as int,
                ));
                lemma_rows_kept_push(pre, orig[y as int]);
                assert(self@[y as int] == orig[y as int]);
            }
            if self.is_row_full(y) {
                self.remove_row(y);
                proof {
                    assert(self@ =~= empty_rows(cleared as int) + kept + orig.subrange(
                        y + 1,
                        NUM_BLOCKS_Y as int,
                    ));
                }
                self.insert_empty_row_at_top();
                cleared = cleared + 1;
                proof {
                    assert(self@ =~= empty_rows(cleared as int) + rows_kept(orig.subrange(
                        0,
                        y + 1,
                    )) + orig.subrange(y + 1, NUM_BLOCKS_Y as int));
                }
            } else {
                proof {
                    assert(self@ =~= empty_rows(cleared as int) + rows_kept(orig.subrange(
                        0,
                        y + 1,
                    )) + orig.subrange(y + 1, NUM_BLOCKS_Y as int));
                }
            }
        }
        proof {
            assert(orig.subrange(0, NUM_BLOCKS_Y as int) =~= orig);
            assert(self@ =~= empty_rows(cleared as int) + rows_kept(orig));
        }
        cleared
    }
}

/// Appending a row to a board keeps it in the kept rows exactly when it is
/// not fully occupied.
proof fn lemma_rows_kept_push(s: Seq<Seq<Presence>>, r: Seq<Presence>)
    ensures
        rows_kept(s.push(r)) == if row_filled(r) {
            rows_kept(s)
        } else {
            rows_kept(s).push(r)
        },
{
    reveal(Seq::filter);
    assert(s.push(r).drop_last() =~= s);
    assert(s.push(r).last() == r);
}

/// Law: the scan for full rows is a pure function of the board, so scanning
/// twice without mutation in between yields the same row set both times.
pub proof fn lemma_full_row_scan_deterministic(
    b: Seq<Seq<Presence>>,
    r1: Seq<int>,
    r2: Seq<int>,
)
    requires
        r1 == full_row_indices(b),
        r2 == full_row_indices(b),
    ensures
        r1 == r2,
{
}

} // verus!
