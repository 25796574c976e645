use vstd::prelude::*;

use crate::game_color::GameColor;

verus! {

broadcast use vstd::array::group_array_axioms;

/// The seven piece kinds of the game.
#[derive(Debug, Clone, Copy, PartialEq, Eq, Structural)]
pub enum PieceType {
    I,
    J,
    L,
    O,
    S,
    T,
    Z,
}

/// True when bit `15 - i` of `mask` is set, i.e. when cell `i` (row `i / 4`,
/// column `i % 4`) of a piece's 4 x 4 local frame is filled.
pub open spec fn mask_bit(mask: u16, i: u16) -> bool
    recommends
        i < 16,
{
    mask & (1u16 << ((15 - i) as u16)) != 0
}

/// Number of filled cells a 16-bit orientation mask encodes.
pub open spec fn mask_cell_count(mask: u16) -> int {
    (if mask_bit(mask, 0) { 1int } else { 0int })
    + (if mask_bit(mask, 1) { 1int } else { 0int })
    + (if mask_bit(mask, 2) { 1int } else { 0int })
    + (if mask_bit(mask, 3) { 1int } else { 0int })
    + (if mask_bit(mask, 4) { 1int } else { 0int })
    + (if mask_bit(mask, 5) { 1int } else { 0int })
    + (if mask_bit(mask, 6) { 1int } else { 0int })
    + (if mask_bit(mask, 7) { 1int } else { 0int })
    + (if mask_bit(mask, 8) { 1int } else { 0int })
    + (if mask_bit(mask, 9) { 1int } else { 0int })
    + (if mask_bit(mask, 10) { 1int } else { 0int })
    + (if mask_bit(mask, 11) { 1int } else { 0int })
    + (if mask_bit(mask, 12) { 1int } else { 0int })
    + (if mask_bit(mask, 13) { 1int } else { 0int })
    + (if mask_bit(mask, 14) { 1int } else { 0int })
    + (if mask_bit(mask, 15) { 1int } else { 0int })
}

/// The four orientation masks of a piece kind, indexed by rotation state.
pub open spec fn piece_masks(t: PieceType) -> Seq<u16> {
    match t {
        PieceType::L => seq![17504u16, 1856u16, 1570u16, 736u16],
        PieceType::J => seq![8800u16, 1136u16, 1604u16, 3616u16],
        PieceType::S => seq![17952u16, 1728u16, 17952u16, 1728u16],
        PieceType::Z => seq![9792u16, 3168u16, 9792u16, 3168u16],
        PieceType::T => seq![17984u16, 3648u16, 19520u16, 19968u16],
        PieceType::I => seq![17476u16, 3840u16, 17476u16, 3840u16],
        PieceType::O => seq![1632u16, 1632u16, 1632u16, 1632u16],
    }
}

/// The canonical color of a piece kind.
pub open spec fn piece_color(t: PieceType) -> GameColor {
    match t {
        PieceType::L => GameColor::Orange,
        PieceType::J => GameColor::Blue,
        PieceType::S => GameColor::Green,
        PieceType::Z => GameColor::Red,
        PieceType::T => GameColor::Purple,
        PieceType::I => GameColor::Cyan,
        PieceType::O => GameColor::Yellow,
    }
}

/// A live falling piece: its kind, canonical color, rotation state in
/// `[0, 4)`, and the four cached orientation masks of its kind.
#[derive(Debug, Clone, Copy)]
pub struct Piece {
    pub kind: PieceType,
    pub color: GameColor,
    pub current_state: usize,
    pub states: [u16; 4],
}

impl Piece {
    /// The piece carries exactly the shape table's data for its kind and a
    /// rotation state within bounds.
    pub open spec fn wf(self) -> bool {
        &&& self.states@ == piece_masks(self.kind)
        &&& self.color == piece_color(self.kind)
        &&& self.current_state < 4
    }

    /// The orientation mask selected by the current rotation state.
    pub open spec fn spec_mask(self) -> u16
        recommends
            self.wf(),
    {
        piece_masks(self.kind)[self.current_state as int]
    }

    /// Builds the piece for a kind from the fixed shape table, at rotation
    /// state 0.
    pub fn from_type(piece_type: PieceType) -> (p: Piece)
        ensures
            p.wf(),
            p.kind == piece_type,
            p.current_state == 0,
    {
        match piece_type {
            PieceType::L => Piece {
                kind: piece_type,
                color: GameColor::Orange,
                current_state: 0,
                states: [17504u16, 1856u16, 1570u16, 736u16],
            },
            PieceType::J => Piece {
                kind: piece_type,
                color: GameColor::Blue,
                current_state: 0,
                states: [8800u16, 1136u16, 1604u16, 3616u16],
            },
            PieceType::S => Piece {
                kind: piece_type,
                color: GameColor::Green,
                current_state: 0,
                states: [17952u16, 1728u16, 17952u16, 1728u16],
            },
            PieceType::Z => Piece {
                kind: piece_type,
                color: GameColor::Red,
                current_state: 0,
                states: [9792u16, 3168u16, 9792u16, 3168u16],
            },
            PieceType::T => Piece {
                kind: piece_type,
                color: GameColor::Purple,
                current_state: 0,
                states: [17984u16, 3648u16, 19520u16, 19968u16],
            },
            PieceType::I => Piece {
                kind: piece_type,
                color: GameColor::Cyan,
                current_state: 0,
                states: [17476u16, 3840u16, 17476u16, 3840u16],
            },
            PieceType::O => Piece {
                kind: piece_type,
                color: GameColor::Yellow,
                current_state: 0,
                states: [1632u16, 1632u16, 1632u16, 1632u16],
            },
        }
    }

    /// Returns the cached mask for the current rotation state.
    pub fn current_mask(&self) -> (m: u16)
        requires
            self.wf(),
        ensures
            m == self.spec_mask(),
    {
        self.states[self.current_state]
    }

    /// Picks one of the seven kinds at random and builds its piece. Which
    /// kind comes back is left open; every outcome is a well-formed piece at
    /// rotation state 0.
    pub fn random() -> (p: Piece)
        ensures
            p.wf(),
            p.current_state == 0,
    {
        let piece_type = match random_piece_index() {
            0 => PieceType::L,
            1 => PieceType::J,
            2 => PieceType::S,
            3 => PieceType::Z,
            4 => PieceType::T,
            5 => PieceType::I,
            _ => PieceType::O,
        };
        Piece::from_type(piece_type)
    }

    /// Advances the rotation state by one, wrapping from 3 back to 0. Only
    /// the rotation index changes; kind, color and masks stay.
    pub fn rotate(&mut self)
        requires
            old(self).wf(),
        ensures
            final(self).wf(),
            final(self).kind == old(self).kind,
            final(self).color == old(self).color,
            final(self).states == old(self).states,
            final(self).current_state == (old(self).current_state + 1) % 4,
    {
        self.current_state = (self.current_state + 1) % 4;
    }
}

/// Relies on rand's `thread_rng` and `Rng::gen_range`: a draw from the
/// non-empty range `0..7` returns a value below 7 and does not panic.
#[verifier::external_body]
fn random_piece_index() -> (r: usize)
    ensures
        r < 7,
{
    rand::Rng::gen_range(&mut rand::thread_rng(), 0..7)
}

/// Four-cell counts for one kind's four mask constants, one helper per
/// kind so that each stays within the solver's budget.
proof fn lemma_l_mask_counts()
    ensures
        mask_cell_count(17504u16) == 4,
        mask_cell_count(1856u16) == 4,
        mask_cell_count(1570u16) == 4,
        mask_cell_count(736u16) == 4,
{
    assert(mask_cell_count(17504u16) == 4) by (bit_vector);
    assert(mask_cell_count(1856u16) == 4) by (bit_vector);
    assert(mask_cell_count(1570u16) == 4) by (bit_vector);
    assert(mask_cell_count(736u16) == 4) by (bit_vector);
}

proof fn lemma_j_mask_counts()
    ensures
        mask_cell_count(8800u16) == 4,
        mask_cell_count(1136u16) == 4,
        mask_cell_count(1604u16) == 4,
        mask_cell_count(3616u16) == 4,
{
    assert(mask_cell_count(8800u16) == 4) by (bit_vector);
    assert(mask_cell_count(1136u16) == 4) by (bit_vector);
    assert(mask_cell_count(1604u16) == 4) by (bit_vector);
    assert(mask_cell_count(3616u16) == 4) by (bit_vector);
}

proof fn lemma_s_z_mask_counts()
    ensures
        mask_cell_count(17952u16) == 4,
        mask_cell_count(1728u16) == 4,
        mask_cell_count(9792u16) == 4,
        mask_cell_count(3168u16) == 4,
{
    assert(mask_cell_count(17952u16) == 4) by (bit_vector);
    assert(mask_cell_count(1728u16) == 4) by (bit_vector);
    assert(mask_cell_count(9792u16) == 4) by (bit_vector);
    assert(mask_cell_count(3168u16) == 4) by (bit_vector);
}

proof fn lemma_t_mask_counts()
    ensures
        mask_cell_count(17984u16) == 4,
        mask_cell_count(3648u16) == 4,
        mask_cell_count(19520u16) == 4,
        mask_cell_count(19968u16) == 4,
{
    assert(mask_cell_count(17984u16) == 4) by (bit_vector);
    assert(mask_cell_count(3648u16) == 4) by (bit_vector);
    assert(mask_cell_count(19520u16) == 4) by (bit_vector);
    assert(mask_cell_count(19968u16) == 4) by (bit_vector);
}

proof fn lemma_i_o_mask_counts()
    ensures
        mask_cell_count(17476u16) == 4,
        mask_cell_count(3840u16) == 4,
        mask_cell_count(1632u16) == 4,
{
    assert(mask_cell_count(17476u16) == 4) by (bit_vector);
    assert(mask_cell_count(3840u16) == 4) by (bit_vector);
    assert(mask_cell_count(1632u16) == 4) by (bit_vector);
}

/// Law: every orientation mask of every piece kind fills exactly four cells
/// of its 4 x 4 frame.
pub proof fn lemma_masks_have_four_cells(t: PieceType, r: int)
    requires
        0 <= r < 4,
    ensures
        mask_cell_count(piece_masks(t)[r]) == 4,
{
    match t {
        PieceType::L => lemma_l_mask_counts(),
        PieceType::J => lemma_j_mask_counts(),
        PieceType::S => lemma_s_z_mask_counts(),
        PieceType::Z => lemma_s_z_mask_counts(),
        PieceType::T => lemma_t_mask_counts(),
        PieceType::I => lemma_i_o_mask_counts(),
        PieceType::O => lemma_i_o_mask_counts(),
    }
}

/// A mask that fills four cells fills at least one: some bit below 16 is set.
pub proof fn lemma_mask_has_a_cell(mask: u16)
    requires
        mask_cell_count(mask) == 4,
    ensures
        exists|i: u16| i < 16 && mask_bit(mask, i),
{
    if forall|i: u16| i < 16 ==> !mask_bit(mask, i) {
        assert(!mask_bit(mask, 0) && !mask_bit(mask, 1) && !mask_bit(mask, 2)
            && !mask_bit(mask, 3) && !mask_bit(mask, 4) && !mask_bit(mask, 5)
            && !mask_bit(mask, 6) && !mask_bit(mask, 7) && !mask_bit(mask, 8)
            && !mask_bit(mask, 9) && !mask_bit(mask, 10) && !mask_bit(mask, 11)
            && !mask_bit(mask, 12) && !mask_bit(mask, 13) && !mask_bit(mask, 14)
            && !mask_bit(mask, 15));
        assert(mask_cell_count(mask) == 0);
    }
}

} // verus!
