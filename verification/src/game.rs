use vstd::prelude::*;

use crate::board::{
    cleared_board, empty_rows, num_full_rows, GameMap, Presence, NUM_BLOCKS_X, NUM_BLOCKS_Y,
};
use crate::engine::{
    can_place, commit, committed_board, lemma_fits_bounds, mask_fits, Position,
};
use crate::piece::{piece_masks, Piece, PieceType};
use crate::progression::{level_after, on_lines_cleared, score_after, Level, Score};

verus! {

/// Whether play continues. GameOver is terminal: gravity ticks and spawning
/// halt, and only an external new game leaves it.
#[derive(Debug, Clone, Copy, PartialEq, Eq, Hash, Structural)]
pub enum GameState {
    Playing,
    GameOver,
}

impl Default for GameState {
    fn default() -> (r: Self)
        ensures
            r == GameState::Playing,
    {
        GameState::Playing
    }
}

/// Terminal signal from the spawner: the freshly drawn piece collides at
/// the spawn anchor. A normal, expected end of play, not a failure.
#[derive(Debug, Clone, Copy, PartialEq, Eq, Structural)]
pub struct GameOver;

/// Spawn anchor, column: half the board width minus one.
pub const SPAWN_X: isize = 4;

/// Spawn anchor, row: the top of the board.
pub const SPAWN_Y: isize = 0;

/// Draws a random piece and tests it at the spawn anchor.
fn draw_and_check(map: &GameMap) -> (r: (Piece, bool))
    requires
        map.wf(),
    ensures
        r.0.wf(),
        r.0.current_state == 0,
        r.1 == mask_fits(r.0.spec_mask(), SPAWN_X as int, SPAWN_Y as int, map@),
{
    let p = Piece::random();
    let pos = Position { x: SPAWN_X, y: SPAWN_Y };
    let ok = can_place(&p, &pos, map);
    (p, ok)
}

/// Picks a piece kind uniformly at random and places the new piece at the
/// spawn anchor; if it collides there, returns the terminal game-over
/// signal instead. This is the sole game-over detection path: in
/// particular, when every kind's spawn placement collides, the result is
/// the game-over signal whatever was drawn.
pub fn spawn(map: &GameMap) -> (r: Result<Piece, GameOver>)
    requires
        map.wf(),
    ensures
        (match r {
            Ok(p) => p.wf() && p.current_state == 0 && mask_fits(
                p.spec_mask(),
                SPAWN_X as int,
                SPAWN_Y as int,
                map@,
            ),
            Err(_) => exists|t: PieceType|
                !mask_fits(piece_masks(t)[0], SPAWN_X as int, SPAWN_Y as int, map@),
        }),
        (forall|t: PieceType|
            !mask_fits(#[trigger] piece_masks(t)[0], SPAWN_X as int, SPAWN_Y as int, map@))
            ==> r is Err,
{
    let (p, ok) = draw_and_check(map);
    if ok {
        proof {
            assert(mask_fits(piece_masks(p.kind)[0], SPAWN_X as int, SPAWN_Y as int, map@));
        }
        Ok(p)
    } else {
        proof {
            assert(!mask_fits(piece_masks(p.kind)[0], SPAWN_X as int, SPAWN_Y as int, map@));
        }
        Err(GameOver)
    }
}

/// The whole in-memory game the host owns: board, live piece and its
/// anchor, score, level, and whether play continues. The host mutates it
/// only through the intents and the gravity tick.
#[derive(Debug, Clone)]
pub struct Game {
    pub map: GameMap,
    pub piece: Piece,
    pub pos: Position,
    pub score: Score,
    pub level: Level,
    pub state: GameState,
}

impl Game {
    /// Internal consistency: the board keeps its shape, the piece carries
    /// its kind's shape data, and the anchor stays within the band that
    /// fitting placements allow: never above the top, never past the
    /// bottom, never more than a frame's width beyond a side.
    pub open spec fn wf(self) -> bool {
        &&& self.map.wf()
        &&& self.piece.wf()
        &&& 0 <= self.pos.y < NUM_BLOCKS_Y as int
        &&& -3 <= self.pos.x < NUM_BLOCKS_X as int
    }

    /// The board as it stands right after the live piece lands, before
    /// lines resolve.
    pub open spec fn landed_board(self) -> Seq<Seq<Presence>> {
        committed_board(
            self.map@,
            self.piece.spec_mask(),
            self.pos.x as int,
            self.pos.y as int,
            self.piece.color,
        )
    }

    /// How many rows a landing completes.
    pub open spec fn landed_lines(self) -> int {
        num_full_rows(self.landed_board())
    }

    /// The board after the live piece lands and completed lines resolve.
    pub open spec fn landed_map(self) -> Seq<Seq<Presence>> {
        cleared_board(self.landed_board())
    }

    /// What one gravity step does. After game over nothing changes. While
    /// play continues, the piece moves down if the lower placement fits;
    /// otherwise it burns into the board and a fresh random piece stands at
    /// the spawn anchor, play continuing exactly when that piece fits there
    /// on the just-committed board. Either way the tick then resolves
    /// completed lines and applies the cleared count to score and level —
    /// on an unchanged board that resolution is a harmless no-op.
    pub open spec fn tick_rel(pre: Game, post: Game) -> bool {
        &&& (pre.state is GameOver ==> post == pre)
        &&& (pre.state is Playing && mask_fits(
            pre.piece.spec_mask(),
            pre.pos.x as int,
            pre.pos.y as int + 1,
            pre.map@,
        ) ==> {
            &&& post.map@ == cleared_board(pre.map@)
            &&& post.piece == pre.piece
            &&& post.pos.x == pre.pos.x
            &&& post.pos.y == pre.pos.y + 1
            &&& post.score == score_after(pre.score, num_full_rows(pre.map@))
            &&& post.level == level_after(pre.level, num_full_rows(pre.map@))
            &&& post.state is Playing
        })
        &&& (pre.state is Playing && !mask_fits(
            pre.piece.spec_mask(),
            pre.pos.x as int,
            pre.pos.y as int + 1,
            pre.map@,
        ) ==> {
            &&& post.map@ == pre.landed_map()
            &&& post.score == score_after(pre.score, pre.landed_lines())
            &&& post.level == level_after(pre.level, pre.landed_lines())
            &&& post.piece.wf()
            &&& post.piece.current_state == 0
            &&& post.pos.x == SPAWN_X
            &&& post.pos.y == SPAWN_Y
            &&& (post.state is Playing <==> mask_fits(
                post.piece.spec_mask(),
                SPAWN_X as int,
                SPAWN_Y as int,
                pre.landed_board(),
            ))
        })
    }

    /// Starts a new game: empty board, zero score and level, and a random
    /// first piece at the spawn anchor. On an empty board every piece fits
    /// there, so play always starts.
    pub fn new() -> (g: Game)
        ensures
            g.wf(),
            g.map@ == empty_rows(NUM_BLOCKS_Y as int),
            g.score.value == 0,
            g.level.value == 0,
            g.level.lines_cleared_in_level == 0,
            g.state is Playing,
            g.pos.x == SPAWN_X,
            g.pos.y == SPAWN_Y,
            g.piece.current_state == 0,
    {
        let map = GameMap::new();
        let piece = Piece::random();
        Game {
            map,
            piece,
            pos: Position { x: SPAWN_X, y: SPAWN_Y },
            score: Score { value: 0 },
            level: Level { value: 0, lines_cleared_in_level: 0 },
            state: GameState::Playing,
        }
    }

    /// One gravity step: the only way time passes in the core. The host
    /// scheduler calls this at the period `gravity_interval_ms` gives.
    pub fn advance_gravity_tick(&mut self)
        requires
            old(self).wf(),
            old(self).score.value <= u32::MAX - 2000,
            old(self).level.value < u32::MAX,
            old(self).level.lines_cleared_in_level <= u32::MAX - 20,
        ensures
            final(self).wf(),
            Game::tick_rel(*old(self), *final(self)),
    {
        match self.state {
            GameState::GameOver => {
                return ;
            },
            GameState::Playing => {},
        }
        let next = Position { x: self.pos.x, y: self.pos.y + 1 };
        if can_place(&self.piece, &next, &self.map) {
            proof {
                lemma_fits_bounds(self.piece, next.x as int, next.y as int, self.map@);
            }
            self.pos = next;
        } else {
            commit(&self.piece, &self.pos, &mut self.map);
            let (p, ok) = draw_and_check(&self.map);
            self.piece = p;
            self.pos = Position { x: SPAWN_X, y: SPAWN_Y };
            if !ok {
                self.state = GameState::GameOver;
            }
        }
        let n = self.map.resolve_lines();
        proof {
            assert(n <= NUM_BLOCKS_Y);
        }
        on_lines_cleared(&mut self.score, &mut self.level, n as u32);
    }

    /// The soft-drop intent: one immediate downward step, identical to a
    /// gravity tick.
    pub fn move_down(&mut self)
        requires
            old(self).wf(),
            old(self).score.value <= u32::MAX - 2000,
            old(self).level.value < u32::MAX,
            old(self).level.lines_cleared_in_level <= u32::MAX - 20,
        ensures
            final(self).wf(),
            Game::tick_rel(*old(self), *final(self)),
    {
        self.advance_gravity_tick();
    }

    /// The move-left intent: shifts the live piece one column left exactly
    /// when play continues and the shifted placement fits.
    pub fn move_left(&mut self)
        requires
            old(self).wf(),
        ensures
            final(self).wf(),
            final(self).map@ == old(self).map@,
            final(self).piece == old(self).piece,
            final(self).score == old(self).score,
            final(self).level == old(self).level,
            final(self).state == old(self).state,
            final(self).pos.y == old(self).pos.y,
            final(self).pos.x == (if old(self).state is Playing && mask_fits(
                old(self).piece.spec_mask(),
                old(self).pos.x as int - 1,
                old(self).pos.y as int,
                old(self).map@,
            ) {
                old(self).pos.x as int - 1
            } else {
                old(self).pos.x as int
            }),
    {
        match self.state {
            GameState::GameOver => {
                return ;
            },
            GameState::Playing => {},
        }
        let next = Position { x: self.pos.x - 1, y: self.pos.y };
        if can_place(&self.piece, &next, &self.map) {
            proof {
                lemma_fits_bounds(self.piece, next.x as int, next.y as int, self.map@);
            }
            self.pos = next;
        }
    }

    /// The move-right intent: shifts the live piece one column right exactly
    /// when play continues and the shifted placement fits.
    pub fn move_right(&mut self)
        requires
            old(self).wf(),
        ensures
            final(self).wf(),
            final(self).map@ == old(self).map@,
            final(self).piece == old(self).piece,
            final(self).score == old(self).score,
            final(self).level == old(self).level,
            final(self).state == old(self).state,
            final(self).pos.y == old(self).pos.y,
            final(self).pos.x == (if old(self).state is Playing && mask_fits(
                old(self).piece.spec_mask(),
                old(self).pos.x as int + 1,
                old(self).pos.y as int,
                old(self).map@,
            ) {
                old(self).pos.x as int + 1
            } else {
                old(self).pos.x as int
            }),
    {
        match self.state {
            GameState::GameOver => {
                return ;
            },
            GameState::Playing => {},
        }
        let next = Position { x: self.pos.x + 1, y: self.pos.y };
        if can_place(&self.piece, &next, &self.map) {
            proof {
                lemma_fits_bounds(self.piece, next.x as int, next.y as int, self.map@);
            }
            self.pos = next;
        }
    }

    /// The rotate intent: advances the rotation state by one (wrapping at
    /// four) exactly when play continues and the rotated placement fits.
    pub fn rotate(&mut self)
        requires
            old(self).wf(),
        ensures
            final(self).wf(),
            final(self).map@ == old(self).map@,
            final(self).score == old(self).score,
            final(self).level == old(self).level,
            final(self).state == old(self).state,
            final(self).pos == old(self).pos,
            final(self).piece.kind == old(self).piece.kind,
            final(self).piece.color == old(self).piece.color,
            final(self).piece.states == old(self).piece.states,
            final(self).piece.current_state as int == (if old(self).state is Playing && mask_fits(
                piece_masks(old(self).piece.kind)[(old(self).piece.current_state + 1) % 4],
                old(self).pos.x as int,
                old(self).pos.y as int,
                old(self).map@,
            ) {
                (old(self).piece.current_state + 1) % 4
            } else {
                old(self).piece.current_state as int
            }),
    {
        match self.state {
            GameState::GameOver => {
                return ;
            },
            GameState::Playing => {},
        }
        let mut p = self.piece;
        p.rotate();
        if can_place(&p, &self.pos, &self.map) {
            self.piece = p;
        }
    }

    /// The pause intent: the core holds no timer, so this changes nothing;
    /// the host suspends its tick scheduler instead.
    pub fn pause(&mut self)
        ensures
            *final(self) == *old(self),
    {
    }
}

/// Law: the score never decreases across a gravity step with counter
/// headroom — at most twenty rows can clear, worth at most 2000 points.
pub proof fn lemma_tick_score_monotonic(pre: Game, post: Game)
    requires
        pre.wf(),
        Game::tick_rel(pre, post),
        pre.score.value <= u32::MAX - 2000,
    ensures
        post.score.value >= pre.score.value,
{
    if pre.state is Playing {
        if mask_fits(
            pre.piece.spec_mask(),
            pre.pos.x as int,
            pre.pos.y as int + 1,
            pre.map@,
        ) {
            assert(0 <= num_full_rows(pre.map@) <= NUM_BLOCKS_Y);
        } else {
            assert(pre.landed_board().len() == NUM_BLOCKS_Y);
            assert(0 <= pre.landed_lines() <= NUM_BLOCKS_Y);
        }
    }
}

} // verus!
