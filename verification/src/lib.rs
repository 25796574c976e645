//! Core of a falling-block puzzle game on a fixed 10 x 20 grid: piece shapes
//! and rotations as 16-bit masks, a board of colored cells, collision and
//! placement rules, line clearing, and score / level progression.

pub mod board;
pub mod engine;
pub mod game;
pub mod game_color;
pub mod piece;
pub mod progression;
