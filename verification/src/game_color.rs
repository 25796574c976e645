use vstd::prelude::*;

verus! {

/// Fixed palette for board cells and pieces. A cell stores a color only
/// together with its occupancy, never on its own.
#[derive(Debug, Clone, Copy, PartialEq, Eq, Structural)]
pub enum GameColor {
    Red,
    Green,
    Blue,
    Yellow,
    Cyan,
    Orange,
    Purple,
    Gray,
    Pink,
}

impl Default for GameColor {
    fn default() -> (r: Self)
        ensures
            r == GameColor::Red,
    {
        GameColor::Red
    }
}

} // verus!
