use vstd::prelude::*;

verus! {

/// Lines needed within a level to advance to the next one.
pub const LINES_PER_LEVEL: u32 = 10;

/// Points awarded per cleared line.
pub const POINTS_PER_LINE: u32 = 100;

/// The running score: non-negative, non-decreasing during play.
#[derive(Debug, Clone, Copy, PartialEq, Eq, Structural)]
pub struct Score {
    pub value: u32,
}

impl Default for Score {
    fn default() -> (r: Self)
        ensures
            r.value == 0,
    {
        Score { value: 0 }
    }
}

/// The current level, with the count of lines cleared since the last
/// level-up.
#[derive(Debug, Clone, Copy, PartialEq, Eq, Structural)]
pub struct Level {
    pub value: u32,
    pub lines_cleared_in_level: u32,
}

impl Default for Level {
    fn default() -> (r: Self)
        ensures
            r.value == 0,
            r.lines_cleared_in_level == 0,
    {
        Level { value: 0, lines_cleared_in_level: 0 }
    }
}

/// The score after `n` cleared lines: 100 points per line; no change when
/// nothing cleared.
pub open spec fn score_after(s: Score, n: int) -> Score
    recommends
        0 <= n,
        s.value + n * POINTS_PER_LINE <= u32::MAX,
{
    if n == 0 {
        s
    } else {
        Score { value: (s.value + n * POINTS_PER_LINE) as u32 }
    }
}

/// The level after `n` cleared lines: the carried counter grows by `n`; on
/// reaching 10 the level advances by one and the counter resets to 0, so
/// lines beyond the tenth of one resolution are discarded, not carried
/// forward.
pub open spec fn level_after(l: Level, n: int) -> Level
    recommends
        0 <= n,
        l.lines_cleared_in_level + n <= u32::MAX,
        l.value < u32::MAX,
{
    if n == 0 {
        l
    } else {
        let carried = l.lines_cleared_in_level + n;
        if carried >= LINES_PER_LEVEL {
            Level { value: (l.value + 1) as u32, lines_cleared_in_level: 0 }
        } else {
            Level { value: l.value, lines_cleared_in_level: carried as u32 }
        }
    }
}

/// Applies a line-clear result to the progression counters.
pub fn on_lines_cleared(score: &mut Score, level: &mut Level, n: u32)
    requires
        old(score).value + n * POINTS_PER_LINE <= u32::MAX,
        old(level).lines_cleared_in_level + n <= u32::MAX,
        old(level).value < u32::MAX,
    ensures
        *final(score) == score_after(*old(score), n as int),
        *final(level) == level_after(*old(level), n as int),
{
    if n > 0 {
        score.value = score.value + n * POINTS_PER_LINE;
        level.lines_cleared_in_level = level.lines_cleared_in_level + n;
        if level.lines_cleared_in_level >= LINES_PER_LEVEL {
            level.value = level.value + 1;
            level.lines_cleared_in_level = 0;
        }
    }
}

/// The gravity-tick period for a level, in milliseconds: it starts at one
/// second, shortens by 50 ms per level, and is floored at 100 ms.
pub open spec fn gravity_interval_millis(level: u32) -> int {
    if level >= 18 {
        100
    } else {
        1000 - 50 * level as int
    }
}

/// Derives the gravity-tick period from the level, in milliseconds. The
/// host scheduler re-arms its tick timer with this period whenever the
/// level changes.
pub fn gravity_interval_ms(level: u32) -> (ms: u64)
    ensures
        ms as int == gravity_interval_millis(level),
        100 <= ms <= 1000,
{
    if level >= 18 {
        100
    } else {
        1000 - 50 * (level as u64)
    }
}

} // verus!
