//! Reference data and derived statistics for an old-school fantasy MMORPG:
//! experience/level conversion, hiscores parsing, quest catalogs, and a few
//! small combat formulas.

pub mod accounts;
pub mod boss;
pub mod clue;
pub mod content;
pub mod diaries;
pub mod hiscores;
pub mod optimal_quest_guide;
pub mod quest;
pub mod quests;
pub mod skill;
pub mod text;
pub mod wintertodt;
pub mod xp;

pub use xp::{level_from_xp, progress_towards_level, xp_til_level, LevelProgress};

use vstd::prelude::*;

verus! {

/// A skill level, in the modeled range 1 to 99.
#[derive(Debug, Clone, Copy, PartialEq, Eq, Hash, Structural)]
pub struct Level(pub i32);

/// Cumulative experience points. Thresholds in the experience table are
/// whole numbers, so experience is modeled as an integer count.
#[derive(Debug, Clone, Copy, PartialEq, Eq, Structural)]
pub struct Xp(pub i64);

impl Level {
    pub fn is_99(&self) -> (r: bool)
        ensures
            r == (self.0 == 99),
    {
        self.0 == 99
    }
}

impl Default for Level {
    /// The default level is 1, the lowest modeled level.
    fn default() -> (r: Self)
        ensures
            r.0 == 1,
    {
        Level(1)
    }
}

impl Default for Xp {
    /// The default experience is 0.
    fn default() -> (r: Self)
        ensures
            r.0 == 0,
    {
        Xp(0)
    }
}

impl Xp {
    /// The larger of two experience values.
    pub fn max(&self, other: &Self) -> (r: Self)
        ensures
            r.0 == if self.0 >= other.0 { self.0 } else { other.0 },
    {
        if self.0 >= other.0 {
            Xp(self.0)
        } else {
            Xp(other.0)
        }
    }
}

} // verus!
