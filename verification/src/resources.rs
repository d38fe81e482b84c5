//! Long-lived bookkeeping of the player's progress.

use vstd::prelude::*;

verus! {

/// Progress across levels: where the player is, what is unlocked, and
/// the lifetime tallies.  The total play time is clocked by the engine
/// shell.
#[derive(Debug)]
pub struct GameProgress {
    pub current_level: usize,
    pub unlocked_levels: Vec<usize>,
    pub total_score: u32,
    pub total_deaths: usize,
}

impl Default for GameProgress {
    /// A fresh save: at the first level with nothing unlocked and every
    /// tally at zero.
    fn default() -> (r: GameProgress)
        ensures
            r.current_level == 0,
            r.unlocked_levels@ == Seq::<usize>::empty(),
            r.total_score == 0,
            r.total_deaths == 0,
    {
        GameProgress {
            current_level: 0,
            unlocked_levels: Vec::new(),
            total_score: 0,
            total_deaths: 0,
        }
    }
}

} // verus!
