//! Session-wide messages: the events the game publishes about the run
//! as a whole.

use vstd::prelude::*;

verus! {

/// A new run was started.
#[derive(Debug, Clone, Copy, PartialEq, Eq, Structural)]
pub struct GameStarted;

/// The run was paused.
#[derive(Debug, Clone, Copy, PartialEq, Eq, Structural)]
pub struct GamePaused;

/// The run was resumed.
#[derive(Debug, Clone, Copy, PartialEq, Eq, Structural)]
pub struct GameResumed;

/// A level was completed.  How long the run took is kept by the engine
/// shell alongside this message.
#[derive(Debug, Clone, Copy, PartialEq, Eq, Structural)]
pub struct LevelCompleted {
    pub level_id: usize,
    pub score: u32,
}

/// The level is to be restarted.
#[derive(Debug, Clone, Copy, PartialEq, Eq, Structural)]
pub struct LevelRestart;

/// The player died, with the cause spelled out.
#[derive(Debug, Clone, PartialEq)]
pub struct PlayerDied {
    pub cause: String,
}

/// The score changed by the given amount.
#[derive(Debug, Clone, Copy, PartialEq, Eq, Structural)]
pub struct ScoreChanged(pub i32);

/// A sound effect to play.  The volume it plays at is the shell's
/// affair.
#[derive(Debug, Clone, Copy, PartialEq, Eq, Structural)]
pub enum SoundEffect {
    Jump,
    Collect,
    Die,
    Victory,
}

} // verus!
