//! What each session-wide message does to the session states.
//!
//! The engine shell reads the messages off its bus and applies the
//! transitions decided here.

use vstd::prelude::*;

use crate::message::{GamePaused, GameResumed, GameStarted, LevelCompleted, PlayerDied};
use crate::states::{AppState, GamePhase};

verus! {

/// Starting a run puts the session in game, playing.
pub fn handle_game_started(msg: &GameStarted) -> (r: (AppState, GamePhase))
    ensures
        r == (AppState::InGame, GamePhase::Playing),
{
    let _ = msg;
    (AppState::InGame, GamePhase::Playing)
}

/// Pausing holds the run in the paused phase.
pub fn handle_game_paused(msg: &GamePaused) -> (r: GamePhase)
    ensures
        r == GamePhase::Paused,
{
    let _ = msg;
    GamePhase::Paused
}

/// Resuming puts the run back in the playing phase.
pub fn handle_game_resumed(msg: &GameResumed) -> (r: GamePhase)
    ensures
        r == GamePhase::Playing,
{
    let _ = msg;
    GamePhase::Playing
}

/// A death fails the level, whatever the cause says.
pub fn handle_player_died(msg: &PlayerDied) -> (r: GamePhase)
    ensures
        r == GamePhase::LevelFailed,
{
    let _ = msg;
    GamePhase::LevelFailed
}

/// Completing a level ends the run in the completed phase, whichever
/// level it was.
pub fn handle_level_completed(msg: &LevelCompleted) -> (r: GamePhase)
    ensures
        r == GamePhase::LevelComplete,
{
    let _ = msg;
    GamePhase::LevelComplete
}

} // verus!
