//! In-game states of the play scene itself.

use vstd::prelude::*;

verus! {

/// Which screen the game shows.
#[derive(Clone, Copy, Debug, PartialEq, Eq, Structural, Hash)]
pub enum GameState {
    Splash,
    MainMenu,
    InGame,
}

impl Default for GameState {
    /// Play starts straight in the game scene.
    fn default() -> (r: Self)
        ensures
            r == GameState::InGame,
    {
        GameState::InGame
    }
}

/// Whether the play scene is running or paused.
#[derive(Clone, Copy, Debug, PartialEq, Eq, Structural, Hash)]
pub enum GamePhase {
    Playing,
    Paused,
}

impl Default for GamePhase {
    /// The play scene starts running.
    fn default() -> (r: Self)
        ensures
            r == GamePhase::Playing,
    {
        GamePhase::Playing
    }
}

} // verus!
