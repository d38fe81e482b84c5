//! Session-level states: where the application is (loading, menus, in
//! game, editor) and, while in game, which phase the run is in.

use vstd::prelude::*;

verus! {

/// Top-level application state.
#[derive(Clone, Copy, Debug, PartialEq, Eq, Structural, Hash)]
pub enum AppState {
    Loading,
    Splash,
    MainMenu,
    InGame,
    LevelEditor,
}

impl Default for AppState {
    /// The application starts in the level editor.
    fn default() -> (r: Self)
        ensures
            r == AppState::LevelEditor,
    {
        AppState::LevelEditor
    }
}

/// Phase of a run while the application is in game.
#[derive(Clone, Copy, Debug, PartialEq, Eq, Structural, Hash)]
pub enum GamePhase {
    Playing,
    Paused,
    LevelComplete,
    LevelFailed,
}

impl Default for GamePhase {
    /// A run begins in the playing phase.
    fn default() -> (r: Self)
        ensures
            r == GamePhase::Playing,
    {
        GamePhase::Playing
    }
}

} // verus!
