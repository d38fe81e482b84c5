use ice_nudel_salat::message::{GamePaused, GameResumed, GameStarted, LevelCompleted, PlayerDied};
use ice_nudel_salat::message_handlers::{
    handle_game_paused, handle_game_resumed, handle_game_started, handle_level_completed,
    handle_player_died,
};
use ice_nudel_salat::resources::GameProgress;
use ice_nudel_salat::states::{AppState, GamePhase};

#[test]
fn test_game_phase_default() {
    let phase = GamePhase::default();
    assert_eq!(phase, GamePhase::Playing);
}

#[test]
fn test_all_app_states_are_different() {
    assert_ne!(AppState::Loading, AppState::MainMenu);
    assert_ne!(AppState::MainMenu, AppState::InGame);
    assert_ne!(AppState::InGame, AppState::Splash);
}

#[test]
fn test_game_progress_default() {
    let progress = GameProgress::default();
    assert_eq!(progress.current_level, 0);
    assert_eq!(progress.total_score, 0);
    assert_eq!(progress.total_deaths, 0);
    assert!(progress.unlocked_levels.is_empty());
}

#[test]
fn test_game_progress_mutation() {
    let mut progress = GameProgress::default();
    progress.current_level = 5;
    progress.total_score = 1000;
    progress.unlocked_levels.push(1);
    progress.unlocked_levels.push(2);

    assert_eq!(progress.current_level, 5);
    assert_eq!(progress.total_score, 1000);
    assert_eq!(progress.unlocked_levels.len(), 2);
}

#[test]
fn game_started_enters_play() {
    let (state, phase) = handle_game_started(&GameStarted);
    assert_eq!(state, AppState::InGame);
    assert_eq!(phase, GamePhase::Playing);
}

#[test]
fn pause_and_resume_toggle_phase() {
    assert_eq!(handle_game_paused(&GamePaused), GamePhase::Paused);
    assert_eq!(handle_game_resumed(&GameResumed), GamePhase::Playing);
}

#[test]
fn player_death_fails_level() {
    let msg = PlayerDied { cause: "Fell into pit".to_owned() };
    assert_eq!(handle_player_died(&msg), GamePhase::LevelFailed);
}

#[test]
fn level_completion_completes_phase() {
    let msg = LevelCompleted { level_id: 3, score: 1000 };
    assert_eq!(handle_level_completed(&msg), GamePhase::LevelComplete);
}
