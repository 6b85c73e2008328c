//! Core simulation of a 2D vertical arcade shooter.
//!
//! The library holds the verified gameplay logic: timers, collision
//! detection and resolution, the spawn/wave director, stage progression,
//! the player state machine and the item effect resolver.  Rendering,
//! audio and input sampling live outside; the core receives plain values
//! (frame deltas, input snapshots, oscillation factors) and hands back
//! state changes and cues for the surrounding layer to perform.
//!
//! Distances are measured in milli-pixels and durations in milliseconds,
//! so every quantity is an integer and every formula is exact.

pub mod animation;
pub mod bullet;
pub mod collision;
pub mod effects;
pub mod enemy;
pub mod explosion;
pub mod geom;
pub mod item;
pub mod laws;
pub mod player;
pub mod rng;
pub mod score;
pub mod stage;
pub mod timer;
pub mod wave;
pub mod world;

use vstd::prelude::*;

verus! {

/// Top-level mode of the game.
#[derive(Clone, Copy, PartialEq, Eq, Structural, Debug)]
pub enum GameState {
    Title,
    StageSelect,
    Playing,
    Clear,
}

/// Edge-triggered conditions that drive a mode change.
#[derive(Clone, Copy, PartialEq, Eq, Structural, Debug)]
pub enum GameEvent {
    /// Confirm was pressed on the title screen.
    StartPressed,
    /// A stage was chosen on the select screen.
    StageChosen,
    /// The last wave of the stage was cleared.
    StageCleared,
    /// Restart was pressed on the clear screen.
    RestartPressed,
    /// The game-over prompt was confirmed after the player died.
    GameOverConfirmed,
}

/// Where an event leads from a given mode; events that do not apply to
/// the current mode leave it unchanged.
pub open spec fn transition_spec(s: GameState, e: GameEvent) -> GameState {
    match (s, e) {
        (GameState::Title, GameEvent::StartPressed) => GameState::StageSelect,
        (GameState::StageSelect, GameEvent::StageChosen) => GameState::Playing,
        (GameState::Playing, GameEvent::StageCleared) => GameState::Clear,
        (GameState::Playing, GameEvent::GameOverConfirmed) => GameState::Title,
        (GameState::Clear, GameEvent::RestartPressed) => GameState::Playing,
        _ => s,
    }
}

/// Advances the top-level mode on an event.
pub fn game_state_transition(s: GameState, e: GameEvent) -> (r: GameState)
    ensures
        r == transition_spec(s, e),
{
    match (s, e) {
        (GameState::Title, GameEvent::StartPressed) => GameState::StageSelect,
        (GameState::StageSelect, GameEvent::StageChosen) => GameState::Playing,
        (GameState::Playing, GameEvent::StageCleared) => GameState::Clear,
        (GameState::Playing, GameEvent::GameOverConfirmed) => GameState::Title,
        (GameState::Clear, GameEvent::RestartPressed) => GameState::Playing,
        _ => s,
    }
}

/// Labels for the setup and teardown phases of a session: assets are
/// ready before entities spawn, and cleanup runs last.
#[derive(Clone, PartialEq, Eq, Structural, Hash, Debug)]
pub enum MySystemSet {
    LoadAssets,
    SpawnEntities,
    Cleanup,
}

} // verus!
