//! The phase of the game, which gates the gameplay systems.
use vstd::prelude::*;

verus! {

/// Phases of a game. Only `LoadingScreen` → `Playing` is ever taken; the two
/// later phases are declared for features that do not exist yet.
#[derive(Clone, Copy, Debug, PartialEq, Eq, Structural)]
pub enum GameState {
    LoadingScreen,
    Playing,
    Upgrading,
    GameOver,
}

impl GameState {
    /// The first phase: the loading screen when assets are preloaded, else
    /// play at once.
    pub fn initial(preloads_assets: bool) -> (r: GameState)
        ensures
            r == (if preloads_assets {
                GameState::LoadingScreen
            } else {
                GameState::Playing
            }),
    {
        if preloads_assets {
            GameState::LoadingScreen
        } else {
            GameState::Playing
        }
    }

    pub open spec fn after_assets_loaded_spec(self) -> GameState {
        if self is LoadingScreen {
            GameState::Playing
        } else {
            self
        }
    }

    /// The phase once every declared asset has loaded: the loading screen
    /// gives way to play; any other phase stays.
    pub fn after_assets_loaded(self) -> (r: GameState)
        ensures
            r == self.after_assets_loaded_spec(),
    {
        match self {
            GameState::LoadingScreen => GameState::Playing,
            other => other,
        }
    }

    /// Whether the gameplay systems run in this phase.
    pub fn is_playing(&self) -> (r: bool)
        ensures
            r == (*self is Playing),
    {
        match self {
            GameState::Playing => true,
            _ => false,
        }
    }
}

} // verus!
