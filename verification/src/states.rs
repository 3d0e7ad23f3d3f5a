//! Application states and the outcome of a level.
use vstd::prelude::*;

verus! {

#[derive(Debug, Clone, Copy, PartialEq, Eq, Hash, Structural)]
pub enum AppState {
    ModelShowcase,
    AnimTest,
    /// Wait for the native render surface before spawning 3D entities.
    WaitingForWindow,
    MainMenu,
    LevelSelect,
    HeroSelect,
    Logbook,
    UpgradeShop,
    ModelDebug,
    Credits,
    Playing,
    Paused,
    GameOver,
}

impl Default for AppState {
    fn default() -> (r: Self)
        ensures
            r == AppState::WaitingForWindow,
    {
        AppState::WaitingForWindow
    }
}

/// Whether the player won or lost, set before entering `GameOver`.
#[derive(Debug, Clone, Copy, PartialEq, Eq, Structural)]
pub struct GameOutcome {
    pub victory: bool,
    /// 1 to 3 on a victory, by lives remaining; 0 on a defeat.
    pub stars: u8,
}

impl Default for GameOutcome {
    fn default() -> (r: Self)
        ensures
            r == (GameOutcome { victory: false, stars: 0 }),
    {
        GameOutcome { victory: false, stars: 0 }
    }
}

} // verus!
