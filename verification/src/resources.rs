//! Game-wide state shared by the systems.
use vstd::prelude::*;

use crate::data::{EnemyType, HeroType, PlayerAbilityType};

verus! {

/// An entity of the game world, by its stable bit pattern.
pub type EntityId = u64;

// ---------------------------------------------------------------------------
// Difficulty
// ---------------------------------------------------------------------------

#[derive(Clone, Copy, PartialEq, Eq, Debug, Structural)]
pub enum Difficulty {
    Easy,
    Normal,
    Hard,
}

impl Default for Difficulty {
    fn default() -> (r: Self)
        ensures
            r == Difficulty::Easy,
    {
        Difficulty::Easy
    }
}

impl Difficulty {
    pub open spec fn label_spec(self) -> Seq<char> {
        match self {
            Difficulty::Easy => "Easy"@,
            Difficulty::Normal => "Normal"@,
            Difficulty::Hard => "Hard"@,
        }
    }

    pub fn label(self) -> (r: &'static str)
        ensures
            r@ == self.label_spec(),
    {
        match self {
            Difficulty::Easy => "Easy",
            Difficulty::Normal => "Normal",
            Difficulty::Hard => "Hard",
        }
    }

    pub open spec fn starting_lives_spec(self) -> u32 {
        match self {
            Difficulty::Easy => 20,
            Difficulty::Normal => 15,
            Difficulty::Hard => 10,
        }
    }

    /// Starting lives: the same on every level, set by the difficulty.
    pub fn starting_lives(self) -> (r: u32)
        ensures
            r == self.starting_lives_spec(),
    {
        match self {
            Difficulty::Easy => 20,
            Difficulty::Normal => 15,
            Difficulty::Hard => 10,
        }
    }

    pub open spec fn gold_mult_pct_spec(self) -> u32 {
        match self {
            Difficulty::Easy => 125,
            Difficulty::Normal => 100,
            Difficulty::Hard => 85,
        }
    }

    /// Multiplier on the starting gold, in percent.
    pub fn gold_mult_pct(self) -> (r: u32)
        ensures
            r == self.gold_mult_pct_spec(),
    {
        match self {
            Difficulty::Easy => 125,
            Difficulty::Normal => 100,
            Difficulty::Hard => 85,
        }
    }

    pub open spec fn enemy_hp_mult_pct_spec(self) -> u32 {
        match self {
            Difficulty::Easy => 85,
            Difficulty::Normal => 100,
            Difficulty::Hard => 120,
        }
    }

    /// Multiplier on enemy hit points, in percent.
    pub fn enemy_hp_mult_pct(self) -> (r: u32)
        ensures
            r == self.enemy_hp_mult_pct_spec(),
    {
        match self {
            Difficulty::Easy => 85,
            Difficulty::Normal => 100,
            Difficulty::Hard => 120,
        }
    }

    pub open spec fn enemy_speed_mult_pct_spec(self) -> u32 {
        match self {
            Difficulty::Easy => 95,
            Difficulty::Normal => 100,
            Difficulty::Hard => 110,
        }
    }

    /// Multiplier on enemy speed, in percent.
    pub fn enemy_speed_mult_pct(self) -> (r: u32)
        ensures
            r == self.enemy_speed_mult_pct_spec(),
    {
        match self {
            Difficulty::Easy => 95,
            Difficulty::Normal => 100,
            Difficulty::Hard => 110,
        }
    }

    /// The rank of a difficulty, easiest first.
    pub open spec fn rank(self) -> int {
        match self {
            Difficulty::Easy => 0,
            Difficulty::Normal => 1,
            Difficulty::Hard => 2,
        }
    }
}

/// A harder difficulty never gives more lives or more gold, and never gives enemies
/// fewer hit points or less speed.
pub proof fn lemma_difficulty_monotone(a: Difficulty, b: Difficulty)
    requires
        a.rank() <= b.rank(),
    ensures
        b.starting_lives_spec() <= a.starting_lives_spec(),
        b.gold_mult_pct_spec() <= a.gold_mult_pct_spec(),
        a.enemy_hp_mult_pct_spec() <= b.enemy_hp_mult_pct_spec(),
        a.enemy_speed_mult_pct_spec() <= b.enemy_speed_mult_pct_spec(),
{
}

// ---------------------------------------------------------------------------
// Per-level game data
// ---------------------------------------------------------------------------

#[derive(Clone, Copy, PartialEq, Eq, Debug, Structural)]
pub struct GameData {
    pub gold: u32,
    pub lives: u32,
    pub max_lives: u32,
    pub wave_number: u32,
    pub max_waves: u32,
}

impl Default for GameData {
    fn default() -> (r: Self)
        ensures
            r == (GameData { gold: 220, lives: 20, max_lives: 20, wave_number: 0, max_waves: 10 }),
    {
        GameData { gold: 220, lives: 20, max_lives: 20, wave_number: 0, max_waves: 10 }
    }
}

// ---------------------------------------------------------------------------
// Wave progress
// ---------------------------------------------------------------------------

#[derive(Clone, Copy, PartialEq, Eq, Debug, Structural)]
pub enum WavePhase {
    Idle,
    Spawning,
    PulsePause,
    Active,
}

impl Default for WavePhase {
    fn default() -> (r: Self)
        ensures
            r == WavePhase::Idle,
    {
        WavePhase::Idle
    }
}

/// One group of a running wave.
#[derive(Clone, Copy, PartialEq, Eq, Debug, Structural)]
pub struct SpawnGroup {
    pub enemy_type: EnemyType,
    pub count: u32,
    pub interval_ms: u32,
    /// Time before this group starts, relative to the start of its pulse.
    pub delay_ms: u32,
    /// Which pulse this group belongs to.
    pub pulse: u32,
}

/// Spawning progress of the current wave. The timers that run beside it
/// (time since the last spawn, since the pulse started, since the pause started)
/// are kept by the frame loop, which reports them to the wave step.
pub struct WaveState {
    pub phase: WavePhase,
    pub groups: Vec<SpawnGroup>,
    pub current_group: usize,
    pub spawned_in_group: u32,
    pub active_enemies: u32,
    pub current_pulse: u32,
}

/// A wave state as plain values.
#[verifier::ext_equal]
pub struct WaveModel {
    pub phase: WavePhase,
    pub groups: Seq<SpawnGroup>,
    pub current_group: int,
    pub spawned_in_group: u32,
    pub active_enemies: u32,
    pub current_pulse: u32,
}

impl View for WaveState {
    type V = WaveModel;

    open spec fn view(&self) -> WaveModel {
        WaveModel {
            phase: self.phase,
            groups: self.groups@,
            current_group: self.current_group as int,
            spawned_in_group: self.spawned_in_group,
            active_enemies: self.active_enemies,
            current_pulse: self.current_pulse,
        }
    }
}

impl Default for WaveState {
    fn default() -> (r: Self)
        ensures
            r@ == (WaveModel {
                phase: WavePhase::Idle,
                groups: Seq::empty(),
                current_group: 0,
                spawned_in_group: 0,
                active_enemies: 0,
                current_pulse: 0,
            }),
    {
        let r = WaveState {
            phase: WavePhase::Idle,
            groups: Vec::new(),
            current_group: 0,
            spawned_in_group: 0,
            active_enemies: 0,
            current_pulse: 0,
        };
        assert(r@ =~= (WaveModel {
            phase: WavePhase::Idle,
            groups: Seq::empty(),
            current_group: 0,
            spawned_in_group: 0,
            active_enemies: 0,
            current_pulse: 0,
        }));
        r
    }
}

/// Set by the "Send Wave" button; consumed by the wave step each frame.
pub struct WaveButtonPressed(pub bool);

/// Auto-wave: when enabled, the next wave starts by itself after a countdown.
/// The countdown itself is kept by the frame loop.
pub struct AutoWave {
    pub enabled: bool,
}

/// Delay before auto-wave starts the next wave.
pub const AUTO_WAVE_DELAY_MS: u32 = 5000;

/// Game speed multiplier: 1, 2 or 3.
pub struct GameSpeed(pub u32);

impl Default for GameSpeed {
    fn default() -> (r: Self)
        ensures
            r.0 == 1,
    {
        GameSpeed(1)
    }
}

/// Guards entering play so that cleanup and setup run only on a fresh start or a restart.
pub struct NeedsFreshSetup(pub bool);

impl Default for NeedsFreshSetup {
    fn default() -> (r: Self)
        ensures
            !r.0,
    {
        NeedsFreshSetup(false)
    }
}

/// Which hero type is active. Only matters when `NoHeroSelected` is false.
pub struct ActiveHeroType(pub HeroType);

impl Default for ActiveHeroType {
    fn default() -> (r: Self)
        ensures
            r.0 == HeroType::IceHulk,
    {
        ActiveHeroType(HeroType::IceHulk)
    }
}

/// True means "towers only": no hero spawns and no hero HUD.
pub struct NoHeroSelected(pub bool);

impl Default for NoHeroSelected {
    fn default() -> (r: Self)
        ensures
            r.0,
    {
        NoHeroSelected(true)
    }
}

/// A hero unlocked by the last victory, shown on the game-over screen.
pub struct NewlyUnlockedHero(pub Option<HeroType>);

/// When set, the next ground tap targets this ability instead of moving the hero.
pub struct PlayerAbilityTargeting(pub Option<PlayerAbilityType>);

/// Admin unlock flags (runtime only, not persisted).
#[derive(Clone, Copy, PartialEq, Eq, Debug, Structural)]
pub struct AdminUnlocks {
    pub all_levels: bool,
    pub all_heroes: bool,
}

/// Which level is being played (1-indexed).
pub struct CurrentLevel(pub u32);

impl Default for CurrentLevel {
    fn default() -> (r: Self)
        ensures
            r.0 == 1,
    {
        CurrentLevel(1)
    }
}

/// What the player has selected in the UI.
#[derive(Clone, Copy, PartialEq, Eq, Debug, Structural)]
pub enum Selection {
    Nothing,
    /// An empty build spot: the tower build menu is shown.
    BuildSpot(EntityId),
    /// An existing tower: the upgrade / sell panel is shown.
    Tower(EntityId),
    /// Setting a rally point for an earth tower's golems.
    SettingRallyPoint(EntityId),
    /// The hero.
    Hero,
}

impl Default for Selection {
    fn default() -> (r: Self)
        ensures
            r == Selection::Nothing,
    {
        Selection::Nothing
    }
}

} // verus!
