//! Developer cheats: gold, lives, skipping a wave, jumping to the next level.
use vstd::prelude::*;

use crate::data::MAX_LEVELS;
use crate::resources::{GameData, WaveModel, WavePhase, WaveState};

verus! {

/// Gold granted by the gold cheat.
pub const DEBUG_GOLD: u32 = 1000;
/// Lives granted by the lives cheat.
pub const DEBUG_LIVES: u32 = 10;

/// Debug overlay toggle.
#[derive(Debug, Clone, Copy, PartialEq, Eq, Structural)]
pub struct DebugState {
    pub show_overlay: bool,
}

/// The gold cheat.
pub fn debug_add_gold(game: &mut GameData)
    requires
        old(game).gold + DEBUG_GOLD <= u32::MAX,
    ensures
        *final(game) == (GameData { gold: (old(game).gold + DEBUG_GOLD) as u32, ..*old(game) }),
{
    game.gold = game.gold + DEBUG_GOLD;
}

/// The lives cheat.
pub fn debug_add_lives(game: &mut GameData)
    requires
        old(game).lives + DEBUG_LIVES <= u32::MAX,
    ensures
        *final(game) == (GameData { lives: (old(game).lives + DEBUG_LIVES) as u32, ..*old(game) }),
{
    game.lives = game.lives + DEBUG_LIVES;
}

/// Skips the current wave (the enemies are killed by the caller): counts it as done, if
/// any is left, and idles the wave with no active enemies.
pub fn debug_skip_wave(game: &mut GameData, wave: &mut WaveState)
    ensures
        final(game).wave_number == if old(game).wave_number < old(game).max_waves {
            old(game).wave_number + 1
        } else {
            old(game).wave_number as int
        },
        *final(game) == (GameData { wave_number: final(game).wave_number, ..*old(game) }),
        final(wave)@ == (WaveModel { phase: WavePhase::Idle, active_enemies: 0, ..old(wave)@ }),
{
    if game.wave_number < game.max_waves {
        game.wave_number = game.wave_number + 1;
    }
    wave.phase = WavePhase::Idle;
    wave.active_enemies = 0;
    assert(wave@ =~~= (WaveModel { phase: WavePhase::Idle, active_enemies: 0, ..old(wave)@ }));
}

/// The level the "next level" cheat goes to: the next one, or back to 1 after the last.
pub fn debug_next_level(current_level: u32) -> (r: u32)
    ensures
        r == if current_level >= MAX_LEVELS { 1 } else { current_level + 1 },
{
    if current_level >= MAX_LEVELS {
        1
    } else {
        current_level + 1
    }
}

} // verus!
