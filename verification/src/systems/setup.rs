//! The game state a level starts with.
use vstd::prelude::*;

use crate::data::{level_start_config, level_start_config_spec, UpgradeKind};
use crate::resources::{Difficulty, GameData};
use crate::save::{upgrade_level_of, SaveData};

verus! {

/// The starting gold of a level: its base gold, raised 10% per War Chest level, times the
/// difficulty's gold multiplier, rounded down.
pub open spec fn starting_gold(level: u32, difficulty: Difficulty, war_chest: int) -> int {
    (level_start_config_spec(level).starting_gold as int * (100 + 10 * war_chest) * difficulty.gold_mult_pct_spec() as int)
        / 10000
}

/// The game data a level starts with: gold from the level, the War Chest upgrade and the
/// difficulty; lives from the difficulty; the level's number of waves; no wave played.
pub fn level_start_game_data(level: u32, difficulty: Difficulty, save: Option<&SaveData>) -> (r: GameData)
    ensures
        r.gold == starting_gold(
            level,
            difficulty,
            match save {
                Some(s) => upgrade_level_of(s@, UpgradeKind::WarChest) as int,
                None => 0,
            },
        ),
        r.lives == difficulty.starting_lives_spec(),
        r.max_lives == difficulty.starting_lives_spec(),
        r.max_waves == level_start_config_spec(level).max_waves,
        r.wave_number == 0,
{
    let config = level_start_config(level);
    let war_chest: u8 = match save {
        Some(s) => s.upgrade_level(UpgradeKind::WarChest),
        None => 0,
    };
    let gold_pct: u64 = 100 + 10 * (war_chest as u64);
    let diff_pct: u64 = difficulty.gold_mult_pct() as u64;
    assert(config.starting_gold <= 310);
    assert((config.starting_gold as u64) * gold_pct <= 310 * 2650) by (nonlinear_arith)
        requires
            config.starting_gold <= 310,
            gold_pct <= 2650;
    assert((config.starting_gold as u64) * gold_pct * diff_pct <= 310 * 2650 * 125) by (nonlinear_arith)
        requires
            (config.starting_gold as u64) * gold_pct <= 310 * 2650,
            diff_pct <= 125;
    let gold = ((config.starting_gold as u64) * gold_pct * diff_pct / 10000) as u32;
    let lives = difficulty.starting_lives();
    GameData { gold, lives, max_lives: lives, wave_number: 0, max_waves: config.max_waves }
}

} // verus!
