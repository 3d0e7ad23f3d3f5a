//! What a death or a leak does to the purse, the lives and the wave.
use vstd::prelude::*;

use crate::resources::{GameData, WaveModel, WaveState};

verus! {

/// `x - 1`, but never below zero.
pub open spec fn minus_one_floor(x: u32) -> u32 {
    if x > 0 { (x - 1) as u32 } else { 0 }
}

/// An enemy died: its gold reward is paid and it stops counting as active.
pub fn reward_enemy_death(game: &mut GameData, wave: &mut WaveState, gold_reward: u32)
    requires
        old(game).gold + gold_reward <= u32::MAX,
    ensures
        *final(game) == (GameData { gold: (old(game).gold + gold_reward) as u32, ..*old(game) }),
        final(wave)@ == (WaveModel { active_enemies: minus_one_floor(old(wave)@.active_enemies), ..old(wave)@ }),
{
    game.gold = game.gold + gold_reward;
    wave.active_enemies = wave.active_enemies.saturating_sub(1);
    assert(wave@ =~~= (WaveModel { active_enemies: minus_one_floor(old(wave)@.active_enemies), ..old(wave)@ }));
}

/// An enemy reached the end of the path: a life is lost and the enemy stops counting as
/// active.
pub fn leak_enemy(game: &mut GameData, wave: &mut WaveState)
    ensures
        *final(game) == (GameData { lives: minus_one_floor(old(game).lives), ..*old(game) }),
        final(wave)@ == (WaveModel { active_enemies: minus_one_floor(old(wave)@.active_enemies), ..old(wave)@ }),
{
    game.lives = game.lives.saturating_sub(1);
    wave.active_enemies = wave.active_enemies.saturating_sub(1);
    assert(wave@ =~~= (WaveModel { active_enemies: minus_one_floor(old(wave)@.active_enemies), ..old(wave)@ }));
}

/// Whether an enemy on path segment `segment` has reached the end of a path of `path_len`
/// waypoints.
pub fn reached_path_end(segment: usize, path_len: usize) -> (r: bool)
    requires
        path_len >= 1,
    ensures
        r == (segment >= path_len - 1),
{
    segment >= path_len - 1
}

/// Lives never rise during play, and each leak costs at most one.
pub proof fn lemma_leak_costs_one_life(lives: u32)
    ensures
        minus_one_floor(lives) <= lives,
        lives - minus_one_floor(lives) <= 1,
        lives > 0 ==> minus_one_floor(lives) == lives - 1,
{
}

} // verus!
