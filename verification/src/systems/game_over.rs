//! Victory and defeat.
use vstd::prelude::*;

use crate::resources::{GameData, WavePhase};
use crate::states::GameOutcome;

verus! {

/// Stars for a victory, by the share of lives kept: 3 from 90%, 2 from 50%, else 1.
pub open spec fn victory_stars(lives: u32, max_lives: u32) -> u8 {
    if max_lives == 0 {
        1
    } else if 10 * (lives as int) >= 9 * (max_lives as int) {
        3
    } else if 2 * (lives as int) >= max_lives as int {
        2
    } else {
        1
    }
}

/// The outcome of the level this frame, if it ended: a defeat as soon as the lives are
/// gone; a victory once every wave is done and the field is clear.
pub open spec fn game_over_outcome(game: GameData, phase: WavePhase) -> Option<GameOutcome> {
    if game.lives == 0 {
        Some(GameOutcome { victory: false, stars: 0 })
    } else if game.wave_number >= game.max_waves && phase == WavePhase::Idle {
        Some(GameOutcome { victory: true, stars: victory_stars(game.lives, game.max_lives) })
    } else {
        None
    }
}

/// Checks for the end of the level. `Some` means: record the outcome and go to the
/// game-over screen.
pub fn check_game_over(game: &GameData, phase: WavePhase) -> (r: Option<GameOutcome>)
    ensures
        r == game_over_outcome(*game, phase),
{
    // Defeat: ran out of lives.
    if game.lives == 0 {
        return Some(GameOutcome { victory: false, stars: 0 });
    }
    // Victory: all waves done and no wave running.
    if game.wave_number >= game.max_waves && phase == WavePhase::Idle {
        let stars: u8 = if game.max_lives == 0 {
            1
        } else if 10 * (game.lives as u64) >= 9 * (game.max_lives as u64) {
            3
        } else if 2 * (game.lives as u64) >= game.max_lives as u64 {
            2
        } else {
            1
        };
        return Some(GameOutcome { victory: true, stars });
    }
    None
}

/// A victory earns one to three stars, more lives never earn fewer stars, and a
/// flawless victory earns three.
pub proof fn lemma_victory_stars(lives: u32, more_lives: u32, max_lives: u32)
    requires
        lives <= more_lives,
    ensures
        1 <= victory_stars(lives, max_lives) <= 3,
        victory_stars(lives, max_lives) <= victory_stars(more_lives, max_lives),
        max_lives > 0 ==> victory_stars(max_lives, max_lives) == 3,
{
}

/// A level with lives left and waves to come is not over; a level without lives is lost.
pub proof fn lemma_game_over_cases(game: GameData, phase: WavePhase)
    ensures
        game.lives == 0 ==> game_over_outcome(game, phase) == Some(GameOutcome { victory: false, stars: 0 }),
        game.lives > 0 && game.wave_number < game.max_waves ==> game_over_outcome(game, phase) is None,
        game_over_outcome(game, phase) matches Some(o) ==> (o.victory <==> o.stars > 0),
{
}

} // verus!
