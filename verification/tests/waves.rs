use ages_of_aether::data::{level_waves, EnemyType};
use ages_of_aether::resources::{GameData, WavePhase, WaveState};
use ages_of_aether::systems::wave::{
    auto_wave_tick, current_group_timing, heal_hero_on_wave_start, lateral_offset_bucket,
    spawn_y_offset_deci, start_wave, wave_spawner_step, AutoWaveTick, SpawnClock, WaveAction,
};
use ages_of_aether::resources::AutoWave;
use ages_of_aether::systems::tutorial::{TutorialState, TutorialStep};

const NO_TUTORIAL: TutorialState =
    TutorialState { step: TutorialStep::Inactive, build_menu_seen: false, built_tower: None, rally_set: false };

fn clock(delay: bool, interval: bool) -> SpawnClock {
    SpawnClock { delay_reached: delay, interval_reached: interval, min_pause_met: false, pause_timed_out: false }
}

fn fresh_game() -> GameData {
    GameData::default()
}

#[test]
fn idle_without_press_does_nothing() {
    let mut wave = WaveState::default();
    let mut game = fresh_game();
    let a = wave_spawner_step(&mut wave, &mut game, 1, false, clock(true, true));
    assert_eq!(a, WaveAction::Nothing);
    assert_eq!(wave.phase, WavePhase::Idle);
}

#[test]
fn press_starts_first_wave_of_level_one() {
    let mut wave = WaveState::default();
    let mut game = fresh_game();
    let a = wave_spawner_step(&mut wave, &mut game, 1, true, clock(false, false));
    assert_eq!(a, WaveAction::WaveStarted);
    assert_eq!(wave.phase, WavePhase::Spawning);
    assert_eq!(wave.groups.len(), 1);
    assert_eq!(wave.groups[0].enemy_type, EnemyType::Amoeba);
    assert_eq!(wave.groups[0].count, 5);
    assert_eq!(wave.groups[0].interval_ms, 1000);
    assert_eq!(current_group_timing(&wave), Some((0, 1000)));
}

#[test]
fn spawns_whole_group_then_goes_active_then_clears() {
    let mut wave = WaveState::default();
    let mut game = fresh_game();
    wave_spawner_step(&mut wave, &mut game, 1, true, clock(false, false));
    // interval not reached: nothing
    assert_eq!(wave_spawner_step(&mut wave, &mut game, 1, false, clock(true, false)), WaveAction::Nothing);
    for i in 1..=5u32 {
        let a = wave_spawner_step(&mut wave, &mut game, 1, false, clock(true, true));
        assert_eq!(a, WaveAction::SpawnEnemy { enemy_type: EnemyType::Amoeba, spawn_index: i });
    }
    assert_eq!(wave.current_group, 1);
    assert_eq!(wave.spawned_in_group, 0);
    assert_eq!(wave.active_enemies, 5);
    assert_eq!(wave_spawner_step(&mut wave, &mut game, 1, false, clock(true, true)), WaveAction::AllSpawned);
    assert_eq!(wave.phase, WavePhase::Active);
    // enemies still alive: nothing
    assert_eq!(wave_spawner_step(&mut wave, &mut game, 1, false, clock(true, true)), WaveAction::Nothing);
    wave.active_enemies = 0;
    assert_eq!(wave_spawner_step(&mut wave, &mut game, 1, false, clock(true, true)), WaveAction::WaveCleared);
    assert_eq!(wave.phase, WavePhase::Idle);
    assert_eq!(game.wave_number, 1);
}

#[test]
fn later_pulse_pauses_until_cleared_or_timeout() {
    let mut wave = WaveState::default();
    let mut game = fresh_game();
    game.wave_number = 2; // wave 3 of level 1: amoebas in pulse 0, sea scorpions in pulse 1
    wave_spawner_step(&mut wave, &mut game, 1, true, clock(false, false));
    for _ in 0..6 {
        wave_spawner_step(&mut wave, &mut game, 1, false, clock(true, true));
    }
    assert_eq!(wave.current_group, 1);
    let a = wave_spawner_step(&mut wave, &mut game, 1, false, clock(true, true));
    assert_eq!(a, WaveAction::PulsePauseStarted);
    assert_eq!(wave.phase, WavePhase::PulsePause);
    // six enemies alive and minimum pause met: still waiting
    let c = SpawnClock { delay_reached: true, interval_reached: true, min_pause_met: true, pause_timed_out: false };
    assert_eq!(wave_spawner_step(&mut wave, &mut game, 1, false, c), WaveAction::Nothing);
    // timeout starts the next pulse anyway
    let t = SpawnClock { delay_reached: true, interval_reached: true, min_pause_met: true, pause_timed_out: true };
    assert_eq!(wave_spawner_step(&mut wave, &mut game, 1, false, t), WaveAction::PulseStarted);
    assert_eq!(wave.current_pulse, 1);
    assert_eq!(wave.phase, WavePhase::Spawning);
    let a = wave_spawner_step(&mut wave, &mut game, 1, false, clock(true, true));
    assert_eq!(a, WaveAction::SpawnEnemy { enemy_type: EnemyType::SeaScorpion, spawn_index: 7 });
}

#[test]
fn pause_ends_when_few_enemies_remain() {
    let mut wave = WaveState::default();
    let mut game = fresh_game();
    game.wave_number = 2;
    wave_spawner_step(&mut wave, &mut game, 1, true, clock(false, false));
    for _ in 0..7 {
        wave_spawner_step(&mut wave, &mut game, 1, false, clock(true, true));
    }
    assert_eq!(wave.phase, WavePhase::PulsePause);
    wave.active_enemies = 2;
    let c = SpawnClock { delay_reached: false, interval_reached: false, min_pause_met: true, pause_timed_out: false };
    assert_eq!(wave_spawner_step(&mut wave, &mut game, 1, false, c), WaveAction::PulseStarted);
}

#[test]
fn delay_holds_back_a_group() {
    let mut wave = WaveState::default();
    let mut game = fresh_game();
    game.wave_number = 4; // wave 5: second group waits 2 s
    wave_spawner_step(&mut wave, &mut game, 1, true, clock(false, false));
    for _ in 0..8 {
        wave_spawner_step(&mut wave, &mut game, 1, false, clock(true, true));
    }
    assert_eq!(current_group_timing(&wave), Some((2000, 500)));
    assert_eq!(wave_spawner_step(&mut wave, &mut game, 1, false, clock(false, true)), WaveAction::Nothing);
    assert_eq!(wave.spawned_in_group, 0);
}

#[test]
fn calling_early_pays_bonus_and_starts_next_wave() {
    let mut wave = WaveState::default();
    let mut game = fresh_game();
    wave_spawner_step(&mut wave, &mut game, 1, true, clock(false, false));
    for _ in 0..6 {
        wave_spawner_step(&mut wave, &mut game, 1, false, clock(true, true));
    }
    assert_eq!(wave.phase, WavePhase::Active);
    let gold = game.gold;
    let a = wave_spawner_step(&mut wave, &mut game, 1, true, clock(true, true));
    // the bonus of the wave after the next one on level 1 (index 1) is 10
    assert_eq!(a, WaveAction::CalledEarly { bonus: 10 });
    assert_eq!(game.gold, gold + 10);
    assert_eq!(game.wave_number, 1);
    assert_eq!(wave.phase, WavePhase::Spawning);
    assert_eq!(wave.active_enemies, 5);
    assert_eq!(wave.groups[0].count, 8);
}

#[test]
fn no_wave_starts_after_the_last() {
    let mut wave = WaveState::default();
    let mut game = fresh_game();
    game.wave_number = game.max_waves;
    assert_eq!(wave_spawner_step(&mut wave, &mut game, 1, true, clock(true, true)), WaveAction::Nothing);
    assert_eq!(wave.phase, WavePhase::Idle);
}

#[test]
fn calling_early_on_last_wave_does_nothing() {
    let mut wave = WaveState::default();
    let mut game = fresh_game();
    game.wave_number = 9;
    wave_spawner_step(&mut wave, &mut game, 1, true, clock(false, false));
    wave.phase = WavePhase::Active;
    wave.active_enemies = 3;
    let gold = game.gold;
    assert_eq!(wave_spawner_step(&mut wave, &mut game, 1, true, clock(true, true)), WaveAction::Nothing);
    assert_eq!(game.gold, gold);
    assert_eq!(game.wave_number, 9);
}

#[test]
fn start_wave_uses_last_definition_beyond_the_table() {
    let mut wave = WaveState::default();
    let mut game = fresh_game();
    game.wave_number = 25;
    start_wave(&mut wave, &game, 2);
    let waves = level_waves(2);
    assert_eq!(wave.groups.len(), waves[9].groups.len());
    assert_eq!(wave.groups[2].enemy_type, EnemyType::GiantWorm);
}

#[test]
fn hero_heals_once_per_wave() {
    let mut healed = false;
    assert!(!heal_hero_on_wave_start(&mut healed, WavePhase::Idle));
    assert!(heal_hero_on_wave_start(&mut healed, WavePhase::Spawning));
    assert!(!heal_hero_on_wave_start(&mut healed, WavePhase::Spawning));
    assert!(!heal_hero_on_wave_start(&mut healed, WavePhase::Active));
    assert!(!heal_hero_on_wave_start(&mut healed, WavePhase::Idle));
    assert!(heal_hero_on_wave_start(&mut healed, WavePhase::Spawning));
}

#[test]
fn auto_wave_counts_down_only_between_waves() {
    let on = AutoWave { enabled: true };
    let off = AutoWave { enabled: false };
    let game = fresh_game();
    assert_eq!(auto_wave_tick(&off, WavePhase::Idle, &game, &NO_TUTORIAL), AutoWaveTick::Off);
    assert_eq!(auto_wave_tick(&on, WavePhase::Idle, &game, &NO_TUTORIAL), AutoWaveTick::CountDown);
    assert_eq!(auto_wave_tick(&on, WavePhase::Active, &game, &NO_TUTORIAL), AutoWaveTick::Reset);
    let done = GameData { wave_number: 10, ..game };
    assert_eq!(auto_wave_tick(&on, WavePhase::Idle, &done, &NO_TUTORIAL), AutoWaveTick::Reset);
    // the tutorial holds auto-wave back while it runs
    let running = TutorialState { step: TutorialStep::TapStartWave, ..NO_TUTORIAL };
    assert_eq!(auto_wave_tick(&on, WavePhase::Idle, &game, &running), AutoWaveTick::Reset);
    let finished = TutorialState { step: TutorialStep::Completed, ..NO_TUTORIAL };
    assert_eq!(auto_wave_tick(&on, WavePhase::Idle, &game, &finished), AutoWaveTick::CountDown);
}

#[test]
fn lateral_offset_hash_values() {
    // (1 * 1103515245 + 12345) mod 2^32 = 1103527590; >> 16 = 16838; & 0x7FFF = 16838
    assert_eq!(lateral_offset_bucket(1), 16838);
    assert_eq!(lateral_offset_bucket(0), 0);
    for i in 0..200u32 {
        let expected = (i.wrapping_mul(1103515245).wrapping_add(12345) >> 16) & 0x7FFF;
        assert_eq!(lateral_offset_bucket(i), expected);
    }
}

#[test]
fn spawn_heights() {
    assert_eq!(spawn_y_offset_deci(EnemyType::Jellyfish), 30);
    assert_eq!(spawn_y_offset_deci(EnemyType::Wyvern), 20);
    assert_eq!(spawn_y_offset_deci(EnemyType::Caveman), 10);
    assert_eq!(spawn_y_offset_deci(EnemyType::Amoeba), 0);
    assert_eq!(spawn_y_offset_deci(EnemyType::Dragon), 0);
}

#[test]
fn press_after_a_cleared_wave_starts_only_the_next() {
    let mut wave = WaveState::default();
    let mut game = fresh_game();
    wave_spawner_step(&mut wave, &mut game, 1, true, clock(false, false));
    for _ in 0..6 {
        wave_spawner_step(&mut wave, &mut game, 1, false, clock(true, true));
    }
    assert_eq!(wave.phase, WavePhase::Active);
    wave.active_enemies = 0;
    let gold = game.gold;
    let a = wave_spawner_step(&mut wave, &mut game, 1, true, clock(true, true));
    assert_eq!(a, WaveAction::WaveStarted);
    assert_eq!(game.wave_number, 1);
    assert_eq!(game.gold, gold);
    assert_eq!(wave.phase, WavePhase::Spawning);
    let waves = level_waves(1);
    assert_eq!(wave.groups.len(), waves[1].groups.len());
    assert_eq!(wave.groups[0].count, waves[1].groups[0].count);
}

#[test]
fn press_after_the_last_wave_is_cleared_starts_nothing() {
    let mut wave = WaveState::default();
    let mut game = fresh_game();
    game.wave_number = 9;
    wave_spawner_step(&mut wave, &mut game, 1, true, clock(false, false));
    wave.phase = WavePhase::Active;
    wave.active_enemies = 0;
    assert_eq!(wave_spawner_step(&mut wave, &mut game, 1, true, clock(true, true)), WaveAction::WaveCleared);
    assert_eq!(game.wave_number, 10);
    assert_eq!(wave.phase, WavePhase::Idle);
}

#[test]
fn press_as_the_last_but_one_wave_clears_is_dropped() {
    let mut wave = WaveState::default();
    let mut game = fresh_game();
    game.wave_number = 8;
    wave_spawner_step(&mut wave, &mut game, 1, true, clock(false, false));
    wave.phase = WavePhase::Active;
    wave.active_enemies = 0;
    let gold = game.gold;
    assert_eq!(wave_spawner_step(&mut wave, &mut game, 1, true, clock(true, true)), WaveAction::WaveCleared);
    assert_eq!(game.wave_number, 9);
    assert_eq!(game.gold, gold);
    assert_eq!(wave.phase, WavePhase::Idle);
    // the next press starts the last wave
    assert_eq!(wave_spawner_step(&mut wave, &mut game, 1, true, clock(true, true)), WaveAction::WaveStarted);
    assert_eq!(game.wave_number, 9);
}
