//! The wave lifecycle: Idle, then Spawning and PulsePause in turn, then Active, then Idle.
use vstd::prelude::*;

use crate::data::{
    level_waves, level_waves_spec, lemma_early_call_bonus_at_most, lemma_level_tables_agree, EnemyType,
    WaveGroup,
};
use crate::data::{enemy_stats_spec, EnemyStats};
use crate::resources::{AutoWave, GameData, SpawnGroup, WaveModel, WavePhase, WaveState};
use crate::systems::tutorial::{is_tutorial_active, tutorial_active_spec, TutorialState};

verus! {

/// Minimum pause between pulses.
pub const PULSE_MIN_PAUSE_MS: u32 = 2000;
/// Maximum wait between pulses: the next pulse starts even if enemies remain.
pub const PULSE_MAX_WAIT_MS: u32 = 8000;
/// The next pulse may start when the active enemies drop to this number.
pub const PULSE_ENEMY_THRESHOLD: u32 = 2;
/// The largest early-call bonus of any wave.
pub const MAX_EARLY_CALL_BONUS: u32 = 40;

/// What the frame's clocks say, measured after this frame's time was added.
#[derive(Clone, Copy, Debug)]
pub struct SpawnClock {
    /// The time since the pulse started has reached the current group's delay.
    pub delay_reached: bool,
    /// The time since the last spawn has reached the current group's interval.
    pub interval_reached: bool,
    /// The pause between pulses has lasted `PULSE_MIN_PAUSE_MS`.
    pub min_pause_met: bool,
    /// The pause between pulses has lasted `PULSE_MAX_WAIT_MS`.
    pub pause_timed_out: bool,
}

/// What a wave step asks of the frame loop.
#[derive(Clone, Copy, Debug, PartialEq, Eq, Structural)]
pub enum WaveAction {
    Nothing,
    /// A wave began: every wave timer restarts.
    WaveStarted,
    /// The next wave was called while one was active: the bonus was paid and every
    /// wave timer restarts.
    CalledEarly { bonus: u32 },
    /// Spawn one enemy and restart the spawn timer; `spawn_index` counts the active
    /// enemies, this one included.
    SpawnEnemy { enemy_type: EnemyType, spawn_index: u32 },
    /// The next group belongs to a later pulse: a pause begins and its timer restarts.
    PulsePauseStarted,
    /// The next pulse begins: the pulse and spawn timers restart.
    PulseStarted,
    /// Every group has spawned; the wave now waits for its enemies.
    AllSpawned,
    /// The last enemy of the wave is gone.
    WaveCleared,
}

pub open spec fn spawn_group_of(g: WaveGroup) -> SpawnGroup {
    SpawnGroup {
        enemy_type: g.enemy_type,
        count: g.count,
        interval_ms: g.interval_ms,
        delay_ms: g.delay_ms,
        pulse: g.pulse,
    }
}

/// The index of the definition used for wave `wave_number` (0-based): the last
/// definition serves every wave beyond it.
pub open spec fn wave_definition_index(level: u32, wave_number: int) -> int {
    let n = level_waves_spec(level).len() as int;
    if wave_number < n - 1 { wave_number } else { n - 1 }
}

/// The groups of wave `wave_number` (0-based) of a level.
pub open spec fn wave_groups(level: u32, wave_number: int) -> Seq<SpawnGroup> {
    level_waves_spec(level)[wave_definition_index(level, wave_number)].groups.map_values(
        |g: WaveGroup| spawn_group_of(g),
    )
}

/// The early-call bonus of wave `wave_number` (0-based) of a level.
pub open spec fn early_call_bonus(level: u32, wave_number: int) -> u32 {
    level_waves_spec(level)[wave_definition_index(level, wave_number)].early_call_bonus
}

/// The wave state right after wave `wave_number` starts. Enemies still alive stay counted.
pub open spec fn started_wave(w: WaveModel, level: u32, wave_number: int) -> WaveModel {
    WaveModel {
        phase: WavePhase::Spawning,
        groups: wave_groups(level, wave_number),
        current_group: 0,
        spawned_in_group: 0,
        active_enemies: w.active_enemies,
        current_pulse: 0,
    }
}

/// One frame of spawning.
pub open spec fn spawning_step(w: WaveModel, g: GameData, clock: SpawnClock) -> (WaveModel, GameData, WaveAction) {
    if 0 <= w.current_group < w.groups.len() {
        let group = w.groups[w.current_group];
        if group.pulse > w.current_pulse {
            (WaveModel { phase: WavePhase::PulsePause, ..w }, g, WaveAction::PulsePauseStarted)
        } else if !clock.delay_reached {
            (w, g, WaveAction::Nothing)
        } else if w.spawned_in_group < group.count && clock.interval_reached {
            let active = (w.active_enemies + 1) as u32;
            let action = WaveAction::SpawnEnemy { enemy_type: group.enemy_type, spawn_index: active };
            if w.spawned_in_group + 1 >= group.count {
                (
                    WaveModel {
                        current_group: w.current_group + 1,
                        spawned_in_group: 0,
                        active_enemies: active,
                        ..w
                    },
                    g,
                    action,
                )
            } else {
                (
                    WaveModel {
                        spawned_in_group: (w.spawned_in_group + 1) as u32,
                        active_enemies: active,
                        ..w
                    },
                    g,
                    action,
                )
            }
        } else {
            (w, g, WaveAction::Nothing)
        }
    } else {
        (WaveModel { phase: WavePhase::Active, ..w }, g, WaveAction::AllSpawned)
    }
}

/// One frame while the wave's enemies are on the field. When none is left the wave is
/// counted once and play goes idle; a press of the wave button in that same frame starts
/// just the next wave, with no bonus, unless that wave is the last (the press is then
/// dropped). While enemies remain, a press calls the next wave early for its bonus, unless
/// it is the last.
pub open spec fn active_step(w: WaveModel, g: GameData, level: u32, btn: bool) -> (WaveModel, GameData, WaveAction) {
    if w.active_enemies == 0 {
        let w1 = WaveModel { phase: WavePhase::Idle, ..w };
        let g1 = GameData { wave_number: (g.wave_number + 1) as u32, ..g };
        if btn && g1.wave_number + 1 < g1.max_waves {
            (started_wave(w1, level, g1.wave_number as int), g1, WaveAction::WaveStarted)
        } else {
            (w1, g1, WaveAction::WaveCleared)
        }
    } else if btn && g.wave_number + 1 < g.max_waves {
        let bonus = early_call_bonus(level, g.wave_number + 1);
        let g2 = GameData { gold: (g.gold + bonus) as u32, wave_number: (g.wave_number + 1) as u32, ..g };
        (started_wave(w, level, g2.wave_number as int), g2, WaveAction::CalledEarly { bonus })
    } else {
        (w, g, WaveAction::Nothing)
    }
}

/// One frame of the wave lifecycle, as plain values.
pub open spec fn wave_step(w: WaveModel, g: GameData, level: u32, btn: bool, clock: SpawnClock) -> (WaveModel, GameData, WaveAction) {
    match w.phase {
        WavePhase::Idle => {
            if btn && g.wave_number < g.max_waves {
                (started_wave(w, level, g.wave_number as int), g, WaveAction::WaveStarted)
            } else {
                (w, g, WaveAction::Nothing)
            }
        },
        WavePhase::Spawning => spawning_step(w, g, clock),
        WavePhase::PulsePause => {
            if (w.active_enemies <= PULSE_ENEMY_THRESHOLD && clock.min_pause_met) || clock.pause_timed_out {
                (
                    WaveModel { phase: WavePhase::Spawning, current_pulse: (w.current_pulse + 1) as u32, ..w },
                    g,
                    WaveAction::PulseStarted,
                )
            } else {
                (w, g, WaveAction::Nothing)
            }
        },
        WavePhase::Active => active_step(w, g, level, btn),
    }
}

/// The machine limits under which a wave step cannot overflow: a spawn must leave room in
/// the active count, a new pulse in the pulse count, the end of a wave in the wave counter,
/// and an early call's bonus in the purse.
pub open spec fn wave_step_fits(w: WaveModel, g: GameData, level: u32, btn: bool) -> bool {
    &&& w.phase == WavePhase::Spawning ==> w.active_enemies < u32::MAX
    &&& w.phase == WavePhase::PulsePause ==> w.current_pulse < u32::MAX
    &&& w.phase == WavePhase::Active ==> g.wave_number < u32::MAX
    &&& (w.phase == WavePhase::Active && btn && w.active_enemies != 0 && g.wave_number + 1 < g.max_waves)
        ==> g.gold + early_call_bonus(level, g.wave_number + 1) <= u32::MAX
}

/// Every early-call bonus is at most `MAX_EARLY_CALL_BONUS`, and every level has ten waves.
pub proof fn lemma_early_call_bonus_bounded(level: u32, wave_number: int)
    requires
        0 <= wave_number,
    ensures
        early_call_bonus(level, wave_number) <= MAX_EARLY_CALL_BONUS,
        0 <= wave_definition_index(level, wave_number) < level_waves_spec(level).len(),
        level_waves_spec(level).len() == 10,
{
    lemma_level_tables_agree(level);
    lemma_early_call_bonus_at_most(level, wave_definition_index(level, wave_number));
}

/// Starts wave `game.wave_number` (0-based) of `level`: loads its groups and resets the
/// spawning progress. Enemies still alive stay counted.
pub fn start_wave(wave: &mut WaveState, game: &GameData, level: u32)
    ensures
        final(wave)@ == started_wave(old(wave)@, level, game.wave_number as int),
{
    let waves = level_waves(level);
    proof {
        lemma_early_call_bonus_bounded(level, game.wave_number as int);
    }
    let last = waves.len() - 1;
    let wave_number = game.wave_number as usize;
    let idx = if wave_number < last { wave_number } else { last };
    assert(idx as int == wave_definition_index(level, game.wave_number as int));
    let definition = &waves[idx];
    let ghost source = definition.groups@;
    let mut groups: Vec<SpawnGroup> = Vec::new();
    let n = definition.groups.len();
    for i in 0..n
        invariant
            n == source.len(),
            source == definition.groups@,
            groups@ == source.take(i as int).map_values(|g: WaveGroup| spawn_group_of(g)),
    {
        let g = definition.groups[i];
        groups.push(SpawnGroup {
            enemy_type: g.enemy_type,
            count: g.count,
            interval_ms: g.interval_ms,
            delay_ms: g.delay_ms,
            pulse: g.pulse,
        });
        assert(source.take(i + 1).map_values(|g: WaveGroup| spawn_group_of(g))
            =~= source.take(i as int).map_values(|g: WaveGroup| spawn_group_of(g)).push(spawn_group_of(g)));
    }
    assert(source.take(n as int) =~= source);
    wave.groups = groups;
    wave.phase = WavePhase::Spawning;
    wave.current_group = 0;
    wave.spawned_in_group = 0;
    wave.current_pulse = 0;
    assert(wave@ =~~= started_wave(old(wave)@, level, game.wave_number as int));
}

/// One frame of the wave lifecycle. The frame loop adds this frame's time to the clocks of
/// the current phase before the call, reports them in `clock`, and carries out the action.
pub fn wave_spawner_step(
    wave: &mut WaveState,
    game: &mut GameData,
    level: u32,
    btn_pressed: bool,
    clock: SpawnClock,
) -> (action: WaveAction)
    requires
        wave_step_fits(old(wave)@, *old(game), level, btn_pressed),
    ensures
        final(wave)@ == wave_step(old(wave)@, *old(game), level, btn_pressed, clock).0,
        *final(game) == wave_step(old(wave)@, *old(game), level, btn_pressed, clock).1,
        action == wave_step(old(wave)@, *old(game), level, btn_pressed, clock).2,
{
    match wave.phase {
        WavePhase::Idle => {
            if !btn_pressed || game.wave_number >= game.max_waves {
                return WaveAction::Nothing;
            }
            start_wave(wave, game, level);
            WaveAction::WaveStarted
        },
        WavePhase::Spawning => {
            if wave.current_group < wave.groups.len() {
                let group = wave.groups[wave.current_group];
                // A group of a later pulse: pause between pulses.
                if group.pulse > wave.current_pulse {
                    wave.phase = WavePhase::PulsePause;
                    return WaveAction::PulsePauseStarted;
                }
                // Wait for the group's delay, counted from the start of the pulse.
                if !clock.delay_reached {
                    return WaveAction::Nothing;
                }
                if wave.spawned_in_group < group.count && clock.interval_reached {
                    wave.spawned_in_group = wave.spawned_in_group + 1;
                    wave.active_enemies = wave.active_enemies + 1;
                    let action = WaveAction::SpawnEnemy {
                        enemy_type: group.enemy_type,
                        spawn_index: wave.active_enemies,
                    };
                    if wave.spawned_in_group >= group.count {
                        wave.current_group = wave.current_group + 1;
                        wave.spawned_in_group = 0;
                    }
                    action
                } else {
                    WaveAction::Nothing
                }
            } else {
                // All groups spawned.
                wave.phase = WavePhase::Active;
                WaveAction::AllSpawned
            }
        },
        WavePhase::PulsePause => {
            let enemies_cleared = wave.active_enemies <= PULSE_ENEMY_THRESHOLD;
            if (enemies_cleared && clock.min_pause_met) || clock.pause_timed_out {
                wave.current_pulse = wave.current_pulse + 1;
                wave.phase = WavePhase::Spawning;
                WaveAction::PulseStarted
            } else {
                WaveAction::Nothing
            }
        },
        WavePhase::Active => {
            if wave.active_enemies == 0 {
                wave.phase = WavePhase::Idle;
                game.wave_number = game.wave_number + 1;
                if btn_pressed && (game.wave_number as u64) + 1 < game.max_waves as u64 {
                    start_wave(wave, game, level);
                    return WaveAction::WaveStarted;
                }
                return WaveAction::WaveCleared;
            }
            if btn_pressed && game.wave_number + 1 < game.max_waves {
                let waves = level_waves(level);
                proof {
                    lemma_early_call_bonus_bounded(level, game.wave_number + 1);
                }
                let last = waves.len() - 1;
                let next = (game.wave_number + 1) as usize;
                let idx = if next < last { next } else { last };
                let bonus = waves[idx].early_call_bonus;
                game.gold = game.gold + bonus;
                game.wave_number = game.wave_number + 1;
                start_wave(wave, game, level);
                WaveAction::CalledEarly { bonus }
            } else {
                WaveAction::Nothing
            }
        },
    }
}

pub fn current_group_timing(wave: &WaveState) -> (r: Option<(u32, u32)>)
    ensures
        0 <= wave@.current_group < wave@.groups.len() ==> r == Some((
            wave@.groups[wave@.current_group].delay_ms,
            wave@.groups[wave@.current_group].interval_ms,
        )),
        !(0 <= wave@.current_group < wave@.groups.len()) ==> r is None,
{
    if wave.current_group < wave.groups.len() {
        let g = wave.groups[wave.current_group];
        Some((g.delay_ms, g.interval_ms))
    } else {
        None
    }
}

/// Heals the hero once per wave, when spawning begins: the flag rearms while idle.
/// Returns whether to heal the hero to full now.
pub fn heal_hero_on_wave_start(healed_this_wave: &mut bool, phase: WavePhase) -> (heal: bool)
    ensures
        phase == WavePhase::Idle ==> !heal && !*final(healed_this_wave),
        phase == WavePhase::Spawning ==> heal == !*old(healed_this_wave) && *final(healed_this_wave),
        phase != WavePhase::Idle && phase != WavePhase::Spawning ==> !heal && *final(healed_this_wave)
            == *old(healed_this_wave),
{
    if phase == WavePhase::Idle {
        *healed_this_wave = false;
        return false;
    }
    if !*healed_this_wave && phase == WavePhase::Spawning {
        *healed_this_wave = true;
        return true;
    }
    false
}

/// What the auto-wave countdown does this frame.
#[derive(Clone, Copy, Debug, PartialEq, Eq, Structural)]
pub enum AutoWaveTick {
    /// Auto-wave is off: the countdown is left alone.
    Off,
    /// A wave runs, none is left, or the tutorial runs: the countdown is set back to
    /// `AUTO_WAVE_DELAY_MS`.
    Reset,
    /// Between waves: the countdown runs; at zero it presses the wave button and restarts.
    CountDown,
}

/// Decides the auto-wave countdown for this frame. The tutorial holds auto-wave back
/// while it runs.
pub fn auto_wave_tick(auto_wave: &AutoWave, phase: WavePhase, game: &GameData, tutorial: &TutorialState) -> (r: AutoWaveTick)
    ensures
        !auto_wave.enabled ==> r == AutoWaveTick::Off,
        auto_wave.enabled && (phase != WavePhase::Idle || game.wave_number >= game.max_waves
            || tutorial_active_spec(tutorial.step)) ==> r == AutoWaveTick::Reset,
        auto_wave.enabled && phase == WavePhase::Idle && game.wave_number < game.max_waves
            && !tutorial_active_spec(tutorial.step) ==> r == AutoWaveTick::CountDown,
{
    if !auto_wave.enabled {
        return AutoWaveTick::Off;
    }
    if phase != WavePhase::Idle || game.wave_number >= game.max_waves || is_tutorial_active(tutorial) {
        return AutoWaveTick::Reset;
    }
    AutoWaveTick::CountDown
}

/// Radius of a healer's aura, in tenths.
pub const HEALER_AURA_RADIUS_DECI: u32 = 40;
/// Hit points a healer restores per second to each enemy in its aura.
pub const HEALER_HEAL_PER_SECOND: u32 = 5;

pub open spec fn spawn_y_offset_deci_spec(enemy_type: EnemyType, stats: EnemyStats) -> u32 {
    if enemy_type == EnemyType::Jellyfish {
        30
    } else if stats.is_flying {
        20
    } else {
        match enemy_type {
            EnemyType::Stegosaurus => 6,
            EnemyType::Triceratops => 5,
            EnemyType::Dodo => 5,
            EnemyType::Caveman => 10,
            EnemyType::Legionary => 7,
            EnemyType::Minotaur => 8,
            _ => 0,
        }
    }
}

/// How high above the path an enemy walks or flies, in tenths, so that its model stands
/// on the ground (jellyfish float highest).
pub fn spawn_y_offset_deci(enemy_type: EnemyType) -> (r: u32)
    ensures
        r == spawn_y_offset_deci_spec(enemy_type, enemy_stats_spec(enemy_type)),
{
    if let EnemyType::Jellyfish = enemy_type {
        return 30;
    }
    let stats = crate::data::enemy_stats(enemy_type);
    if stats.is_flying {
        return 20;
    }
    match enemy_type {
        EnemyType::Stegosaurus => 6,
        EnemyType::Triceratops => 5,
        EnemyType::Dodo => 5,
        EnemyType::Caveman => 10,
        EnemyType::Legionary => 7,
        EnemyType::Minotaur => 8,
        _ => 0,
    }
}

/// The lateral spread of a spawned enemy as a bucket in 0..=32767 (the middle, 16383.5,
/// is the path's center line), from a linear congruential hash of its spawn index, so
/// that health bars of neighbours do not merge.
pub fn lateral_offset_bucket(spawn_index: u32) -> (r: u32)
    ensures
        r == ((((spawn_index as int * 1103515245 + 12345) % 0x1_0000_0000) / 0x1_0000) % 0x8000),
        r <= 0x7FFF,
{
    let hash = spawn_index.wrapping_mul(1103515245).wrapping_add(12345);
    let r = (hash >> 16) & 0x7FFF;
    proof {
        let m = (spawn_index as int * 1103515245) % 0x1_0000_0000;
        assert(spawn_index.wrapping_mul(1103515245) == m);
        vstd::arithmetic::div_mod::lemma_add_mod_noop_right(12345, spawn_index as int * 1103515245, 0x1_0000_0000);
        assert((hash >> 16) & 0x7FFF == (hash / 0x1_0000) % 0x8000) by (bit_vector);
    }
    r
}

// ---------------------------------------------------------------------------
// Laws of the wave lifecycle
// ---------------------------------------------------------------------------

/// A wave state whose spawning progress points into its groups.
pub open spec fn wave_model_wf(w: WaveModel) -> bool {
    &&& 0 <= w.current_group <= w.groups.len()
    &&& w.current_group < w.groups.len() ==> w.spawned_in_group <= w.groups[w.current_group].count
    &&& w.current_group == w.groups.len() ==> w.spawned_in_group == 0
}

/// The number of enemies that a list of groups spawns.
pub open spec fn group_total(groups: Seq<SpawnGroup>) -> int
    decreases groups.len(),
{
    if groups.len() == 0 {
        0
    } else {
        group_total(groups.drop_last()) + groups.last().count
    }
}

/// The number of enemies the current wave has spawned so far.
pub open spec fn spawned_so_far(w: WaveModel) -> int {
    group_total(w.groups.take(w.current_group)) + w.spawned_in_group
}

pub open spec fn is_wave_start(a: WaveAction) -> bool {
    a == WaveAction::WaveStarted || a is CalledEarly
}

pub open spec fn is_spawn(a: WaveAction) -> bool {
    a is SpawnEnemy
}

/// The wave counter stays within the level's waves: at most the number of waves, and below
/// it while a wave runs.
pub open spec fn wave_counter_inv(w: WaveModel, g: GameData) -> bool {
    &&& g.wave_number <= g.max_waves
    &&& w.phase != WavePhase::Idle ==> g.wave_number < g.max_waves
}

/// Every step keeps the wave counter within the level's waves; the counter never goes
/// back and moves by at most one in a frame; a wave that starts is the one the counter
/// names, so no wave is skipped; lives and the wave limit are untouched.
pub proof fn lemma_wave_step_counts_waves(w: WaveModel, g: GameData, level: u32, btn: bool, clock: SpawnClock)
    requires
        wave_counter_inv(w, g),
        wave_step_fits(w, g, level, btn),
    ensures
        ({
            let (w2, g2, a) = wave_step(w, g, level, btn, clock);
            &&& wave_counter_inv(w2, g2)
            &&& g.wave_number <= g2.wave_number <= g.wave_number + 1
            &&& is_wave_start(a) ==> w2 == started_wave(w, level, g2.wave_number as int)
                && (w.phase == WavePhase::Idle ==> g2.wave_number == g.wave_number)
                && (w.phase == WavePhase::Active ==> g2.wave_number == g.wave_number + 1)
            &&& g2.max_waves == g.max_waves
            &&& g2.lives == g.lives
            &&& g2.max_lives == g.max_lives
        }),
{
}

/// A wave step pays gold only for an early call, and then exactly the bonus it reports.
pub proof fn lemma_wave_step_gold(w: WaveModel, g: GameData, level: u32, btn: bool, clock: SpawnClock)
    requires
        wave_step_fits(w, g, level, btn),
    ensures
        ({
            let (w2, g2, a) = wave_step(w, g, level, btn, clock);
            g2.gold == g.gold + match a {
                WaveAction::CalledEarly { bonus } => bonus as int,
                _ => 0int,
            }
        }),
{
}

/// Every step keeps the spawning progress inside the wave's groups.
pub proof fn lemma_wave_step_wf(w: WaveModel, g: GameData, level: u32, btn: bool, clock: SpawnClock)
    requires
        wave_model_wf(w),
    ensures
        wave_model_wf(wave_step(w, g, level, btn, clock).0),
{
}

/// An enemy spawns only while spawning, only once the group's delay and interval have
/// passed, only from the current group, and only when that group's pulse has come; the
/// spawn adds one active enemy, and no other step changes the active count.
pub proof fn lemma_wave_step_spawns(w: WaveModel, g: GameData, level: u32, btn: bool, clock: SpawnClock)
    requires
        wave_step_fits(w, g, level, btn),
    ensures
        ({
            let (w2, g2, a) = wave_step(w, g, level, btn, clock);
            &&& a matches WaveAction::SpawnEnemy { enemy_type, spawn_index } ==> {
                &&& w.phase == WavePhase::Spawning
                &&& clock.delay_reached && clock.interval_reached
                &&& 0 <= w.current_group < w.groups.len()
                &&& enemy_type == w.groups[w.current_group].enemy_type
                &&& w.groups[w.current_group].pulse <= w.current_pulse
                &&& spawn_index == w.active_enemies + 1
            }
            &&& w2.active_enemies == w.active_enemies + if is_spawn(a) { 1int } else { 0int }
        }),
{
}

proof fn lemma_group_total_take_step(s: Seq<SpawnGroup>, k: int)
    requires
        0 <= k < s.len(),
    ensures
        group_total(s.take(k + 1)) == group_total(s.take(k)) + s[k].count,
{
    assert(s.take(k + 1).drop_last() =~= s.take(k));
}

proof fn lemma_group_total_take_bounded(s: Seq<SpawnGroup>, k: int)
    requires
        0 <= k <= s.len(),
    ensures
        group_total(s.take(k)) <= group_total(s),
    decreases s.len() - k,
{
    if k == s.len() {
        assert(s.take(k) =~= s);
    } else {
        lemma_group_total_take_step(s, k);
        lemma_group_total_take_bounded(s, k + 1);
    }
}

/// Within a wave, each step spawns at most one enemy and counts it: the number spawned so
/// far grows by exactly the spawns reported, and never exceeds the wave's total.
pub proof fn lemma_wave_step_progress(w: WaveModel, g: GameData, level: u32, btn: bool, clock: SpawnClock)
    requires
        wave_model_wf(w),
        wave_step_fits(w, g, level, btn),
        !is_wave_start(wave_step(w, g, level, btn, clock).2),
    ensures
        ({
            let (w2, g2, a) = wave_step(w, g, level, btn, clock);
            &&& w2.groups == w.groups
            &&& spawned_so_far(w2) == spawned_so_far(w) + if is_spawn(a) { 1int } else { 0int }
            &&& spawned_so_far(w2) <= group_total(w2.groups)
        }),
{
    let (w2, g2, a) = wave_step(w, g, level, btn, clock);
    if w.phase == WavePhase::Spawning && 0 <= w.current_group < w.groups.len() {
        lemma_group_total_take_step(w.groups, w.current_group);
    }
    lemma_wave_step_wf(w, g, level, btn, clock);
    if w2.current_group < w2.groups.len() {
        lemma_group_total_take_step(w2.groups, w2.current_group);
        lemma_group_total_take_bounded(w2.groups, w2.current_group + 1);
    } else {
        lemma_group_total_take_bounded(w2.groups, w2.current_group);
    }
}

/// A started wave holds the groups of the level's definition for that wave, at its start.
pub proof fn lemma_started_wave_wf(w: WaveModel, level: u32, wave_number: int)
    ensures
        wave_model_wf(started_wave(w, level, wave_number)),
        spawned_so_far(started_wave(w, level, wave_number)) == 0,
{
    let s = started_wave(w, level, wave_number);
    assert(s.groups.take(0) =~= Seq::<SpawnGroup>::empty());
}

/// Between pulses the next pulse starts only once the minimum pause has passed with at
/// most `PULSE_ENEMY_THRESHOLD` enemies left, or once the longest wait has run out; it then
/// resumes spawning at the next pulse with the same groups. Until then a frame changes
/// nothing: wave, game data and action stay put.
pub proof fn lemma_pulse_pause_waits(w: WaveModel, g: GameData, level: u32, btn: bool, clock: SpawnClock)
    requires
        w.phase == WavePhase::PulsePause,
        wave_step_fits(w, g, level, btn),
    ensures
        ({
            let (w2, g2, a) = wave_step(w, g, level, btn, clock);
            let ready = (w.active_enemies <= PULSE_ENEMY_THRESHOLD && clock.min_pause_met) || clock.pause_timed_out;
            &&& ready ==> {
                &&& a == WaveAction::PulseStarted
                &&& w2.phase == WavePhase::Spawning
                &&& w2.current_pulse == w.current_pulse + 1
                &&& w2.groups == w.groups
                &&& w2.current_group == w.current_group
                &&& w2.active_enemies == w.active_enemies
                &&& g2 == g
            }
            &&& !ready ==> w2 == w && g2 == g && a == WaveAction::Nothing
        }),
{
}

} // verus!
