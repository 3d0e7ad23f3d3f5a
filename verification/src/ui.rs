//! The decisions behind the game's buttons and what its panels and screens show: building,
//! upgrading and selling towers, the speed toggle, the menus, and the confirm dialog's reset.
use vstd::prelude::*;

use crate::components::{Element, TowerInvestment, TowerLevel};
use crate::data::{
    element_specializations, element_specializations_spec, hero_info, hero_info_spec, hero_stats, hero_stats_spec,
    hero_unlock_level, hero_unlock_level_spec, level_info, level_info_spec, tower_base_cost, tower_stats,
    tower_stats_spec, lemma_specializations_of_element, SpecializationDef, TowerSpecialization, MAX_LEVELS,
    SELL_REFUND_RATE_PCT, TOWER_MAX_LEVEL,
};
use crate::systems::tower_spec::{specialization_allowed, specialization_cost};
use crate::systems::tutorial::{is_tutorial_active, tutorial_active_spec, TutorialState};
use crate::resources::{GameData, GameSpeed, NeedsFreshSetup, Selection, WaveModel, WavePhase, WaveState};
use crate::data::{HeroType, UpgradeKind};
use crate::resources::AdminUnlocks;
use crate::save::{
    hero_unlocked, is_hero_unlocked, is_level_unlocked, level_unlocked, stars_of, SaveData, SaveModel,
};
use crate::states::{AppState, GameOutcome};
use crate::systems::wave::{wave_groups, wave_step, wave_step_fits, SpawnClock, WaveAction};

verus! {

/// A freshly built tower.
#[derive(Debug, Clone, Copy, PartialEq, Eq, Structural)]
pub struct BuiltTower {
    pub element: Element,
    pub level: TowerLevel,
    pub investment: TowerInvestment,
}

/// Whether the tutorial lets `element` be built: while it runs, only earth towers.
pub open spec fn tutorial_allows(element: Element, tutorial: TutorialState) -> bool {
    !tutorial_active_spec(tutorial.step) || element == Element::Earth
}

/// Whether a tower can be built: the tutorial allows its element and the gold covers its
/// level-0 cost.
pub open spec fn build_allowed(gold: u32, element: Element, tutorial: TutorialState) -> bool {
    tutorial_allows(element, tutorial) && gold >= tower_stats_spec(element, 0).cost
}

/// Builds a level-0 tower of `element` if allowed, paying for it; nothing changes otherwise.
pub fn build_tower(game: &mut GameData, element: Element, tutorial: &TutorialState) -> (r: Option<BuiltTower>)
    ensures
        ({
            let cost = tower_stats_spec(element, 0).cost;
            if build_allowed(old(game).gold, element, *tutorial) {
                &&& r == Some(BuiltTower { element, level: TowerLevel(0), investment: TowerInvestment(cost) })
                &&& *final(game) == (GameData { gold: (old(game).gold - cost) as u32, ..*old(game) })
            } else {
                r is None && *final(game) == *old(game)
            }
        }),
{
    if is_tutorial_active(tutorial) && element != Element::Earth {
        return None;
    }
    let stats = tower_stats(element, 0);
    if game.gold < stats.cost {
        return None;
    }
    game.gold = game.gold - stats.cost;
    Some(BuiltTower { element, level: TowerLevel(0), investment: TowerInvestment(stats.cost) })
}

/// Whether a tower can be upgraded: below the top level, and the gold covers the next level.
pub open spec fn upgrade_allowed(gold: u32, element: Element, level: TowerLevel) -> bool {
    level.0 < TOWER_MAX_LEVEL && gold >= tower_stats_spec(element, (level.0 + 1) as u8).cost
}

/// Upgrades a tower one level if allowed, paying for it and adding the price to its
/// investment. Returns whether it was upgraded; nothing changes otherwise.
pub fn upgrade_tower(
    game: &mut GameData,
    element: Element,
    level: &mut TowerLevel,
    investment: &mut TowerInvestment,
) -> (upgraded: bool)
    requires
        old(investment).0 + tower_stats_spec(element, 2).cost <= u32::MAX,
    ensures
        upgraded == upgrade_allowed(old(game).gold, element, *old(level)),
        upgraded ==> {
            let cost = tower_stats_spec(element, (old(level).0 + 1) as u8).cost;
            &&& *final(game) == (GameData { gold: (old(game).gold - cost) as u32, ..*old(game) })
            &&& final(level).0 == old(level).0 + 1
            &&& final(investment).0 == old(investment).0 + cost
        },
        !upgraded ==> *final(game) == *old(game) && *final(level) == *old(level) && *final(investment) == *old(
            investment,
        ),
{
    if level.0 >= TOWER_MAX_LEVEL {
        return false;
    }
    let new_stats = tower_stats(element, level.0 + 1);
    if game.gold < new_stats.cost {
        return false;
    }
    game.gold = game.gold - new_stats.cost;
    investment.0 = investment.0 + new_stats.cost;
    level.0 = level.0 + 1;
    true
}

/// The sell refund rate in percent: the save's rate, or the base rate without a save.
pub fn refund_rate_pct(save: Option<&SaveData>) -> (r: u32)
    ensures
        r == match save {
            Some(s) => SELL_REFUND_RATE_PCT + 5 * crate::save::upgrade_level_of(
                s@,
                crate::data::UpgradeKind::SalvageExpert,
            ),
            None => SELL_REFUND_RATE_PCT as int,
        },
{
    match save {
        Some(s) => s.sell_refund_rate_pct(),
        None => SELL_REFUND_RATE_PCT,
    }
}

/// The refund for selling a tower: the investment times the rate, rounded down.
pub open spec fn sell_refund_spec(investment: u32, rate_pct: u32) -> int {
    (investment as int * rate_pct as int) / 100
}

/// Sells a tower: pays its refund and returns it.
pub fn sell_tower(game: &mut GameData, investment: TowerInvestment, rate_pct: u32) -> (refund: u32)
    requires
        old(game).gold + sell_refund_spec(investment.0, rate_pct) <= u32::MAX,
    ensures
        refund == sell_refund_spec(investment.0, rate_pct),
        *final(game) == (GameData { gold: (old(game).gold + refund) as u32, ..*old(game) }),
{
    let product: u64 = (investment.0 as u64) * (rate_pct as u64);
    let refund = (product / 100) as u32;
    game.gold = game.gold + refund;
    refund
}

/// Whether a button's price is covered.
pub fn is_affordable(gold: u32, cost: u32) -> (r: bool)
    ensures
        r == (gold >= cost),
{
    gold >= cost
}

/// The speed toggle: 1x, then 2x, then 3x, then back to 1x (any other value resets to 1x).
pub fn next_game_speed(speed: u32) -> (r: u32)
    ensures
        r == if speed == 1 { 2u32 } else if speed == 2 { 3u32 } else { 1u32 },
{
    match speed {
        1 => 2,
        2 => 3,
        _ => 1,
    }
}

// ---------------------------------------------------------------------------
// HUD and the wave button
// ---------------------------------------------------------------------------

/// The status shown beside the wave counter.
#[derive(Debug, Clone, Copy, PartialEq, Eq, Structural)]
pub enum WaveStatus {
    Complete,
    Ready,
    Spawning,
    NextPulse,
    CallEarly,
    Active,
}

pub open spec fn wave_status_spec(phase: WavePhase, game: GameData) -> WaveStatus {
    match phase {
        WavePhase::Idle => if game.wave_number >= game.max_waves { WaveStatus::Complete } else { WaveStatus::Ready },
        WavePhase::Spawning => WaveStatus::Spawning,
        WavePhase::PulsePause => WaveStatus::NextPulse,
        WavePhase::Active => if game.wave_number < game.max_waves { WaveStatus::CallEarly } else { WaveStatus::Active },
    }
}

/// The HUD's wave status.
pub fn wave_status(phase: WavePhase, game: &GameData) -> (r: WaveStatus)
    ensures
        r == wave_status_spec(phase, *game),
{
    match phase {
        WavePhase::Idle => if game.wave_number >= game.max_waves { WaveStatus::Complete } else { WaveStatus::Ready },
        WavePhase::Spawning => WaveStatus::Spawning,
        WavePhase::PulsePause => WaveStatus::NextPulse,
        WavePhase::Active => if game.wave_number < game.max_waves { WaveStatus::CallEarly } else { WaveStatus::Active },
    }
}

impl WaveStatus {
    /// The HUD text of a status.
    pub fn text(self) -> (r: &'static str)
        ensures
            r@ == match self {
                WaveStatus::Complete => "[Complete!]"@,
                WaveStatus::Ready => "[Ready]"@,
                WaveStatus::Spawning => "[Spawning...]"@,
                WaveStatus::NextPulse => "[Next pulse...]"@,
                WaveStatus::CallEarly => "[Call Early]"@,
                WaveStatus::Active => "[Active]"@,
            },
    {
        match self {
            WaveStatus::Complete => "[Complete!]",
            WaveStatus::Ready => "[Ready]",
            WaveStatus::Spawning => "[Spawning...]",
            WaveStatus::NextPulse => "[Next pulse...]",
            WaveStatus::CallEarly => "[Call Early]",
            WaveStatus::Active => "[Active]",
        }
    }
}

/// What the wave button shows.
#[derive(Debug, Clone, Copy, PartialEq, Eq, Structural)]
pub enum WaveButtonLabel {
    Complete,
    SendWave,
    CallEarly,
    InProgress,
}

pub open spec fn wave_button_label_spec(phase: WavePhase, game: GameData) -> WaveButtonLabel {
    if phase == WavePhase::Idle && game.wave_number >= game.max_waves {
        WaveButtonLabel::Complete
    } else if phase == WavePhase::Idle {
        WaveButtonLabel::SendWave
    } else if phase == WavePhase::Active && game.wave_number < game.max_waves {
        WaveButtonLabel::CallEarly
    } else {
        WaveButtonLabel::InProgress
    }
}

/// The wave button's label.
pub fn wave_button_label(phase: WavePhase, game: &GameData) -> (r: WaveButtonLabel)
    ensures
        r == wave_button_label_spec(phase, *game),
{
    match phase {
        WavePhase::Idle => if game.wave_number >= game.max_waves { WaveButtonLabel::Complete } else { WaveButtonLabel::SendWave },
        WavePhase::Active => if game.wave_number < game.max_waves { WaveButtonLabel::CallEarly } else { WaveButtonLabel::InProgress },
        _ => WaveButtonLabel::InProgress,
    }
}

impl WaveButtonLabel {
    /// The button text of a label.
    pub fn text(self) -> (r: &'static str)
        ensures
            r@ == match self {
                WaveButtonLabel::Complete => "Complete!"@,
                WaveButtonLabel::SendWave => "Send Wave"@,
                WaveButtonLabel::CallEarly => "Call Early"@,
                WaveButtonLabel::InProgress => "In Progress..."@,
            },
    {
        match self {
            WaveButtonLabel::Complete => "Complete!",
            WaveButtonLabel::SendWave => "Send Wave",
            WaveButtonLabel::CallEarly => "Call Early",
            WaveButtonLabel::InProgress => "In Progress...",
        }
    }
}

pub open spec fn wave_button_accepts_spec(phase: WavePhase, game: GameData) -> bool {
    (phase == WavePhase::Idle || phase == WavePhase::Active) && game.wave_number < game.max_waves
}

/// Whether a press of the wave button counts: to start a wave when idle, or to call the
/// next one early while one is active, and only while waves are left.
pub fn wave_button_accepts(phase: WavePhase, game: &GameData) -> (r: bool)
    ensures
        r == wave_button_accepts_spec(phase, *game),
{
    let can_start = phase == WavePhase::Idle && game.wave_number < game.max_waves;
    let can_call_early = phase == WavePhase::Active && game.wave_number < game.max_waves;
    can_start || can_call_early
}

/// The wave button takes a press exactly when it invites one ("Send Wave" or "Call Early"),
/// and the HUD status then reads "Ready" or "Call Early".
pub proof fn lemma_wave_button_consistent(phase: WavePhase, game: GameData)
    ensures
        wave_button_accepts_spec(phase, game) <==> (wave_button_label_spec(phase, game) == WaveButtonLabel::SendWave
            || wave_button_label_spec(phase, game) == WaveButtonLabel::CallEarly),
        wave_button_accepts_spec(phase, game) <==> (wave_status_spec(phase, game) == WaveStatus::Ready
            || wave_status_spec(phase, game) == WaveStatus::CallEarly),
{
}

/// A press the wave button takes starts a wave: at once when idle; during an active wave
/// whose enemies are all gone, the next wave with no bonus (the finished one counted once),
/// when it is not the last; while enemies remain, the next wave early for its bonus, when
/// it is not beyond the last (otherwise the button invites the press but it is dropped).
pub proof fn lemma_accepted_press_starts_wave(w: crate::resources::WaveModel, g: GameData, level: u32, clock: SpawnClock)
    requires
        wave_button_accepts_spec(w.phase, g),
        wave_step_fits(w, g, level, true),
    ensures
        w.phase == WavePhase::Idle ==> wave_step(w, g, level, true, clock).2 == WaveAction::WaveStarted
            && wave_step(w, g, level, true, clock).0.phase == WavePhase::Spawning,
        w.phase == WavePhase::Active && w.active_enemies == 0 && g.wave_number + 2 < g.max_waves ==> {
            let (w2, g2, a) = wave_step(w, g, level, true, clock);
            &&& a == WaveAction::WaveStarted
            &&& w2.phase == WavePhase::Spawning
            &&& w2.groups == wave_groups(level, g.wave_number + 1)
            &&& g2 == (GameData { wave_number: (g.wave_number + 1) as u32, ..g })
        },
        w.phase == WavePhase::Active && w.active_enemies != 0 && g.wave_number + 1 < g.max_waves ==> {
            let (w2, g2, a) = wave_step(w, g, level, true, clock);
            &&& a is CalledEarly
            &&& w2.phase == WavePhase::Spawning
            &&& w2.groups == wave_groups(level, g.wave_number + 1)
            &&& g2.wave_number == g.wave_number + 1
        },
{
}

// ---------------------------------------------------------------------------
// Menus
// ---------------------------------------------------------------------------

/// The buttons of the menu screens.
#[derive(Debug, Clone, Copy, PartialEq, Eq, Structural)]
pub enum MenuAction {
    Campaign,
    Shop,
    Logbook,
    ModelDebug,
    SelectLevel(u32),
    SelectHero(HeroType),
    BackToMenu,
    BackToLevelSelect,
    StartGame,
    LogbookEnemies,
    LogbookTowers,
    LogbookBack,
    BuyUpgrade(UpgradeKind),
    Credits,
}

/// The screen a main-menu button leads to.
pub fn main_menu_target(action: MenuAction) -> (r: Option<AppState>)
    ensures
        r == match action {
            MenuAction::Campaign => Some(AppState::LevelSelect),
            MenuAction::Shop => Some(AppState::UpgradeShop),
            MenuAction::Logbook => Some(AppState::Logbook),
            MenuAction::Credits => Some(AppState::Credits),
            MenuAction::ModelDebug => Some(AppState::ModelDebug),
            _ => None,
        },
{
    match action {
        MenuAction::Campaign => Some(AppState::LevelSelect),
        MenuAction::Shop => Some(AppState::UpgradeShop),
        MenuAction::Logbook => Some(AppState::Logbook),
        MenuAction::Credits => Some(AppState::Credits),
        MenuAction::ModelDebug => Some(AppState::ModelDebug),
        _ => None,
    }
}

/// What a level-select button does: the level to play and the next screen.
#[derive(Debug, Clone, Copy, PartialEq, Eq, Structural)]
pub struct MenuChoice {
    pub next_state: AppState,
    pub level: Option<u32>,
}

/// A level button opens hero selection for an unlocked level; "back" returns to the main
/// menu; anything else (a locked level too) does nothing.
pub fn level_select_choice(action: MenuAction, save: &SaveData, admin: &AdminUnlocks) -> (r: Option<MenuChoice>)
    ensures
        r == match action {
            MenuAction::SelectLevel(level) => if level_unlocked(save@, *admin, level) {
                Some(MenuChoice { next_state: AppState::HeroSelect, level: Some(level) })
            } else {
                None
            },
            MenuAction::BackToMenu => Some(MenuChoice { next_state: AppState::MainMenu, level: None }),
            _ => None,
        },
{
    match action {
        MenuAction::SelectLevel(level) => {
            if is_level_unlocked(save, admin, level) {
                Some(MenuChoice { next_state: AppState::HeroSelect, level: Some(level) })
            } else {
                None
            }
        },
        MenuAction::BackToMenu => Some(MenuChoice { next_state: AppState::MainMenu, level: None }),
        _ => None,
    }
}

/// What a hero-select button does.
#[derive(Debug, Clone, Copy, PartialEq, Eq, Structural)]
pub enum HeroSelectChoice {
    Nothing,
    /// Make this hero the active one and rebuild the screen.
    Select(HeroType),
    /// Start the level with the active hero (a fresh setup).
    Start,
    BackToLevelSelect,
}

/// Only unlocked heroes can be selected, and the level starts only with an unlocked hero.
pub fn hero_select_choice(action: MenuAction, active_hero: HeroType, save: &SaveData, admin: &AdminUnlocks) -> (r: HeroSelectChoice)
    ensures
        r == match action {
            MenuAction::SelectHero(hero) => if hero_unlocked(save@, *admin, hero) {
                HeroSelectChoice::Select(hero)
            } else {
                HeroSelectChoice::Nothing
            },
            MenuAction::StartGame => if hero_unlocked(save@, *admin, active_hero) {
                HeroSelectChoice::Start
            } else {
                HeroSelectChoice::Nothing
            },
            MenuAction::BackToLevelSelect => HeroSelectChoice::BackToLevelSelect,
            _ => HeroSelectChoice::Nothing,
        },
{
    match action {
        MenuAction::SelectHero(hero) => {
            if is_hero_unlocked(hero, save, admin) {
                HeroSelectChoice::Select(hero)
            } else {
                HeroSelectChoice::Nothing
            }
        },
        MenuAction::StartGame => {
            if is_hero_unlocked(active_hero, save, admin) {
                HeroSelectChoice::Start
            } else {
                HeroSelectChoice::Nothing
            }
        },
        MenuAction::BackToLevelSelect => HeroSelectChoice::BackToLevelSelect,
        _ => HeroSelectChoice::Nothing,
    }
}

/// The action a confirm dialog asks about.
#[derive(Debug, Clone, Copy, PartialEq, Eq, Structural)]
pub enum PendingConfirm {
    Nothing,
    Restart,
    Quit,
}

/// Where confirming leads: a restart goes back through window setup, quitting goes to
/// level select; with nothing pending, confirming does nothing. On a confirmation the game
/// data, wave state, selection and speed are reset and a fresh setup is requested.
pub fn confirm_target(pending: PendingConfirm) -> (r: Option<AppState>)
    ensures
        r == match pending {
            PendingConfirm::Nothing => None,
            PendingConfirm::Restart => Some(AppState::WaitingForWindow),
            PendingConfirm::Quit => Some(AppState::LevelSelect),
        },
{
    match pending {
        PendingConfirm::Nothing => None,
        PendingConfirm::Restart => Some(AppState::WaitingForWindow),
        PendingConfirm::Quit => Some(AppState::LevelSelect),
    }
}

// ---------------------------------------------------------------------------
// What the panels and screens show
// ---------------------------------------------------------------------------

/// One button of the build menu: an element, its price, whether the gold covers it, and
/// whether the tutorial lets it be pressed.
#[derive(Debug, Clone, Copy, PartialEq, Eq, Structural)]
pub struct BuildOption {
    pub element: Element,
    pub cost: u32,
    pub affordable: bool,
    pub allowed: bool,
}

pub open spec fn build_option_spec(element: Element, gold: u32, tutorial: TutorialState) -> BuildOption {
    BuildOption {
        element,
        cost: tower_stats_spec(element, 0).cost,
        affordable: gold >= tower_stats_spec(element, 0).cost,
        allowed: tutorial_allows(element, tutorial),
    }
}

fn build_option(element: Element, gold: u32, tutorial: &TutorialState) -> (r: BuildOption)
    ensures
        r == build_option_spec(element, gold, *tutorial),
{
    let cost = tower_base_cost(element);
    let allowed = !is_tutorial_active(tutorial) || element == Element::Earth;
    BuildOption { element, cost, affordable: gold >= cost, allowed }
}

/// The build menu: the four elements in menu order, each priced at its level-0 tower; while
/// the tutorial runs only the earth button can be pressed.
pub fn build_options(gold: u32, tutorial: &TutorialState) -> (r: [BuildOption; 4])
    ensures
        r@ == seq![
            build_option_spec(Element::Lightning, gold, *tutorial),
            build_option_spec(Element::Earth, gold, *tutorial),
            build_option_spec(Element::Ice, gold, *tutorial),
            build_option_spec(Element::Fire, gold, *tutorial),
        ],
{
    let r = [
        build_option(Element::Lightning, gold, tutorial),
        build_option(Element::Earth, gold, tutorial),
        build_option(Element::Ice, gold, tutorial),
        build_option(Element::Fire, gold, tutorial),
    ];
    assert(r@ =~= seq![
        build_option_spec(Element::Lightning, gold, *tutorial),
        build_option_spec(Element::Earth, gold, *tutorial),
        build_option_spec(Element::Ice, gold, *tutorial),
        build_option_spec(Element::Fire, gold, *tutorial),
    ]);
    r
}

/// One specialization offered on a top-level tower's panel.
#[derive(Debug, Clone, Copy)]
pub struct SpecOption {
    pub spec: TowerSpecialization,
    pub name: &'static str,
    pub description: &'static str,
    pub cost: u32,
    pub affordable: bool,
}

/// What the middle of a tower's panel offers.
#[derive(Debug, Clone, Copy)]
pub enum PanelAction {
    /// Below the top level: the next level's price and whether the gold covers it.
    Upgrade { cost: u32, affordable: bool },
    /// At the top level and not yet specialized: the element's two specializations.
    Specialize { options: [SpecOption; 2] },
    /// Already specialized.
    Specialized,
}

/// A tower's panel.
#[derive(Debug, Clone, Copy)]
pub struct TowerPanel {
    /// The tower's name, or its specialization's name.
    pub title: &'static str,
    /// The level shown beside the tower's name (counting from 1); none beside a
    /// specialization's name.
    pub shown_level: Option<u8>,
    pub action: PanelAction,
    /// The refund the sell button shows: what selling pays at the refund rate in force.
    pub sell_value: u32,
    /// Earth towers get a "Set Rally Point" button.
    pub rally_button: bool,
}

/// The name of a specialization of `element`, if `spec` is one of its two.
pub open spec fn spec_name_of(element: Element, spec: TowerSpecialization) -> Option<&'static str> {
    let options = element_specializations_spec(element);
    if options[0].0 == spec {
        Some(options[0].1.name)
    } else if options[1].0 == spec {
        Some(options[1].1.name)
    } else {
        None
    }
}

/// The specialization choice built from one of an element's options.
pub open spec fn spec_option_spec(option: (TowerSpecialization, SpecializationDef), gold: u32) -> SpecOption {
    SpecOption {
        spec: option.0,
        name: option.1.name,
        description: option.1.description,
        cost: option.1.cost,
        affordable: gold >= option.1.cost,
    }
}

/// The panel of a tower with the given element, level (at most the top level),
/// investment and specialization, while the purse holds `gold` and selling pays
/// `rate_pct` percent.
pub open spec fn tower_panel_spec(
    element: Element,
    level: u8,
    investment: u32,
    spec: Option<TowerSpecialization>,
    gold: u32,
    rate_pct: u32,
) -> TowerPanel {
    let spec_title = match spec {
        Some(s) => spec_name_of(element, s),
        None => None,
    };
    let options = element_specializations_spec(element);
    TowerPanel {
        title: match spec_title {
            Some(name) => name,
            None => tower_stats_spec(element, level).name,
        },
        shown_level: match spec_title {
            Some(_) => None,
            None => Some((level + 1) as u8),
        },
        action: if level < TOWER_MAX_LEVEL {
            PanelAction::Upgrade {
                cost: tower_stats_spec(element, (level + 1) as u8).cost,
                affordable: gold >= tower_stats_spec(element, (level + 1) as u8).cost,
            }
        } else if spec is None {
            PanelAction::Specialize { options: [spec_option_spec(options[0], gold), spec_option_spec(options[1], gold)] }
        } else {
            PanelAction::Specialized
        },
        sell_value: sell_refund_spec(investment, rate_pct) as u32,
        rally_button: element == Element::Earth,
    }
}

fn spec_option(option: &(TowerSpecialization, SpecializationDef), gold: u32) -> (r: SpecOption)
    ensures
        r == spec_option_spec(*option, gold),
{
    SpecOption {
        spec: option.0,
        name: option.1.name,
        description: option.1.description,
        cost: option.1.cost,
        affordable: gold >= option.1.cost,
    }
}

/// What a tower's panel shows: its title and level, the upgrade or the specializations on
/// offer (or that it is specialized), the refund selling pays at `rate_pct` (the rate of
/// `refund_rate_pct`) and, for earth towers, the rally button.
pub fn tower_panel(
    element: Element,
    level: u8,
    investment: u32,
    spec: Option<TowerSpecialization>,
    gold: u32,
    rate_pct: u32,
) -> (r: TowerPanel)
    requires
        level <= TOWER_MAX_LEVEL,
        sell_refund_spec(investment, rate_pct) <= u32::MAX,
    ensures
        r == tower_panel_spec(element, level, investment, spec, gold, rate_pct),
{
    let stats = tower_stats(element, level);
    let options = element_specializations(element);
    let spec_title: Option<&'static str> = match spec {
        Some(s) => {
            if options[0].0 == s {
                Some(options[0].1.name)
            } else if options[1].0 == s {
                Some(options[1].1.name)
            } else {
                None
            }
        },
        None => None,
    };
    let (title, shown_level) = match spec_title {
        Some(name) => (name, None),
        None => (stats.name, Some(level + 1)),
    };
    let action = if level < TOWER_MAX_LEVEL {
        let cost = tower_stats(element, level + 1).cost;
        PanelAction::Upgrade { cost, affordable: gold >= cost }
    } else if spec.is_none() {
        PanelAction::Specialize { options: [spec_option(&options[0], gold), spec_option(&options[1], gold)] }
    } else {
        PanelAction::Specialized
    };
    assert((investment as u64) * (rate_pct as u64) <= u64::MAX) by (nonlinear_arith)
        requires
            investment <= u32::MAX,
            rate_pct <= u32::MAX;
    let sell_value = ((investment as u64) * (rate_pct as u64) / 100) as u32;
    TowerPanel { title, shown_level, action, sell_value, rally_button: element == Element::Earth }
}

/// A row of stars: `filled` full ones, then empty ones up to three.
#[derive(Debug, Clone, Copy, PartialEq, Eq, Structural)]
pub struct StarRow {
    pub filled: u8,
    pub empty: u8,
}

/// One card of the level-select screen.
#[derive(Debug, Clone, Copy)]
pub struct LevelCard {
    pub level: u32,
    pub unlocked: bool,
    /// The level's name, or "LOCKED".
    pub title: &'static str,
    /// The era, on an unlocked level.
    pub era: Option<&'static str>,
    /// The best stars, on an unlocked level that has some.
    pub stars: Option<StarRow>,
    /// The number of waves, on an unlocked level.
    pub waves: Option<u32>,
}

/// The card of `level` on the level-select screen.
pub open spec fn level_card_spec(save: SaveModel, admin: AdminUnlocks, level: u32) -> LevelCard {
    let unlocked = level_unlocked(save, admin, level);
    let info = level_info_spec(level);
    let stars = stars_of(save, level as int);
    LevelCard {
        level,
        unlocked,
        title: if unlocked { info.name } else { "LOCKED" },
        era: if unlocked { Some(info.era) } else { None },
        stars: if unlocked && stars > 0 {
            Some(StarRow { filled: stars, empty: if stars < 3 { (3 - stars) as u8 } else { 0 } })
        } else {
            None
        },
        waves: if unlocked { Some(info.waves) } else { None },
    }
}

/// The card of a level on the level-select screen: locked levels show only "LOCKED";
/// unlocked ones their name, era, best stars (when beaten) and number of waves.
pub fn level_card(save: &SaveData, admin: &AdminUnlocks, level: u32) -> (r: LevelCard)
    ensures
        r == level_card_spec(save@, *admin, level),
{
    let unlocked = is_level_unlocked(save, admin, level);
    let info = level_info(level);
    let stars = save.level_best_stars(level);
    if !unlocked {
        return LevelCard { level, unlocked, title: "LOCKED", era: None, stars: None, waves: None };
    }
    let row = if stars > 0 {
        Some(StarRow { filled: stars, empty: if stars < 3 { 3 - stars } else { 0 } })
    } else {
        None
    };
    LevelCard { level, unlocked, title: info.name, era: Some(info.era), stars: row, waves: Some(info.waves) }
}

/// The level-select screen: the cards of levels 1 to `MAX_LEVELS`, in order.
pub fn level_cards(save: &SaveData, admin: &AdminUnlocks) -> (r: Vec<LevelCard>)
    ensures
        r.len() == MAX_LEVELS,
        forall|i: int| 0 <= i < MAX_LEVELS ==> #[trigger] r@[i] == level_card_spec(save@, *admin, (i + 1) as u32),
{
    let mut cards: Vec<LevelCard> = Vec::new();
    let mut level: u32 = 1;
    while level <= MAX_LEVELS
        invariant
            1 <= level <= MAX_LEVELS + 1,
            cards.len() == level - 1,
            forall|i: int| 0 <= i < cards.len() ==> #[trigger] cards@[i] == level_card_spec(save@, *admin, (i + 1) as u32),
        decreases MAX_LEVELS + 1 - level,
    {
        cards.push(level_card(save, admin, level));
        level = level + 1;
    }
    cards
}

/// One card of the hero-select screen.
#[derive(Debug, Clone, Copy)]
pub struct HeroCard {
    pub hero: HeroType,
    pub unlocked: bool,
    /// Unlocked and the active hero: the card says "SELECTED".
    pub selected: bool,
    pub name: &'static str,
    /// The role, on an unlocked hero.
    pub role: Option<&'static str>,
    /// Hit points, damage and move speed (in tenths), on an unlocked hero.
    pub stats: Option<(u32, u32, u32)>,
    /// The level to beat, on a locked hero.
    pub unlock_level: Option<u32>,
}

/// The card of `hero` on the hero-select screen.
pub open spec fn hero_card_spec(save: SaveModel, admin: AdminUnlocks, active: HeroType, hero: HeroType) -> HeroCard {
    let unlocked = hero_unlocked(save, admin, hero);
    let stats = hero_stats_spec(hero);
    HeroCard {
        hero,
        unlocked,
        selected: unlocked && active == hero,
        name: hero_info_spec(hero).name,
        role: if unlocked { Some(hero_info_spec(hero).role) } else { None },
        stats: if unlocked { Some((stats.hp, stats.damage, stats.move_speed_deci)) } else { None },
        unlock_level: if unlocked { None } else { Some(hero_unlock_level_spec(hero)) },
    }
}

/// The card of a hero on the hero-select screen: an unlocked hero shows its role and stats
/// (and "SELECTED" when active); a locked one shows the level that unlocks it.
pub fn hero_card(save: &SaveData, admin: &AdminUnlocks, active: HeroType, hero: HeroType) -> (r: HeroCard)
    ensures
        r == hero_card_spec(save@, *admin, active, hero),
{
    let unlocked = is_hero_unlocked(hero, save, admin);
    let info = hero_info(hero);
    if !unlocked {
        return HeroCard {
            hero,
            unlocked,
            selected: false,
            name: info.name,
            role: None,
            stats: None,
            unlock_level: Some(hero_unlock_level(hero)),
        };
    }
    let stats = hero_stats(hero);
    HeroCard {
        hero,
        unlocked,
        selected: active == hero,
        name: info.name,
        role: Some(info.role),
        stats: Some((stats.hp, stats.damage, stats.move_speed_deci)),
        unlock_level: None,
    }
}

/// The game-over screen.
#[derive(Debug, Clone, Copy)]
pub struct GameOverView {
    /// "VICTORY!" or "DEFEAT".
    pub title: &'static str,
    /// The stars earned, on a victory.
    pub stars: Option<StarRow>,
    pub lives_remaining: u32,
}

/// What the game-over screen shows: the outcome, the stars of a victory and the lives left.
pub fn game_over_view(outcome: GameOutcome, game: &GameData) -> (r: GameOverView)
    requires
        outcome.victory ==> outcome.stars <= 3,
    ensures
        r.title@ == if outcome.victory { "VICTORY!"@ } else { "DEFEAT"@ },
        r.stars == if outcome.victory {
            Some(StarRow { filled: outcome.stars, empty: (3 - outcome.stars) as u8 })
        } else {
            None
        },
        r.lives_remaining == game.lives,
{
    if outcome.victory {
        GameOverView {
            title: "VICTORY!",
            stars: Some(StarRow { filled: outcome.stars, empty: 3 - outcome.stars }),
            lives_remaining: game.lives,
        }
    } else {
        GameOverView { title: "DEFEAT", stars: None, lives_remaining: game.lives }
    }
}

/// The reset behind "Play Again" and a confirmed restart or quit: fresh game data, an idle
/// wave, no selection, normal speed, and a fresh setup requested.
pub fn reset_level_state(
    game: &mut GameData,
    wave: &mut WaveState,
    selection: &mut Selection,
    speed: &mut GameSpeed,
    needs_setup: &mut NeedsFreshSetup,
)
    ensures
        *final(game) == (GameData { gold: 220, lives: 20, max_lives: 20, wave_number: 0, max_waves: 10 }),
        final(wave)@ == (WaveModel {
            phase: WavePhase::Idle,
            groups: Seq::empty(),
            current_group: 0,
            spawned_in_group: 0,
            active_enemies: 0,
            current_pulse: 0,
        }),
        *final(selection) == Selection::Nothing,
        final(speed).0 == 1,
        final(needs_setup).0,
{
    *game = GameData::default();
    *wave = WaveState::default();
    *selection = Selection::Nothing;
    *speed = GameSpeed::default();
    needs_setup.0 = true;
}

// ---------------------------------------------------------------------------
// Laws of the tower economy
// ---------------------------------------------------------------------------

/// Gold spent on a tower is never lost from the books: building or upgrading moves gold
/// from the purse into the tower's investment, one for one.
pub proof fn lemma_upgrade_conserves_gold(gold: u32, element: Element, level: TowerLevel, investment: TowerInvestment)
    requires
        upgrade_allowed(gold, element, level),
    ensures
        ({
            let cost = tower_stats_spec(element, (level.0 + 1) as u8).cost;
            (gold - cost) + (investment.0 + cost) == gold + investment.0
        }),
        level.0 + 1 <= TOWER_MAX_LEVEL,
{
}

/// The panels agree with the actions behind their buttons: a build option shows as
/// available exactly when building goes through (affordable, and allowed by the tutorial),
/// the upgrade offer and each specialization show as affordable exactly when pressing them
/// goes through, and the sell value is what selling pays at the rate in force.
pub proof fn lemma_panels_match_actions(
    element: Element,
    level: u8,
    investment: u32,
    spec: Option<TowerSpecialization>,
    gold: u32,
    rate_pct: u32,
    tutorial: TutorialState,
    i: int,
)
    requires
        level <= TOWER_MAX_LEVEL,
        sell_refund_spec(investment, rate_pct) <= u32::MAX,
        0 <= i < 2,
    ensures
        ({
            let o = build_option_spec(element, gold, tutorial);
            &&& o.cost == tower_stats_spec(element, 0).cost
            &&& (o.affordable && o.allowed) == build_allowed(gold, element, tutorial)
        }),
        tower_panel_spec(element, level, investment, spec, gold, rate_pct).action matches PanelAction::Upgrade {
            affordable,
            ..
        } ==> affordable == upgrade_allowed(gold, element, TowerLevel(level)),
        tower_panel_spec(element, level, investment, spec, gold, rate_pct).action is Upgrade <==> level
            < TOWER_MAX_LEVEL,
        tower_panel_spec(element, level, investment, spec, gold, rate_pct).action matches PanelAction::Specialize {
            options,
        } ==> options[i].affordable == specialization_allowed(gold, element, TowerLevel(level), spec, options[i].spec)
            && options[i].cost == specialization_cost(options[i].spec),
        tower_panel_spec(element, level, investment, spec, gold, rate_pct).sell_value == sell_refund_spec(
            investment,
            rate_pct,
        ),
{
    let options = element_specializations_spec(element);
    lemma_specializations_of_element(element, options[i].0);
}

/// With the shop's upgrades (Salvage Expert at most level 3) a sale never pays back more
/// than was invested, and a higher rate never pays less.
pub proof fn lemma_refund_at_most_investment(investment: u32, rate_pct: u32, other_rate_pct: u32)
    requires
        rate_pct <= SELL_REFUND_RATE_PCT + 5 * 3,
        rate_pct <= other_rate_pct,
    ensures
        sell_refund_spec(investment, rate_pct) <= investment,
        sell_refund_spec(investment, rate_pct) <= sell_refund_spec(investment, other_rate_pct),
{
    assert(investment as int * rate_pct as int <= investment as int * 100) by (nonlinear_arith)
        requires
            rate_pct <= 100;
    assert(investment as int * rate_pct as int <= investment as int * other_rate_pct as int) by (nonlinear_arith)
        requires
            rate_pct <= other_rate_pct;
    assert((investment as int * rate_pct as int) / 100 <= (investment as int * other_rate_pct as int) / 100) by (nonlinear_arith)
        requires
            investment as int * rate_pct as int <= investment as int * other_rate_pct as int;
}

/// A hero card says "SELECTED" exactly for the active hero, and only when that hero is
/// unlocked, so at most one card is selected; a card is unlocked exactly when the save
/// (or the admin override) opens the hero, and a locked card names the level that opens it.
pub proof fn lemma_hero_card_marks(save: SaveModel, admin: AdminUnlocks, active: HeroType, hero: HeroType, other: HeroType)
    ensures
        hero_card_spec(save, admin, active, hero).selected <==> (hero == active && hero_unlocked(save, admin, hero)),
        hero_card_spec(save, admin, active, hero).unlocked == hero_unlocked(save, admin, hero),
        hero != other ==> !(hero_card_spec(save, admin, active, hero).selected && hero_card_spec(
            save,
            admin,
            active,
            other,
        ).selected),
        !hero_card_spec(save, admin, active, hero).unlocked ==> hero_card_spec(save, admin, active, hero).unlock_level
            == Some(hero_unlock_level_spec(hero)),
        hero_card_spec(save, admin, active, hero).hero == hero,
{
}

} // verus!
