use ages_of_aether::components::{Element, TowerInvestment, TowerLevel};
use ages_of_aether::data::TowerSpecialization;
use ages_of_aether::resources::{GameData, Selection, WavePhase, WaveState};
use ages_of_aether::save::SaveData;
use ages_of_aether::systems::combat::{leak_enemy, reached_path_end, reward_enemy_death};
use ages_of_aether::systems::golem::{golem_offset_deci, golem_squad, GolemSquad};
use ages_of_aether::systems::input::{world_click, ClickHits, ClickOutcome};
use ages_of_aether::systems::tower_spec::{spec_stat_change, specialize_tower};
use ages_of_aether::systems::tutorial::{TutorialState, TutorialStep};
use ages_of_aether::ui::{
    build_tower, is_affordable, next_game_speed, refund_rate_pct, sell_tower, upgrade_tower, wave_button_accepts,
    wave_button_label, wave_status, WaveButtonLabel, WaveStatus,
};

const NO_TUTORIAL: TutorialState =
    TutorialState { step: TutorialStep::Inactive, build_menu_seen: false, built_tower: None, rally_set: false };

fn game(gold: u32) -> GameData {
    GameData { gold, ..GameData::default() }
}

#[test]
fn build_upgrade_sell_round_trip() {
    let mut g = game(400);
    let t = build_tower(&mut g, Element::Lightning, &NO_TUTORIAL).unwrap();
    assert_eq!(g.gold, 330);
    assert_eq!(t.investment, TowerInvestment(70));
    let (mut level, mut inv) = (t.level, t.investment);
    assert!(upgrade_tower(&mut g, Element::Lightning, &mut level, &mut inv));
    assert_eq!((g.gold, level, inv), (220, TowerLevel(1), TowerInvestment(180)));
    assert!(upgrade_tower(&mut g, Element::Lightning, &mut level, &mut inv));
    assert_eq!((g.gold, level, inv), (60, TowerLevel(2), TowerInvestment(340)));
    // top level: no further upgrade
    g.gold = 10_000;
    assert!(!upgrade_tower(&mut g, Element::Lightning, &mut level, &mut inv));
    assert_eq!(g.gold, 10_000);
    // sell at the base 60%
    let refund = sell_tower(&mut g, inv, refund_rate_pct(None));
    assert_eq!(refund, 204);
    assert_eq!(g.gold, 10_204);
}

#[test]
fn cannot_build_or_upgrade_without_gold() {
    let mut g = game(99);
    assert!(build_tower(&mut g, Element::Ice, &NO_TUTORIAL).is_none());
    assert_eq!(g.gold, 99);
    let mut level = TowerLevel(0);
    let mut inv = TowerInvestment(100);
    assert!(!upgrade_tower(&mut g, Element::Ice, &mut level, &mut inv));
    assert_eq!((level, inv), (TowerLevel(0), TowerInvestment(100)));
}

#[test]
fn refund_rate_with_salvage() {
    let save = SaveData { level_stars: vec![0; 10], aether_gems: 0, upgrade_levels: vec![0, 0, 0, 3, 0], tutorial_completed: false };
    assert_eq!(refund_rate_pct(Some(&save)), 75);
    let mut g = game(0);
    assert_eq!(sell_tower(&mut g, TowerInvestment(125), 75), 93);
    assert_eq!(sell_tower(&mut g, TowerInvestment(70), 60), 42);
    assert_eq!(g.gold, 135);
}

#[test]
fn specialization_rules() {
    let mut g = game(1000);
    let mut inv = TowerInvestment(340);
    // below top level
    assert!(!specialize_tower(&mut g, Element::Lightning, TowerLevel(1), None, &mut inv, TowerSpecialization::Railgun));
    // wrong element
    assert!(!specialize_tower(&mut g, Element::Lightning, TowerLevel(2), None, &mut inv, TowerSpecialization::MeteorTower));
    assert_eq!((g.gold, inv), (1000, TowerInvestment(340)));
    assert!(specialize_tower(&mut g, Element::Lightning, TowerLevel(2), None, &mut inv, TowerSpecialization::Railgun));
    assert_eq!((g.gold, inv), (800, TowerInvestment(540)));
    let mut poor = game(249);
    assert!(!specialize_tower(&mut poor, Element::Fire, TowerLevel(2), None, &mut inv, TowerSpecialization::InfernoCannon));
    // a tower takes one specialization only
    assert!(!specialize_tower(&mut g, Element::Lightning, TowerLevel(2), Some(TowerSpecialization::Railgun), &mut inv, TowerSpecialization::StormSpire));
    assert_eq!((g.gold, inv), (800, TowerInvestment(540)));
    let c = spec_stat_change(TowerSpecialization::Railgun);
    assert_eq!((c.damage_mult_pct, c.range_bonus_deci, c.cooldown_divisor_pct), (250, 30, 35));
    assert!(spec_stat_change(TowerSpecialization::BrambleGrove).removes_golems);
}

#[test]
fn golems() {
    assert_eq!(golem_squad(None), Some(GolemSquad { count: 2, hp: 100, damage_mult: 1, scale: 60 }));
    assert_eq!(golem_squad(Some(TowerSpecialization::MountainKing)).unwrap().count, 1);
    assert_eq!(golem_squad(Some(TowerSpecialization::BrambleGrove)), None);
    assert_eq!(golem_offset_deci(1, 0), 0);
    assert_eq!(golem_offset_deci(2, 0), 8);
    assert_eq!(golem_offset_deci(2, 1), -8);
}

#[test]
fn deaths_and_leaks() {
    let mut g = game(100);
    let mut w = WaveState::default();
    w.active_enemies = 1;
    reward_enemy_death(&mut g, &mut w, 24);
    assert_eq!((g.gold, w.active_enemies), (124, 0));
    reward_enemy_death(&mut g, &mut w, 1);
    assert_eq!(w.active_enemies, 0);
    g.lives = 1;
    leak_enemy(&mut g, &mut w);
    assert_eq!(g.lives, 0);
    leak_enemy(&mut g, &mut w);
    assert_eq!(g.lives, 0);
    assert!(reached_path_end(8, 9));
    assert!(!reached_path_end(7, 9));
}

#[test]
fn buttons_and_speed() {
    assert!(is_affordable(70, 70));
    assert!(!is_affordable(69, 70));
    assert_eq!(next_game_speed(1), 2);
    assert_eq!(next_game_speed(2), 3);
    assert_eq!(next_game_speed(3), 1);
    assert_eq!(next_game_speed(7), 1);
    let g = GameData::default();
    assert_eq!(wave_button_label(WavePhase::Idle, &g), WaveButtonLabel::SendWave);
    assert_eq!(wave_button_label(WavePhase::Idle, &g).text(), "Send Wave");
    assert_eq!(wave_status(WavePhase::PulsePause, &g).text(), "[Next pulse...]");
    assert!(wave_button_accepts(WavePhase::Active, &g));
    assert!(!wave_button_accepts(WavePhase::Spawning, &g));
    let done = GameData { wave_number: 10, ..g };
    assert_eq!(wave_button_label(WavePhase::Idle, &done), WaveButtonLabel::Complete);
    assert_eq!(wave_status(WavePhase::Active, &done), WaveStatus::Active);
    assert!(!wave_button_accepts(WavePhase::Idle, &done));
}

#[test]
fn world_clicks() {
    let none = ClickHits { hero: false, tower: None, build_spot: None };
    assert_eq!(world_click(Selection::SettingRallyPoint(4), false, none), None);
    assert_eq!(world_click(Selection::Tower(3), true, none), Some(ClickOutcome { selection: Selection::Nothing, move_hero: false }));
    let all = ClickHits { hero: true, tower: Some(7), build_spot: Some(9) };
    assert_eq!(world_click(Selection::Nothing, false, all).unwrap().selection, Selection::Hero);
    assert_eq!(world_click(Selection::Hero, false, all).unwrap().selection, Selection::Tower(7));
    let spot = ClickHits { hero: false, tower: None, build_spot: Some(9) };
    assert_eq!(world_click(Selection::Nothing, false, spot).unwrap().selection, Selection::BuildSpot(9));
    assert_eq!(world_click(Selection::Hero, false, none), Some(ClickOutcome { selection: Selection::Nothing, move_hero: true }));
    assert_eq!(world_click(Selection::Nothing, false, none), Some(ClickOutcome { selection: Selection::Nothing, move_hero: false }));
}

#[test]
fn tutorial_allows_only_earth_towers() {
    let tutorial = TutorialState { step: TutorialStep::BuildEarth, ..NO_TUTORIAL };
    let mut g = game(500);
    assert!(build_tower(&mut g, Element::Lightning, &tutorial).is_none());
    assert!(build_tower(&mut g, Element::Fire, &tutorial).is_none());
    assert_eq!(g.gold, 500);
    let t = build_tower(&mut g, Element::Earth, &tutorial).unwrap();
    assert_eq!(t.element, Element::Earth);
    assert_eq!(g.gold, 430);
    let done = TutorialState { step: TutorialStep::Completed, ..NO_TUTORIAL };
    assert!(build_tower(&mut g, Element::Lightning, &done).is_some());
}
