use ages_of_aether::components::{Element, TowerInvestment, TowerLevel};
use ages_of_aether::data::{HeroType, TowerSpecialization};
use ages_of_aether::resources::{AdminUnlocks, GameData, GameSpeed, NeedsFreshSetup, Selection, WavePhase, WaveState};
use ages_of_aether::save::SaveData;
use ages_of_aether::states::GameOutcome;
use ages_of_aether::systems::tower_spec::specialize_tower;
use ages_of_aether::systems::tutorial::{TutorialState, TutorialStep};
use ages_of_aether::systems::wave::start_wave;
use ages_of_aether::ui::{
    build_options, build_tower, game_over_view, hero_card, level_card, level_cards, reset_level_state, sell_tower,
    refund_rate_pct, tower_panel, upgrade_tower, PanelAction, StarRow,
};

const NO_TUTORIAL: TutorialState =
    TutorialState { step: TutorialStep::Inactive, build_menu_seen: false, built_tower: None, rally_set: false };

const NO_ADMIN: AdminUnlocks = AdminUnlocks { all_levels: false, all_heroes: false };

#[test]
fn build_menu_prices_and_affordability() {
    let opts = build_options(100, &NO_TUTORIAL);
    let got: Vec<(Element, u32, bool)> = opts.iter().map(|o| (o.element, o.cost, o.affordable)).collect();
    assert_eq!(
        got,
        vec![
            (Element::Lightning, 70, true),
            (Element::Earth, 70, true),
            (Element::Ice, 100, true),
            (Element::Fire, 125, false),
        ]
    );
    assert!(build_options(0, &NO_TUTORIAL).iter().all(|o| !o.affordable));
}

#[test]
fn panel_below_top_level_offers_upgrade() {
    let p = tower_panel(Element::Lightning, 0, 70, None, 100, 60);
    assert_eq!(p.title, "Spark Tower");
    assert_eq!(p.shown_level, Some(1));
    match p.action {
        PanelAction::Upgrade { cost, affordable } => assert_eq!((cost, affordable), (110, false)),
        _ => panic!("expected an upgrade"),
    }
    assert_eq!(p.sell_value, 42);
    assert!(!p.rally_button);
}

#[test]
fn panel_at_top_level_offers_specializations() {
    let p = tower_panel(Element::Ice, 2, 500, None, 250, 60);
    assert_eq!(p.title, "Blizzard Tower");
    assert_eq!(p.shown_level, Some(3));
    match p.action {
        PanelAction::Specialize { options } => {
            assert_eq!(options[0].spec, TowerSpecialization::BlizzardTower);
            assert_eq!(options[0].name, "Blizzard Tower");
            assert_eq!((options[0].cost, options[0].affordable), (250, true));
            assert_eq!(options[1].spec, TowerSpecialization::ShatterMage);
            assert_eq!(options[1].description, "3x damage to slowed enemies");
        }
        _ => panic!("expected specializations"),
    }
    assert_eq!(p.sell_value, 300);
}

#[test]
fn specialized_panel_takes_the_specialization_name() {
    let p = tower_panel(Element::Earth, 2, 540, Some(TowerSpecialization::MountainKing), 0, 60);
    assert_eq!(p.title, "Mountain King");
    assert_eq!(p.shown_level, None);
    assert!(matches!(p.action, PanelAction::Specialized));
    assert_eq!(p.sell_value, 324);
    assert!(p.rally_button);
    // A specialization of another element keeps the tower's own name.
    let q = tower_panel(Element::Fire, 2, 0, Some(TowerSpecialization::Railgun), 0, 60);
    assert_eq!(q.title, "Inferno Battery");
    assert_eq!(q.shown_level, Some(3));
}

#[test]
fn level_select_cards() {
    let mut save = SaveData::default();
    save.level_stars[0] = 2;
    let cards = level_cards(&save, &NO_ADMIN);
    assert_eq!(cards.len(), 10);
    let first = cards[0];
    assert!(first.unlocked);
    assert_eq!(first.title, "Primordial Pools");
    assert_eq!(first.era, Some("Primordial Era"));
    assert_eq!(first.stars, Some(StarRow { filled: 2, empty: 1 }));
    assert_eq!(first.waves, Some(10));
    let second = cards[1];
    assert!(second.unlocked);
    assert_eq!(second.title, "Primordial Depths");
    assert_eq!(second.stars, None);
    let third = cards[2];
    assert!(!third.unlocked);
    assert_eq!(third.title, "LOCKED");
    assert_eq!((third.era, third.waves), (None, None));
    let admin = AdminUnlocks { all_levels: true, all_heroes: false };
    assert_eq!(level_card(&save, &admin, 10).title, "Dragon's Lair");
}

#[test]
fn hero_select_cards() {
    let mut save = SaveData::default();
    save.level_stars[0] = 1;
    let cryo = hero_card(&save, &NO_ADMIN, HeroType::IceHulk, HeroType::IceHulk);
    assert!(cryo.unlocked && cryo.selected);
    assert_eq!(cryo.name, "Cryo");
    assert_eq!(cryo.role, Some("Tank"));
    assert_eq!(cryo.stats, Some((600, 20, 35)));
    assert_eq!(cryo.unlock_level, None);
    let gorath = hero_card(&save, &NO_ADMIN, HeroType::NorthernOutsider, HeroType::NorthernOutsider);
    assert!(!gorath.unlocked && !gorath.selected);
    assert_eq!(gorath.name, "Gorath");
    assert_eq!((gorath.role, gorath.stats), (None, None));
    assert_eq!(gorath.unlock_level, Some(3));
}

#[test]
fn game_over_screen() {
    let game = GameData { lives: 7, ..GameData::default() };
    let won = game_over_view(GameOutcome { victory: true, stars: 2 }, &game);
    assert_eq!(won.title, "VICTORY!");
    assert_eq!(won.stars, Some(StarRow { filled: 2, empty: 1 }));
    assert_eq!(won.lives_remaining, 7);
    let lost = game_over_view(GameOutcome { victory: false, stars: 0 }, &game);
    assert_eq!(lost.title, "DEFEAT");
    assert_eq!(lost.stars, None);
}

#[test]
fn restart_resets_the_level() {
    let mut game = GameData { gold: 5, lives: 1, max_lives: 15, wave_number: 4, max_waves: 10 };
    let mut wave = WaveState::default();
    start_wave(&mut wave, &game, 1);
    let mut selection = Selection::Hero;
    let mut speed = GameSpeed(3);
    let mut needs = NeedsFreshSetup(false);
    reset_level_state(&mut game, &mut wave, &mut selection, &mut speed, &mut needs);
    assert_eq!(game, GameData::default());
    assert_eq!(wave.phase, WavePhase::Idle);
    assert!(wave.groups.is_empty());
    assert_eq!((wave.current_group, wave.active_enemies), (0, 0));
    assert_eq!(selection, Selection::Nothing);
    assert_eq!(speed.0, 1);
    assert!(needs.0);
}

#[test]
fn panels_agree_with_actions() {
    for gold in [0u32, 69, 70, 124, 125, 300] {
        for o in build_options(gold, &NO_TUTORIAL) {
            let mut g = GameData { gold, ..GameData::default() };
            assert_eq!(o.affordable, build_tower(&mut g, o.element, &NO_TUTORIAL).is_some());
        }
    }
    for gold in [109u32, 110] {
        let p = tower_panel(Element::Lightning, 0, 70, None, gold, 60);
        let mut g = GameData { gold, ..GameData::default() };
        let (mut lv, mut inv) = (TowerLevel(0), TowerInvestment(70));
        match p.action {
            PanelAction::Upgrade { affordable, .. } => {
                assert_eq!(affordable, upgrade_tower(&mut g, Element::Lightning, &mut lv, &mut inv))
            }
            _ => panic!("expected an upgrade"),
        }
    }
    let p = tower_panel(Element::Fire, 2, 595, None, 249, 75);
    if let PanelAction::Specialize { options } = p.action {
        for o in options {
            let mut g = GameData { gold: 249, ..GameData::default() };
            let mut inv = TowerInvestment(595);
            assert_eq!(o.affordable, specialize_tower(&mut g, Element::Fire, TowerLevel(2), None, &mut inv, o.spec));
        }
    } else {
        panic!("expected specializations");
    }
    let mut g = GameData { gold: 0, ..GameData::default() };
    assert_eq!(p.sell_value, sell_tower(&mut g, TowerInvestment(595), 75));
    assert_eq!(p.sell_value, 446);
}

#[test]
fn panel_shows_the_salvage_refund() {
    let mut save = SaveData::default();
    save.upgrade_levels[3] = 3;
    let rate = refund_rate_pct(Some(&save));
    assert_eq!(rate, 75);
    let p = tower_panel(Element::Fire, 0, 125, None, 0, rate);
    assert_eq!(p.sell_value, 93);
    let mut g = GameData { gold: 0, ..GameData::default() };
    assert_eq!(sell_tower(&mut g, TowerInvestment(125), rate), p.sell_value);
}

#[test]
fn build_menu_during_tutorial() {
    let tutorial = TutorialState { step: TutorialStep::TapBuildSpot, ..NO_TUTORIAL };
    let opts = build_options(500, &tutorial);
    let allowed: Vec<(Element, bool)> = opts.iter().map(|o| (o.element, o.allowed)).collect();
    assert_eq!(
        allowed,
        vec![(Element::Lightning, false), (Element::Earth, true), (Element::Ice, false), (Element::Fire, false)]
    );
    for o in opts {
        let mut g = GameData { gold: 500, ..GameData::default() };
        assert_eq!(o.affordable && o.allowed, build_tower(&mut g, o.element, &tutorial).is_some());
    }
}
