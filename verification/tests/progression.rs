use ages_of_aether::data::{HeroType, UpgradeKind};
use ages_of_aether::resources::{ActiveHeroType, AdminUnlocks, Difficulty, GameData, NewlyUnlockedHero, NoHeroSelected, WavePhase};
use ages_of_aether::save::{is_hero_unlocked, is_level_unlocked, select_unlocked_hero, LevelCompletion, SaveData};
use ages_of_aether::states::GameOutcome;
use ages_of_aether::systems::game_over::check_game_over;
use ages_of_aether::systems::setup::level_start_game_data;

const NO_ADMIN: AdminUnlocks = AdminUnlocks { all_levels: false, all_heroes: false };

fn win(stars: u8) -> GameOutcome {
    GameOutcome { victory: true, stars }
}

#[test]
fn default_save_shape() {
    let s = SaveData::default();
    assert_eq!(s.level_stars, vec![0u8; 10]);
    assert_eq!(s.upgrade_levels, vec![0u8; 5]);
    assert_eq!(s.aether_gems, 0);
    assert!(!s.tutorial_completed);
}

#[test]
fn normalize_pads_and_cuts() {
    let mut s = SaveData { level_stars: vec![3, 2], aether_gems: 7, upgrade_levels: vec![1, 1, 1, 1, 1, 1, 1], tutorial_completed: true };
    s.normalize_loaded();
    assert_eq!(s.level_stars, vec![3, 2, 0, 0, 0, 0, 0, 0, 0, 0]);
    assert_eq!(s.upgrade_levels, vec![1, 1, 1, 1, 1]);
    assert_eq!(s.aether_gems, 7);
    assert!(s.tutorial_completed);
}

#[test]
fn first_clear_pays_gems_and_unlocks_hero() {
    let mut s = SaveData::default();
    let r = s.record_level_complete(win(2), 1);
    assert_eq!(r, Some(LevelCompletion { unlocked_hero: Some(HeroType::IceHulk), gems_awarded: 20 }));
    assert_eq!(s.level_stars[0], 2);
    assert_eq!(s.aether_gems, 20);
    // replaying with more stars pays only the new star, and unlocks nothing again
    let r = s.record_level_complete(win(3), 1);
    assert_eq!(r, Some(LevelCompletion { unlocked_hero: None, gems_awarded: 10 }));
    assert_eq!(s.aether_gems, 30);
    // fewer stars: nothing changes but the completion is still recorded
    let r = s.record_level_complete(win(1), 1);
    assert_eq!(r, Some(LevelCompletion { unlocked_hero: None, gems_awarded: 0 }));
    assert_eq!(s.level_stars[0], 3);
    assert_eq!(s.aether_gems, 30);
}

#[test]
fn levels_without_hero_unlock_nothing() {
    let mut s = SaveData::default();
    let r = s.record_level_complete(win(1), 2);
    assert_eq!(r, Some(LevelCompletion { unlocked_hero: None, gems_awarded: 10 }));
    let r = s.record_level_complete(win(3), 9);
    assert_eq!(r, Some(LevelCompletion { unlocked_hero: Some(HeroType::SacredMaiden), gems_awarded: 30 }));
}

#[test]
fn defeats_and_unknown_levels_are_not_recorded() {
    let mut s = SaveData::default();
    assert_eq!(s.record_level_complete(GameOutcome { victory: false, stars: 0 }, 1), None);
    assert_eq!(s.record_level_complete(win(0), 1), None);
    assert_eq!(s.record_level_complete(win(3), 11), None);
    assert_eq!(s.level_stars, vec![0u8; 10]);
    assert_eq!(s.aether_gems, 0);
}

#[test]
fn gems_track_best_stars() {
    let mut s = SaveData::default();
    for (level, stars) in [(1u32, 1u8), (1, 3), (2, 2), (3, 1), (2, 3), (3, 3)] {
        s.record_level_complete(win(stars), level);
        let total: u32 = s.level_stars.iter().map(|x| *x as u32).sum();
        assert_eq!(s.aether_gems, 10 * total);
    }
}

#[test]
fn unlocks_follow_progress() {
    let mut s = SaveData::default();
    assert!(is_level_unlocked(&s, &NO_ADMIN, 1));
    assert!(!is_level_unlocked(&s, &NO_ADMIN, 2));
    assert!(!is_hero_unlocked(HeroType::IceHulk, &s, &NO_ADMIN));
    s.record_level_complete(win(1), 1);
    assert!(is_level_unlocked(&s, &NO_ADMIN, 2));
    assert!(!is_level_unlocked(&s, &NO_ADMIN, 3));
    assert!(is_hero_unlocked(HeroType::IceHulk, &s, &NO_ADMIN));
    assert!(!is_hero_unlocked(HeroType::NorthernOutsider, &s, &NO_ADMIN));
    let admin = AdminUnlocks { all_levels: true, all_heroes: true };
    assert!(is_level_unlocked(&s, &admin, 10));
    assert!(is_hero_unlocked(HeroType::SacredMaiden, &s, &admin));
    // level 0 reads the first slot
    assert!(is_level_unlocked(&s, &NO_ADMIN, 0));
}

#[test]
fn upgrade_shop() {
    let mut s = SaveData::default();
    assert!(!s.buy_upgrade(UpgradeKind::FarSight));
    s.aether_gems = 200;
    assert!(s.buy_upgrade(UpgradeKind::FarSight));
    assert_eq!(s.aether_gems, 180);
    assert!(s.buy_upgrade(UpgradeKind::FarSight));
    assert_eq!(s.aether_gems, 130);
    assert!(s.buy_upgrade(UpgradeKind::FarSight));
    assert_eq!(s.aether_gems, 30);
    assert_eq!(s.upgrade_level(UpgradeKind::FarSight), 3);
    assert!(!s.buy_upgrade(UpgradeKind::FarSight));
    assert_eq!(s.aether_gems, 30);
    let offer = s.upgrade_offer(UpgradeKind::FarSight);
    assert!(offer.maxed && offer.cost == 0 && !offer.affordable);
    let offer = s.upgrade_offer(UpgradeKind::WarChest);
    assert!(!offer.maxed && offer.cost == 20 && offer.affordable);
    assert_eq!(s.tower_range_mult_pct(), 115);
    assert_eq!(s.tower_damage_mult_pct(), 100);
    // a save missing the slot cannot buy it
    let mut short = SaveData { level_stars: vec![], aether_gems: 500, upgrade_levels: vec![0, 0], tutorial_completed: false };
    assert!(!short.buy_upgrade(UpgradeKind::TacticalMastery));
    assert_eq!(short.upgrade_level(UpgradeKind::TacticalMastery), 0);
}

#[test]
fn upgrade_multipliers() {
    let s = SaveData { level_stars: vec![0; 10], aether_gems: 0, upgrade_levels: vec![2, 1, 3, 2, 3], tutorial_completed: false };
    assert_eq!(s.starting_gold_mult_pct(), 120);
    assert_eq!(s.tower_damage_mult_pct(), 105);
    assert_eq!(s.tower_range_mult_pct(), 115);
    assert_eq!(s.sell_refund_rate_pct(), 70);
    assert_eq!(s.cooldown_mult_pct(), 85);
}

#[test]
fn tutorial_flag() {
    let mut s = SaveData::default();
    assert!(s.mark_tutorial_completed());
    assert!(!s.mark_tutorial_completed());
    assert!(s.tutorial_completed);
}

#[test]
fn level_start_values() {
    let g = level_start_game_data(1, Difficulty::Normal, None);
    assert_eq!(g, GameData { gold: 220, lives: 15, max_lives: 15, wave_number: 0, max_waves: 10 });
    let g = level_start_game_data(7, Difficulty::Easy, None);
    assert_eq!(g.gold, 387); // 310 * 1.25 = 387.5
    assert_eq!(g.lives, 20);
    let save = SaveData { level_stars: vec![0; 10], aether_gems: 0, upgrade_levels: vec![3, 0, 0, 0, 0], tutorial_completed: false };
    let g = level_start_game_data(4, Difficulty::Hard, Some(&save));
    assert_eq!(g.gold, 265); // 240 * 1.3 * 0.85 = 265.2
    assert_eq!(g.lives, 10);
}

#[test]
fn game_over_rules() {
    let g = GameData { gold: 0, lives: 0, max_lives: 20, wave_number: 3, max_waves: 10 };
    assert_eq!(check_game_over(&g, WavePhase::Active), Some(GameOutcome { victory: false, stars: 0 }));
    let g = GameData { gold: 0, lives: 18, max_lives: 20, wave_number: 10, max_waves: 10 };
    assert_eq!(check_game_over(&g, WavePhase::Idle), Some(win(3)));
    assert_eq!(check_game_over(&g, WavePhase::Active), None);
    let g = GameData { lives: 17, ..g };
    assert_eq!(check_game_over(&g, WavePhase::Idle), Some(win(2)));
    let g = GameData { lives: 10, ..g };
    assert_eq!(check_game_over(&g, WavePhase::Idle), Some(win(2)));
    let g = GameData { lives: 9, ..g };
    assert_eq!(check_game_over(&g, WavePhase::Idle), Some(win(1)));
    let g = GameData { lives: 5, max_lives: 0, ..g };
    assert_eq!(check_game_over(&g, WavePhase::Idle), Some(win(1)));
    let g = GameData { lives: 5, wave_number: 4, ..g };
    assert_eq!(check_game_over(&g, WavePhase::Idle), None);
}

#[test]
fn recording_twice_pays_once() {
    let mut save = SaveData::default();
    let first = save.record_level_complete(win(2), 4).unwrap();
    assert_eq!(first.gems_awarded, 20);
    let after_first = save.clone();
    let second = save.record_level_complete(win(2), 4).unwrap();
    assert_eq!(second.gems_awarded, 0);
    assert_eq!(second.unlocked_hero, None);
    assert_eq!(save.level_stars, after_first.level_stars);
    assert_eq!(save.aether_gems, after_first.aether_gems);
}

#[test]
fn normalizing_twice_changes_nothing() {
    let mut save = SaveData {
        level_stars: vec![3, 1],
        aether_gems: 5,
        upgrade_levels: vec![1, 2, 3, 0, 1, 2, 3],
        tutorial_completed: true,
    };
    save.normalize_loaded();
    let once = save.clone();
    save.normalize_loaded();
    assert_eq!(save.level_stars, once.level_stars);
    assert_eq!(save.upgrade_levels, once.upgrade_levels);
    assert_eq!(save.level_stars, vec![3, 1, 0, 0, 0, 0, 0, 0, 0, 0]);
    assert_eq!(save.upgrade_levels, vec![1, 2, 3, 0, 1]);
}

#[test]
fn defeat_records_nothing_even_with_a_full_purse() {
    let mut save = SaveData::default();
    save.aether_gems = u32::MAX;
    assert_eq!(save.record_level_complete(GameOutcome { victory: false, stars: 0 }, 1), None);
    assert_eq!(save.aether_gems, u32::MAX);
}

#[test]
fn newly_unlocked_hero_becomes_active() {
    let mut save = SaveData::default();
    let done = save.record_level_complete(win(3), 3).unwrap();
    assert_eq!(done.unlocked_hero, Some(HeroType::NorthernOutsider));
    let mut active = ActiveHeroType(HeroType::IceHulk);
    let mut no_hero = NoHeroSelected(true);
    let mut newly = NewlyUnlockedHero(None);
    select_unlocked_hero(&done, &mut active, &mut no_hero, &mut newly);
    assert_eq!(active.0, HeroType::NorthernOutsider);
    assert!(!no_hero.0);
    assert_eq!(newly.0, Some(HeroType::NorthernOutsider));
    // a repeat clear unlocks nobody and changes nothing
    let again = save.record_level_complete(win(3), 3).unwrap();
    let mut active2 = ActiveHeroType(HeroType::Pharaoh);
    let mut no_hero2 = NoHeroSelected(true);
    let mut newly2 = NewlyUnlockedHero(None);
    select_unlocked_hero(&again, &mut active2, &mut no_hero2, &mut newly2);
    assert_eq!((active2.0, no_hero2.0, newly2.0), (HeroType::Pharaoh, true, None));
}
