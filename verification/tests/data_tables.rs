use ages_of_aether::components::Element;
use ages_of_aether::data::{
    element_specializations, enemy_info, enemy_stats, hero_abilities, hero_info, hero_stats, hero_unlock_level,
    is_boss_type, level_build_spots, level_hero_spawn, level_info, level_path, level_start_config, level_theme,
    level_waves, make_waves, player_ability_def, spec_upgrade_info, tower_base_cost, tower_stats, upgrade_def,
    upgrade_index, AbilityEffect, EnemyType, GroundPoint, HeroType, PlayerAbilityType, TowerSpecialization,
    UpgradeKind, WaveRoster, ALL_ENEMY_TYPES, ALL_HERO_TYPES, ALL_UPGRADES, MAX_LEVELS, SKINNED_ANIMS,
    UPGRADE_COSTS,
};

#[test]
fn enemy_stats_values() {
    let s = enemy_stats(EnemyType::Nautilus);
    assert_eq!(s.hp, 200);
    assert_eq!(s.speed_centi, 150);
    assert_eq!(s.armor, 40);
    assert_eq!(s.gold_reward, 24);
    assert_eq!(s.tint_pct, Some([20, 50, 100]));
    let e = enemy_stats(EnemyType::GiantEagle);
    assert_eq!(e.model_scale_milli, 25);
    assert!(e.is_flying);
    let c = enemy_stats(EnemyType::Caveman);
    assert_eq!(c.anim_files, Some(SKINNED_ANIMS));
    assert_eq!(c.anim_indices, [255, 255, 255, 255]);
    assert_eq!(enemy_stats(EnemyType::Dragon).hp, 800);
}

#[test]
fn enemy_traits_match_flags() {
    for e in ALL_ENEMY_TYPES {
        let s = enemy_stats(e);
        let t = enemy_info(e).traits;
        assert_eq!(s.is_flying, t == "Flying");
        assert_eq!(s.is_healer, t == "Healer");
        assert_eq!(is_boss_type(e), t == "Boss");
    }
    assert_eq!(ALL_ENEMY_TYPES.len(), 33);
}

#[test]
fn tower_tables() {
    let t = tower_stats(Element::Fire, 2);
    assert_eq!(t.name, "Inferno Battery");
    assert_eq!(t.cost, 280);
    assert_eq!(t.damage, 42);
    assert_eq!(t.attack_speed_centi, 50);
    assert_eq!(t.range_deci, 70);
    assert_eq!(tower_base_cost(Element::Ice), 100);
    for el in [Element::Lightning, Element::Earth, Element::Ice, Element::Fire] {
        assert!(tower_stats(el, 0).cost < tower_stats(el, 1).cost);
        assert!(tower_stats(el, 1).cost < tower_stats(el, 2).cost);
    }
}

#[test]
fn specialization_tables() {
    let s = element_specializations(Element::Ice);
    assert_eq!(s[0].0, TowerSpecialization::BlizzardTower);
    assert_eq!(s[1].0, TowerSpecialization::ShatterMage);
    assert_eq!(s[0].1.cost, 250);
    let up = spec_upgrade_info(TowerSpecialization::Railgun, 3).unwrap();
    assert_eq!(up.cost, 350);
    assert_eq!(up.damage_mult_pct, 135);
    assert_eq!(up.range_bonus_deci, 10);
    assert!(spec_upgrade_info(TowerSpecialization::Railgun, 1).is_none());
    assert!(spec_upgrade_info(TowerSpecialization::Railgun, 4).is_none());
}

#[test]
fn level_tables_agree() {
    for level in 0..=12u32 {
        let waves = level_waves(level);
        assert_eq!(waves.len() as u32, level_start_config(level).max_waves);
        assert_eq!(waves.len() as u32, level_info(level).waves);
        assert!(level_path(level).len() >= 2);
        for w in &waves {
            assert!(!w.groups.is_empty());
            assert_eq!(w.groups[0].pulse, 0);
            for (j, g) in w.groups.iter().enumerate() {
                assert!(g.count > 0);
                if j > 0 {
                    let p = w.groups[j - 1].pulse;
                    assert!(p <= g.pulse && g.pulse <= p + 1);
                }
            }
            assert!(w.early_call_bonus <= 40);
        }
    }
}

#[test]
fn unknown_level_falls_back_to_level_one() {
    assert_eq!(level_path(0), level_path(1));
    assert_eq!(level_build_spots(42), level_build_spots(1));
    assert_eq!(level_waves(11)[0].groups, level_waves(1)[0].groups);
    assert_eq!(level_start_config(99).starting_gold, 220);
    assert_eq!(level_info(0).name, "Unknown");
    assert_eq!(level_theme(11).ground_milli, level_theme(1).ground_milli);
}

#[test]
fn level_specific_values() {
    let c = level_start_config(8);
    assert_eq!(c.starting_gold, 260);
    assert_eq!(c.lives, 14);
    assert_eq!(c.wave_hp_scale_milli, 240);
    assert_eq!(c.wave_speed_scale_milli, 25);
    assert_eq!(level_path(1)[0], GroundPoint { x_deci: -180, z_deci: 0 });
    assert_eq!(level_build_spots(2)[9], GroundPoint { x_deci: 185, z_deci: -5 });
    assert_eq!(level_build_spots(10).len(), 11);
    assert_eq!(level_info(6).name, "Glacier Gorge");
    assert_eq!(level_theme(5).ground_milli, [816, 867, 910]);
}

#[test]
fn hero_spawn_points() {
    assert_eq!(level_hero_spawn(1), GroundPoint { x_deci: -160, z_deci: 30 });
    assert_eq!(level_hero_spawn(2), GroundPoint { x_deci: -160, z_deci: 100 });
    // three units beside the entrance of level 3's path (-18, -5)
    assert_eq!(level_hero_spawn(3), GroundPoint { x_deci: -180, z_deci: -20 });
}

#[test]
fn roster_waves() {
    let r = WaveRoster {
        grunt: EnemyType::Footman,
        fast: EnemyType::Cavalry,
        tank: EnemyType::Knight,
        flyer: EnemyType::Wyvern,
        healer: EnemyType::Priest,
        boss: Some(EnemyType::Dragon),
    };
    let w = make_waves(&r);
    assert_eq!(w.len(), 10);
    assert_eq!(w[9].groups[2].enemy_type, EnemyType::Dragon);
    assert_eq!(w[9].early_call_bonus, 40);
    let no_boss = make_waves(&WaveRoster { boss: None, ..r });
    assert_eq!(no_boss[9].groups[0].count, 22);
    assert_eq!(no_boss[9].groups[0].interval_ms, 180);
    assert_eq!(level_waves(10)[9].groups[2].enemy_type, EnemyType::Dragon);
    assert_eq!(level_waves(9)[9].groups.len(), 4);
}

#[test]
fn heroes() {
    let s = hero_stats(HeroType::Pharaoh);
    assert_eq!(s.name, "Voltra");
    assert_eq!(s.model_rotation_x_quarter_turns, 1);
    assert_eq!(s.model_scale_milli, 15);
    assert_eq!(hero_info(HeroType::IceHulk).role, "Tank");
    let mut last = 0;
    for h in ALL_HERO_TYPES {
        let l = hero_unlock_level(h);
        assert!(l > last && l <= MAX_LEVELS);
        last = l;
    }
    match hero_abilities(HeroType::ScarletMagus)[0].effect {
        AbilityEffect::AoeDamageAndBurn { damage, radius_deci, burn_dps, burn_duration_deci } => {
            assert_eq!((damage, radius_deci, burn_dps, burn_duration_deci), (50, 25, 5, 30));
        },
        _ => panic!("Fireball burns"),
    }
    assert_eq!(hero_abilities(HeroType::IceHulk)[1].cooldown_secs, 30);
    assert_eq!(player_ability_def(PlayerAbilityType::Reinforcements).cooldown_secs, 40);
}

#[test]
fn upgrades() {
    for (i, k) in ALL_UPGRADES.iter().enumerate() {
        assert_eq!(upgrade_index(*k), i);
    }
    assert_eq!(upgrade_def(UpgradeKind::FarSight).name, "Far Sight");
    assert_eq!(UPGRADE_COSTS, [20, 50, 100]);
}

#[test]
fn trilobite_is_slow_and_armored() {
    let t = enemy_stats(EnemyType::Trilobite);
    assert_eq!((t.speed_centi, t.armor), (150, 30));
    assert_eq!(enemy_info(EnemyType::Trilobite).traits, "Armored");
}
