//! Specializing a max-level tower.
use vstd::prelude::*;

use crate::components::{Element, TowerInvestment, TowerLevel};
use crate::data::{
    element_specializations, element_specializations_spec, lemma_specializations_of_element,
    specialization_element, TowerSpecialization, TOWER_MAX_LEVEL,
};
use crate::resources::GameData;

verus! {

/// The price of a specialization.
pub open spec fn specialization_cost(spec: TowerSpecialization) -> u32 {
    let options = element_specializations_spec(specialization_element(spec));
    if options[0].0 == spec { options[0].1.cost } else { options[1].1.cost }
}

/// Whether a tower may take a specialization: it is at the top level and not yet
/// specialized, the specialization belongs to its element, and the gold covers the price.
pub open spec fn specialization_allowed(
    gold: u32,
    element: Element,
    level: TowerLevel,
    current: Option<TowerSpecialization>,
    spec: TowerSpecialization,
) -> bool {
    &&& current is None
    &&& level.0 >= TOWER_MAX_LEVEL
    &&& specialization_element(spec) == element
    &&& gold >= specialization_cost(spec)
}

/// Specializes a tower (now specialized as `current`) if allowed, paying the price and
/// adding it to the investment. Returns whether it was specialized; nothing changes
/// otherwise.
pub fn specialize_tower(
    game: &mut GameData,
    element: Element,
    level: TowerLevel,
    current: Option<TowerSpecialization>,
    investment: &mut TowerInvestment,
    spec: TowerSpecialization,
) -> (done: bool)
    requires
        old(investment).0 + specialization_cost(spec) <= u32::MAX,
    ensures
        done == specialization_allowed(old(game).gold, element, level, current, spec),
        done ==> *final(game) == (GameData { gold: (old(game).gold - specialization_cost(spec)) as u32, ..*old(game) })
            && final(investment).0 == old(investment).0 + specialization_cost(spec),
        !done ==> *final(game) == *old(game) && *final(investment) == *old(investment),
{
    // A tower takes one specialization, at the top level.
    if current.is_some() || level.0 < TOWER_MAX_LEVEL {
        return false;
    }
    let specs = element_specializations(element);
    proof {
        lemma_specializations_of_element(element, spec);
    }
    let cost = if specs[0].0 == spec {
        specs[0].1.cost
    } else if specs[1].0 == spec {
        specs[1].1.cost
    } else {
        return false;
    };
    if game.gold < cost {
        return false;
    }
    game.gold = game.gold - cost;
    investment.0 = investment.0 + cost;
    true
}

/// How a specialization changes a tower's attack.
#[derive(Debug, Clone, Copy, PartialEq, Eq, Structural)]
pub struct SpecStatChange {
    /// Damage multiplier, in percent.
    pub damage_mult_pct: u32,
    /// Range added, in tenths.
    pub range_bonus_deci: u32,
    /// The attack cooldown is divided by this fraction, in percent (100 keeps it).
    pub cooldown_divisor_pct: u32,
    /// The tower's golems are removed (they respawn boosted, or give way to an aura).
    pub removes_golems: bool,
}

pub open spec fn spec_stat_change_spec(spec: TowerSpecialization) -> SpecStatChange {
    match spec {
        TowerSpecialization::Railgun => SpecStatChange { damage_mult_pct: 250, range_bonus_deci: 30, cooldown_divisor_pct: 35, removes_golems: false },
        TowerSpecialization::MeteorTower => SpecStatChange { damage_mult_pct: 300, range_bonus_deci: 20, cooldown_divisor_pct: 30, removes_golems: false },
        TowerSpecialization::InfernoCannon => SpecStatChange { damage_mult_pct: 150, range_bonus_deci: 0, cooldown_divisor_pct: 100, removes_golems: false },
        TowerSpecialization::MountainKing | TowerSpecialization::BrambleGrove => SpecStatChange { damage_mult_pct: 100, range_bonus_deci: 0, cooldown_divisor_pct: 100, removes_golems: true },
        TowerSpecialization::ShatterMage | TowerSpecialization::StormSpire | TowerSpecialization::BlizzardTower => SpecStatChange { damage_mult_pct: 100, range_bonus_deci: 0, cooldown_divisor_pct: 100, removes_golems: false },
    }
}

/// The attack changes a specialization makes; the other effects live in the projectile,
/// golem and aura rules.
pub fn spec_stat_change(spec: TowerSpecialization) -> (r: SpecStatChange)
    ensures
        r == spec_stat_change_spec(spec),
{
    match spec {
        TowerSpecialization::Railgun => SpecStatChange { damage_mult_pct: 250, range_bonus_deci: 30, cooldown_divisor_pct: 35, removes_golems: false },
        TowerSpecialization::MeteorTower => SpecStatChange { damage_mult_pct: 300, range_bonus_deci: 20, cooldown_divisor_pct: 30, removes_golems: false },
        TowerSpecialization::InfernoCannon => SpecStatChange { damage_mult_pct: 150, range_bonus_deci: 0, cooldown_divisor_pct: 100, removes_golems: false },
        TowerSpecialization::MountainKing | TowerSpecialization::BrambleGrove => SpecStatChange { damage_mult_pct: 100, range_bonus_deci: 0, cooldown_divisor_pct: 100, removes_golems: true },
        TowerSpecialization::ShatterMage | TowerSpecialization::StormSpire | TowerSpecialization::BlizzardTower => SpecStatChange { damage_mult_pct: 100, range_bonus_deci: 0, cooldown_divisor_pct: 100, removes_golems: false },
    }
}

} // verus!
