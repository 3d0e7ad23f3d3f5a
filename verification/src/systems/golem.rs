//! The golems an earth tower fields.
use vstd::prelude::*;

use crate::data::TowerSpecialization;

verus! {

/// Golem melee cooldown.
pub const GOLEM_ATTACK_COOLDOWN_MS: u32 = 1000;

/// The golems of one earth tower.
#[derive(Debug, Clone, Copy, PartialEq, Eq, Structural)]
pub struct GolemSquad {
    pub count: u32,
    pub hp: u32,
    /// Golem damage as a multiple of the tower's damage.
    pub damage_mult: u32,
    /// Model scale.
    pub scale: u32,
}

pub open spec fn golem_squad_spec(spec: Option<TowerSpecialization>) -> Option<GolemSquad> {
    match spec {
        Some(TowerSpecialization::BrambleGrove) => None,
        Some(TowerSpecialization::MountainKing) => Some(GolemSquad { count: 1, hp: 300, damage_mult: 2, scale: 80 }),
        _ => Some(GolemSquad { count: 2, hp: 100, damage_mult: 1, scale: 60 }),
    }
}

/// The golems an earth tower fields: none for a Bramble Grove (its aura replaces them),
/// one elite golem for a Mountain King, two golems otherwise.
pub fn golem_squad(spec: Option<TowerSpecialization>) -> (r: Option<GolemSquad>)
    ensures
        r == golem_squad_spec(spec),
{
    match spec {
        Some(TowerSpecialization::BrambleGrove) => None,
        Some(TowerSpecialization::MountainKing) => Some(GolemSquad { count: 1, hp: 300, damage_mult: 2, scale: 80 }),
        _ => Some(GolemSquad { count: 2, hp: 100, damage_mult: 1, scale: 60 }),
    }
}

/// Where golem `i` of a squad of `count` stands across the path from the rally point, in
/// tenths: a lone golem on it, a pair spread to either side.
pub fn golem_offset_deci(count: u32, i: u32) -> (r: i32)
    ensures
        r == if count == 1 { 0i32 } else if i == 0 { 8i32 } else { -8i32 },
{
    if count == 1 {
        0
    } else if i == 0 {
        8
    } else {
        -8
    }
}

} // verus!
