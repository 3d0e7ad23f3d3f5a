//! Plain parts of the game's entities: tower element, level and investment, build spots.
use vstd::prelude::*;

use crate::data::TowerSpecialization;

verus! {

/// The element of a tower, which decides its damage type and its effect.
#[derive(Debug, Clone, Copy, PartialEq, Eq, Hash, Structural)]
pub enum Element {
    Lightning,
    Earth,
    Ice,
    Fire,
}

impl Element {
    pub open spec fn display_name_spec(self) -> Seq<char> {
        match self {
            Element::Lightning => "Lightning"@,
            Element::Earth => "Earth"@,
            Element::Ice => "Ice"@,
            Element::Fire => "Fire"@,
        }
    }

    /// The name shown for an element.
    pub fn display_name(&self) -> (r: &'static str)
        ensures
            r@ == self.display_name_spec(),
    {
        match self {
            Element::Lightning => "Lightning",
            Element::Earth => "Earth",
            Element::Ice => "Ice",
            Element::Fire => "Fire",
        }
    }

    /// Whether the element deals magic damage (reduced by magic resist) rather than
    /// physical damage (reduced by armor).
    pub fn deals_magic_damage(&self) -> (r: bool)
        ensures
            r == (*self == Element::Lightning || *self == Element::Ice),
    {
        match self {
            Element::Lightning | Element::Ice => true,
            Element::Earth | Element::Fire => false,
        }
    }
}

/// A tower's level, from 0 to `TOWER_MAX_LEVEL`.
#[derive(Debug, Clone, Copy, PartialEq, Eq, Structural)]
pub struct TowerLevel(pub u8);

/// Total gold invested in a tower, for the sell refund.
#[derive(Debug, Clone, Copy, PartialEq, Eq, Structural)]
pub struct TowerInvestment(pub u32);

/// Marks a tower as specialized.
#[derive(Debug, Clone, Copy, PartialEq, Eq, Structural)]
pub struct TowerSpec(pub TowerSpecialization);

/// Gold paid when an enemy dies.
#[derive(Debug, Clone, Copy, PartialEq, Eq, Structural)]
pub struct GoldReward(pub u32);

/// A spot where a tower can be built.
#[derive(Debug, Clone, Copy, PartialEq, Eq, Structural)]
pub struct BuildSpot {
    pub id: usize,
    pub occupied: bool,
}

} // verus!
