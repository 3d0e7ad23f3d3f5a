//! What a tap on the game world selects.
use vstd::prelude::*;

use crate::resources::{EntityId, Selection};

verus! {

/// What lies under a tap on the ground, as found by the frame loop's hit tests.
#[derive(Debug, Clone, Copy, PartialEq, Eq, Structural)]
pub struct ClickHits {
    /// The living hero is within reach of the tap.
    pub hero: bool,
    /// The first tower within reach of the tap.
    pub tower: Option<EntityId>,
    /// The first unoccupied build spot within reach of the tap.
    pub build_spot: Option<EntityId>,
}

/// The result of a tap: the new selection, and whether the hero walks to the tapped point.
#[derive(Debug, Clone, Copy, PartialEq, Eq, Structural)]
pub struct ClickOutcome {
    pub selection: Selection,
    pub move_hero: bool,
}

/// What a tap does, or `None` when it is ignored (while placing a rally point).
/// Escape clears the selection. Otherwise the hero is selected first (unless it already
/// is, so that a tap near it moves it), then a tower, then a free build spot; a tap on
/// empty ground moves a selected hero there, and in any case clears the selection.
pub fn world_click(current: Selection, escape: bool, hits: ClickHits) -> (r: Option<ClickOutcome>)
    ensures
        current is SettingRallyPoint ==> r is None,
        !(current is SettingRallyPoint) ==> r == Some(
            if escape {
                ClickOutcome { selection: Selection::Nothing, move_hero: false }
            } else if hits.hero && current != Selection::Hero {
                ClickOutcome { selection: Selection::Hero, move_hero: false }
            } else if hits.tower is Some {
                ClickOutcome { selection: Selection::Tower(hits.tower.unwrap()), move_hero: false }
            } else if hits.build_spot is Some {
                ClickOutcome { selection: Selection::BuildSpot(hits.build_spot.unwrap()), move_hero: false }
            } else {
                ClickOutcome { selection: Selection::Nothing, move_hero: current == Selection::Hero }
            },
        ),
{
    if let Selection::SettingRallyPoint(_) = current {
        return None;
    }
    if escape {
        return Some(ClickOutcome { selection: Selection::Nothing, move_hero: false });
    }
    let hero_selected = match current {
        Selection::Hero => true,
        _ => false,
    };
    if hits.hero && !hero_selected {
        return Some(ClickOutcome { selection: Selection::Hero, move_hero: false });
    }
    if let Some(tower) = hits.tower {
        return Some(ClickOutcome { selection: Selection::Tower(tower), move_hero: false });
    }
    if let Some(spot) = hits.build_spot {
        return Some(ClickOutcome { selection: Selection::BuildSpot(spot), move_hero: false });
    }
    Some(ClickOutcome { selection: Selection::Nothing, move_hero: hero_selected })
}

} // verus!
