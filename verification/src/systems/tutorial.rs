//! The first-play tutorial of level 1: build a tower on a spot, build an earth tower,
//! send its golems with a rally point, then start the first wave.
use vstd::prelude::*;

use crate::resources::{EntityId, Selection, WavePhase};
use crate::save::SaveData;

verus! {

#[derive(Debug, Clone, Copy, PartialEq, Eq, Structural)]
pub enum TutorialStep {
    Inactive,
    /// "Tap a build spot"; advances when the build menu appears.
    TapBuildSpot,
    /// The build menu is open: "tap Earth"; advances when an earth tower exists.
    BuildEarth,
    /// An earth tower exists: "tap a golem"; advances when rally-point mode starts on it.
    TapGolem,
    /// Rally-point mode: "tap the path"; advances when the rally point is set.
    TapGround,
    /// The rally point is set: "tap Start Wave"; advances when wave 1 starts.
    TapStartWave,
    /// Done; the next visit clears it.
    Completed,
}

impl Default for TutorialStep {
    fn default() -> (r: Self)
        ensures
            r == TutorialStep::Inactive,
    {
        TutorialStep::Inactive
    }
}

#[derive(Debug, Clone, Copy, PartialEq, Eq, Structural)]
pub struct TutorialState {
    pub step: TutorialStep,
    pub build_menu_seen: bool,
    pub built_tower: Option<EntityId>,
    pub rally_set: bool,
}

impl Default for TutorialState {
    fn default() -> (r: Self)
        ensures
            r == (TutorialState { step: TutorialStep::Inactive, build_menu_seen: false, built_tower: None, rally_set: false }),
    {
        TutorialState { step: TutorialStep::Inactive, build_menu_seen: false, built_tower: None, rally_set: false }
    }
}

/// The tutorial runs on level 1 while the save has not recorded it as completed
/// (and always when there is no save).
pub open spec fn tutorial_should_run(current_level: u32, tutorial_completed: Option<bool>) -> bool {
    current_level == 1 && match tutorial_completed {
        Some(done) => !done,
        None => true,
    }
}

/// Starts or clears the tutorial when play begins.
pub fn activate_tutorial_on_enter(tutorial: &mut TutorialState, current_level: u32, save: Option<&SaveData>)
    ensures
        *final(tutorial) == (TutorialState {
            step: if tutorial_should_run(current_level, match save { Some(s) => Some(s.tutorial_completed), None => None }) {
                TutorialStep::TapBuildSpot
            } else {
                TutorialStep::Inactive
            },
            build_menu_seen: false,
            built_tower: None,
            rally_set: false,
        }),
{
    let not_done = match save {
        Some(s) => !s.tutorial_completed,
        None => true,
    };
    let should_run = current_level == 1 && not_done;
    tutorial.step = if should_run { TutorialStep::TapBuildSpot } else { TutorialStep::Inactive };
    tutorial.build_menu_seen = false;
    tutorial.built_tower = None;
    tutorial.rally_set = false;
}

pub open spec fn tutorial_active_spec(step: TutorialStep) -> bool {
    step != TutorialStep::Inactive && step != TutorialStep::Completed
}

/// Whether the tutorial is running; meanwhile `build_tower` refuses non-earth towers and
/// `auto_wave_tick` holds auto-wave back.
pub fn is_tutorial_active(tutorial: &TutorialState) -> (r: bool)
    ensures
        r == tutorial_active_spec(tutorial.step),
{
    match tutorial.step {
        TutorialStep::Inactive | TutorialStep::Completed => false,
        _ => true,
    }
}

/// What the frame shows the tutorial.
#[derive(Debug, Clone, Copy, PartialEq, Eq, Structural)]
pub struct TutorialObservation {
    pub selection: Selection,
    pub wave_phase: WavePhase,
    /// An earth tower of the field, if there is one.
    pub earth_tower: Option<EntityId>,
}

/// The tutorial after one frame.
pub open spec fn tutorial_after(t: TutorialState, obs: TutorialObservation) -> TutorialState {
    match t.step {
        TutorialStep::TapBuildSpot => {
            if obs.selection is BuildSpot {
                TutorialState { step: TutorialStep::BuildEarth, build_menu_seen: true, ..t }
            } else {
                t
            }
        },
        TutorialStep::BuildEarth => {
            match obs.earth_tower {
                Some(tower) => TutorialState { step: TutorialStep::TapGolem, built_tower: Some(tower), ..t },
                None => t,
            }
        },
        TutorialStep::TapGolem => {
            match (obs.selection, t.built_tower) {
                (Selection::SettingRallyPoint(tower), Some(built)) => {
                    if tower == built {
                        TutorialState { step: TutorialStep::TapGround, ..t }
                    } else {
                        t
                    }
                },
                _ => t,
            }
        },
        TutorialStep::TapGround => {
            match t.built_tower {
                Some(built) => {
                    let still_setting = obs.selection == Selection::SettingRallyPoint(built);
                    if !still_setting && t.rally_set {
                        TutorialState { step: TutorialStep::TapStartWave, ..t }
                    } else {
                        t
                    }
                },
                None => t,
            }
        },
        TutorialStep::TapStartWave => {
            if obs.wave_phase != WavePhase::Idle {
                TutorialState { step: TutorialStep::Completed, ..t }
            } else {
                t
            }
        },
        _ => t,
    }
}

/// Moves the tutorial on by what this frame shows. Returns whether it was completed just
/// now (the save then records it).
pub fn advance_tutorial(tutorial: &mut TutorialState, obs: TutorialObservation) -> (completed_now: bool)
    ensures
        *final(tutorial) == tutorial_after(*old(tutorial), obs),
        completed_now == (old(tutorial).step == TutorialStep::TapStartWave && final(tutorial).step
            == TutorialStep::Completed),
{
    match tutorial.step {
        TutorialStep::TapBuildSpot => {
            if let Selection::BuildSpot(_) = obs.selection {
                tutorial.step = TutorialStep::BuildEarth;
                tutorial.build_menu_seen = true;
            }
            false
        },
        TutorialStep::BuildEarth => {
            if let Some(tower) = obs.earth_tower {
                tutorial.built_tower = Some(tower);
                tutorial.step = TutorialStep::TapGolem;
            }
            false
        },
        TutorialStep::TapGolem => {
            if let (Selection::SettingRallyPoint(tower), Some(built)) = (obs.selection, tutorial.built_tower) {
                if tower == built {
                    tutorial.step = TutorialStep::TapGround;
                }
            }
            false
        },
        TutorialStep::TapGround => {
            // The rally point is placed once rally mode on the built tower has ended and
            // the tower carries a rally point.
            if let Some(built) = tutorial.built_tower {
                let still_setting = match obs.selection {
                    Selection::SettingRallyPoint(e) => e == built,
                    _ => false,
                };
                if !still_setting && tutorial.rally_set {
                    tutorial.step = TutorialStep::TapStartWave;
                }
            }
            false
        },
        TutorialStep::TapStartWave => {
            // The wave leaves Idle the moment the wave button is consumed.
            if obs.wave_phase != WavePhase::Idle {
                tutorial.step = TutorialStep::Completed;
                true
            } else {
                false
            }
        },
        _ => false,
    }
}

/// Notes that the built tower now has a rally point, while the tutorial waits for it.
pub fn track_rally_placement(tutorial: &mut TutorialState, towers_with_rally: &Vec<EntityId>)
    ensures
        *final(tutorial) == if old(tutorial).step == TutorialStep::TapGround && old(tutorial).built_tower is Some
            && towers_with_rally@.contains(old(tutorial).built_tower.unwrap()) {
            TutorialState { rally_set: true, ..*old(tutorial) }
        } else {
            *old(tutorial)
        },
{
    if tutorial.step == TutorialStep::TapGround {
        if let Some(built) = tutorial.built_tower {
            let mut i: usize = 0;
            let mut found = false;
            while i < towers_with_rally.len()
                invariant
                    0 <= i <= towers_with_rally.len(),
                    found <==> exists|j: int| 0 <= j < i && towers_with_rally@[j] == built,
                decreases towers_with_rally.len() - i,
            {
                if towers_with_rally[i] == built {
                    found = true;
                }
                i = i + 1;
            }
            if found {
                tutorial.rally_set = true;
            }
        }
    }
}

pub open spec fn instruction_text_spec(step: TutorialStep) -> Option<Seq<char>> {
    match step {
        TutorialStep::TapBuildSpot => Some("Tap one of the gray build spots on the map."@),
        TutorialStep::BuildEarth => Some("Tap EARTH to build a golem barracks."@),
        TutorialStep::TapGolem => Some("Tap one of your golems."@),
        TutorialStep::TapGround => Some("Now tap the path to send your golem there."@),
        TutorialStep::TapStartWave => Some("Tap the wave button to start the battle!"@),
        _ => None,
    }
}

/// The banner text of a step.
pub fn instruction_text(step: TutorialStep) -> (r: Option<&'static str>)
    ensures
        match r {
            Some(s) => instruction_text_spec(step) == Some(s@),
            None => instruction_text_spec(step) is None,
        },
{
    match step {
        TutorialStep::TapBuildSpot => Some("Tap one of the gray build spots on the map."),
        TutorialStep::BuildEarth => Some("Tap EARTH to build a golem barracks."),
        TutorialStep::TapGolem => Some("Tap one of your golems."),
        TutorialStep::TapGround => Some("Now tap the path to send your golem there."),
        TutorialStep::TapStartWave => Some("Tap the wave button to start the battle!"),
        _ => None,
    }
}

/// The order of the steps.
pub open spec fn step_rank(step: TutorialStep) -> int {
    match step {
        TutorialStep::Inactive => 0,
        TutorialStep::TapBuildSpot => 1,
        TutorialStep::BuildEarth => 2,
        TutorialStep::TapGolem => 3,
        TutorialStep::TapGround => 4,
        TutorialStep::TapStartWave => 5,
        TutorialStep::Completed => 6,
    }
}

/// The tutorial only moves forward, one step at a time, and an inactive or completed
/// tutorial stays as it is.
pub proof fn lemma_tutorial_moves_forward(t: TutorialState, obs: TutorialObservation)
    ensures
        step_rank(t.step) <= step_rank(tutorial_after(t, obs).step) <= step_rank(t.step) + 1,
        !tutorial_active_spec(t.step) ==> tutorial_after(t, obs) == t,
{
}

/// The tutorial completes only once the first wave is under way: from "tap Start Wave" it
/// becomes completed exactly when the observed wave phase has left Idle, stays as it is
/// while the wave is idle, and no other step jumps to completion.
pub proof fn lemma_tutorial_completes_on_wave_start(t: TutorialState, obs: TutorialObservation)
    ensures
        t.step != TutorialStep::Completed && tutorial_after(t, obs).step == TutorialStep::Completed ==> t.step
            == TutorialStep::TapStartWave && obs.wave_phase != WavePhase::Idle,
        t.step == TutorialStep::TapStartWave && obs.wave_phase == WavePhase::Idle ==> tutorial_after(t, obs) == t,
        t.step == TutorialStep::TapStartWave && obs.wave_phase != WavePhase::Idle ==> tutorial_after(t, obs) == (
        TutorialState { step: TutorialStep::Completed, ..t }),
{
}

} // verus!
