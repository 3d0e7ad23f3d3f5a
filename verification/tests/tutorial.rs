use ages_of_aether::resources::{Selection, WavePhase};
use ages_of_aether::save::SaveData;
use ages_of_aether::systems::tutorial::{
    activate_tutorial_on_enter, advance_tutorial, instruction_text, is_tutorial_active, track_rally_placement,
    TutorialObservation, TutorialState, TutorialStep,
};

fn obs(selection: Selection, phase: WavePhase, earth: Option<u64>) -> TutorialObservation {
    TutorialObservation { selection, wave_phase: phase, earth_tower: earth }
}

#[test]
fn tutorial_runs_only_on_first_visit_to_level_one() {
    let mut t = TutorialState::default();
    activate_tutorial_on_enter(&mut t, 1, None);
    assert_eq!(t.step, TutorialStep::TapBuildSpot);
    let mut done = SaveData::default();
    done.tutorial_completed = true;
    activate_tutorial_on_enter(&mut t, 1, Some(&done));
    assert_eq!(t.step, TutorialStep::Inactive);
    activate_tutorial_on_enter(&mut t, 2, Some(&SaveData::default()));
    assert_eq!(t.step, TutorialStep::Inactive);
}

#[test]
fn tutorial_walkthrough() {
    let mut t = TutorialState::default();
    let save = SaveData::default();
    activate_tutorial_on_enter(&mut t, 1, Some(&save));
    assert!(is_tutorial_active(&t));
    assert!(!advance_tutorial(&mut t, obs(Selection::Nothing, WavePhase::Idle, None)));
    assert_eq!(t.step, TutorialStep::TapBuildSpot);
    advance_tutorial(&mut t, obs(Selection::BuildSpot(5), WavePhase::Idle, None));
    assert_eq!(t.step, TutorialStep::BuildEarth);
    assert!(t.build_menu_seen);
    advance_tutorial(&mut t, obs(Selection::Nothing, WavePhase::Idle, Some(11)));
    assert_eq!((t.step, t.built_tower), (TutorialStep::TapGolem, Some(11)));
    // rally mode on another tower does not count
    advance_tutorial(&mut t, obs(Selection::SettingRallyPoint(12), WavePhase::Idle, Some(11)));
    assert_eq!(t.step, TutorialStep::TapGolem);
    advance_tutorial(&mut t, obs(Selection::SettingRallyPoint(11), WavePhase::Idle, Some(11)));
    assert_eq!(t.step, TutorialStep::TapGround);
    track_rally_placement(&mut t, &vec![3, 4]);
    assert!(!t.rally_set);
    track_rally_placement(&mut t, &vec![3, 11]);
    assert!(t.rally_set);
    // still in rally mode: wait
    advance_tutorial(&mut t, obs(Selection::SettingRallyPoint(11), WavePhase::Idle, Some(11)));
    assert_eq!(t.step, TutorialStep::TapGround);
    advance_tutorial(&mut t, obs(Selection::Nothing, WavePhase::Idle, Some(11)));
    assert_eq!(t.step, TutorialStep::TapStartWave);
    assert_eq!(instruction_text(t.step), Some("Tap the wave button to start the battle!"));
    assert!(advance_tutorial(&mut t, obs(Selection::Nothing, WavePhase::Spawning, Some(11))));
    assert_eq!(t.step, TutorialStep::Completed);
    assert!(!is_tutorial_active(&t));
    assert_eq!(instruction_text(t.step), None);
    assert!(!advance_tutorial(&mut t, obs(Selection::Nothing, WavePhase::Spawning, Some(11))));
}
