use fractal::control::{pick_palette, SimState, UpdateBudget};

#[test]
fn pause_key_toggles_running_and_paused() {
    assert_eq!(SimState::Running.on_keys(true, false), SimState::Paused);
    assert_eq!(SimState::Paused.on_keys(true, false), SimState::Running);
    assert_eq!(SimState::RunOneFrame.on_keys(true, false), SimState::Paused);
    assert_eq!(SimState::Running.on_keys(false, false), SimState::Running);
    assert_eq!(SimState::Paused.on_keys(false, false), SimState::Paused);
}

#[test]
fn step_key_runs_one_frame_only_when_paused() {
    assert_eq!(SimState::Paused.on_keys(false, true), SimState::RunOneFrame);
    assert_eq!(SimState::Running.on_keys(false, true), SimState::Running);
    // pausing and stepping in the same frame steps once
    assert_eq!(SimState::Running.on_keys(true, true), SimState::RunOneFrame);
    // resuming wins over stepping
    assert_eq!(SimState::Paused.on_keys(true, true), SimState::Running);
}

#[test]
fn single_step_falls_back_to_paused() {
    assert_eq!(SimState::RunOneFrame.after_frame(), SimState::Paused);
    assert_eq!(SimState::Running.after_frame(), SimState::Running);
    assert_eq!(SimState::Paused.after_frame(), SimState::Paused);
}

#[test]
fn palette_choice_keeps_or_switches() {
    assert_eq!(pick_palette(2, None, 5), 2);
    assert_eq!(pick_palette(2, Some(4), 5), 4);
    assert_eq!(pick_palette(2, Some(0), 5), 0);
    assert_eq!(pick_palette(2, Some(7), 5), 0);
    assert_eq!(pick_palette(9, None, 5), 0);
}

#[test]
fn budget_runs_updates_while_they_fit() {
    let mut budget = UpdateBudget::new(16_600, 4_000);
    assert!(budget.wants_another());
    assert!(budget.record(3_000));
    assert_eq!(budget, UpdateBudget { left: 13_600, estimate: 4_000 });
    assert!(budget.record(5_000));
    assert_eq!(budget, UpdateBudget { left: 8_600, estimate: 5_000 });
    assert!(budget.wants_another());
    assert!(budget.record(4_000));
    assert_eq!(budget.left, 4_600);
    assert!(!budget.wants_another());
}

#[test]
fn budget_is_spent_by_an_update_longer_than_what_is_left() {
    let mut budget = UpdateBudget::new(10_000, 1_000);
    assert!(!budget.record(10_000));
    assert_eq!(budget, UpdateBudget { left: 10_000, estimate: 10_000 });
    assert!(!budget.wants_another());
}
