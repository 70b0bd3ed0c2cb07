use sonic3d_autosplitter::timer::TimerState;

#[test]
fn a_run_is_under_way_while_running_or_paused() {
    assert!(TimerState::Running.in_run());
    assert!(TimerState::Paused.in_run());
    assert!(!TimerState::NotRunning.in_run());
    assert!(!TimerState::Ended.in_run());
}
