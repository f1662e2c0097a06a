use desktop_shell::{
    check_tauri_window, serves_commands, startup_failure_message, step, Phase, StartupAction,
    StartupEvent,
};

#[test]
fn healthy_start_runs_loop_then_exits_normally() {
    assert!(!serves_commands(Phase::NotStarted));
    let (phase, action) = step(Phase::NotStarted, StartupEvent::Built);
    assert_eq!(phase, Phase::Running);
    assert_eq!(action, StartupAction::RunLoop);
    assert!(serves_commands(phase));
    assert!(check_tauri_window());
    let (phase, action) = step(phase, StartupEvent::LoopEnded);
    assert_eq!(phase, Phase::Closed);
    assert_eq!(action, StartupAction::ExitNormally);
    assert!(!serves_commands(phase));
}

#[test]
fn failed_build_aborts_with_diagnostic() {
    let (phase, action) = step(Phase::NotStarted, StartupEvent::BuildFailed);
    assert_eq!(phase, Phase::Aborted);
    assert_eq!(action, StartupAction::Abort);
    assert!(!serves_commands(phase));
    assert_eq!(startup_failure_message(), "error while running tauri application");
}

#[test]
fn abort_is_final() {
    for event in [StartupEvent::Built, StartupEvent::BuildFailed, StartupEvent::LoopEnded] {
        assert_eq!(step(Phase::Aborted, event), (Phase::Aborted, StartupAction::Ignore));
        assert_eq!(step(Phase::Closed, event), (Phase::Closed, StartupAction::Ignore));
    }
}

#[test]
fn events_out_of_place_are_ignored() {
    assert_eq!(
        step(Phase::NotStarted, StartupEvent::LoopEnded),
        (Phase::NotStarted, StartupAction::Ignore)
    );
    assert_eq!(step(Phase::Running, StartupEvent::Built), (Phase::Running, StartupAction::Ignore));
    assert_eq!(
        step(Phase::Running, StartupEvent::BuildFailed),
        (Phase::Running, StartupAction::Ignore)
    );
}

#[test]
fn check_answer_unchanged_across_phases() {
    let mut phase = Phase::NotStarted;
    let events = [StartupEvent::Built, StartupEvent::Built, StartupEvent::LoopEnded];
    assert!(check_tauri_window());
    for event in events {
        let (p, _) = step(phase, event);
        phase = p;
        assert!(check_tauri_window());
    }
    assert_eq!(phase, Phase::Closed);
}
