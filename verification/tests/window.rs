use octopos_bootstrapper::effect::Platform;
use octopos_bootstrapper::telemetry::Outcome;
use octopos_bootstrapper::window::{
    progress, start_install, InstallState, COMPLETE_EVENT, ERROR_EVENT, LOG_EVENT, PROGRESS_EVENT,
};

#[test]
fn events_have_their_names() {
    assert_eq!(
        [PROGRESS_EVENT, ERROR_EVENT, LOG_EVENT, COMPLETE_EVENT],
        ["setup-progress", "setup-error", "setup-log", "setup-complete"]
    );
}

#[test]
fn installation_is_started_once() {
    let mut state = InstallState::default();
    assert!(!state.started);
    assert!(start_install(&mut state));
    for _ in 0..5 {
        assert!(!start_install(&mut state));
        assert!(state.started);
    }
}

#[test]
fn progress_is_shown_and_reported() {
    let made = progress(Platform::Windows, 15, "Preparando entorno...".to_string());
    assert_eq!(made.event.percent, 15);
    assert_eq!(made.event.message, "Preparando entorno...");
    let report = made.report.unwrap();
    assert_eq!(report.outcome, Outcome::InProgress);
    assert_eq!((report.error_step, report.error_message, report.force), (None, None, false));
    assert!(progress(Platform::Other, 0, String::new()).report.is_none());
}
