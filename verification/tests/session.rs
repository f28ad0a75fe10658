use octopos_bootstrapper::effect::{Action, Event, Platform, Turn};
use octopos_bootstrapper::pipeline::InstallStage;
use octopos_bootstrapper::service::ServiceStage;
use octopos_bootstrapper::session::{
    last_report, run_session, session_step, SessionMemory, SessionStage,
};
use octopos_bootstrapper::telemetry::{Outcome, Report};

const RELEASE: &str = r#"{"assets": [{"name": "admin-setup.exe", "browser_download_url": "u"}]}"#;

/// Answers a request on a machine where all goes well, if Windows is of this
/// build.
fn answer(action: &Action, build: u32) -> Event {
    match action {
        Action::Run { command, .. } => {
            let text = format!("{:?}", command);
            let stdout = if text.contains("ver\"") {
                format!("Microsoft Windows [Version 10.0.{}.1]", build)
            } else if text.contains("releases/latest") {
                RELEASE.to_string()
            } else if text.contains("localhost:3000") {
                "{\"ok\":true}".to_string()
            } else {
                String::new()
            };
            Event::Exited { code: Some(0), stdout: stdout.into_bytes() }
        }
        Action::Probe { .. } => Event::Found,
        Action::ReadClock => Event::Clock { now: 0 },
        Action::LocateSelf | Action::Render { .. } => Event::Rendered { text: "P".to_string() },
        _ => Event::Done,
    }
}

fn show(report: &Report) -> String {
    format!(
        "{} {:?} {:?} {}",
        report.outcome.name(),
        report.error_step,
        report.error_message,
        report.force
    )
}

/// Runs the installation and notes what goes on around it.
fn drive(platform: Platform, build: u32) -> (Vec<String>, Result<(), String>) {
    let mut stage = SessionStage::Begin;
    let mut event = Event::Begin;
    let mut memory = SessionMemory::new();
    let mut log: Vec<String> = Vec::new();
    for _ in 0..200 {
        match run_session(platform, true, stage, &mut memory, &event) {
            Turn::Finish { result } => return (log, result),
            Turn::Ask { action, stage: next } => {
                match &action {
                    Action::SendReport { report } => log.push(format!("send {}", show(report))),
                    Action::ShowError { message } => log.push(format!("show {}", message)),
                    Action::BeginReports => log.push("begin".to_string()),
                    Action::Announce => log.push("announce".to_string()),
                    Action::Pause { millis } => log.push(format!("pause {}", millis)),
                    Action::Report { percent, .. } => log.push(format!("at {}", percent)),
                    _ => {}
                }
                event = answer(&action, build);
                assert!(event.answers(action.awaited()));
                stage = next;
            }
        }
    }
    panic!("the run does not end");
}

fn owned(list: &[&str]) -> Vec<String> {
    list.iter().map(|s| s.to_string()).collect()
}

#[test]
fn success_is_reported_last() {
    assert_eq!(
        drive(Platform::Windows, 19041),
        (
            owned(&[
                "pause 120",
                "begin",
                "at 2",
                "at 8",
                "at 15",
                "at 40",
                "at 70",
                "at 80",
                "at 85",
                "at 90",
                "pause 500",
                "at 94",
                "at 100",
                "announce",
                "send success None None true",
            ]),
            Ok(())
        )
    );
}

#[test]
fn failure_is_reported_and_then_shown() {
    let message = "Windows 10 build 19041+ requerido (encontrado 17763)";
    assert_eq!(
        drive(Platform::Windows, 17763),
        (
            vec![
                "pause 120".to_string(),
                "begin".to_string(),
                "at 2".to_string(),
                format!("send error Some(\"run_install\") Some({:?}) true", message),
                format!("show {}", message),
            ],
            Ok(())
        )
    );
}

#[test]
fn failure_off_windows_is_shown_only() {
    assert_eq!(
        drive(Platform::Other, 19041),
        (
            owned(&["pause 120", "at 0", "show This bootstrapper only runs on Windows."]),
            Ok(())
        )
    );
}

#[test]
fn last_report_says_how_it_ended() {
    let report = last_report(Platform::Windows, &Ok(())).unwrap();
    assert_eq!(report.outcome, Outcome::Success);
    assert_eq!(show(&report), "success None None true");
    let report = last_report(Platform::Windows, &Err("ver: x".to_string())).unwrap();
    assert_eq!(report.outcome, Outcome::Error);
    assert_eq!(show(&report), "error Some(\"run_install\") Some(\"ver: x\") true");
    assert!(last_report(Platform::Other, &Ok(())).is_none());
    assert!(last_report(Platform::Other, &Err("no".to_string())).is_none());
}

#[test]
fn failure_to_draw_the_secret_is_remembered() {
    let mut memory = SessionMemory::new();
    let at = InstallStage::Updater { at: ServiceStage::Copied };
    let turn = session_step(
        Platform::Windows,
        true,
        SessionStage::Installing { at },
        &mut memory,
        Err("getrandom: none".to_string()),
        &Event::Done,
    );
    match turn {
        Turn::Ask { action: Action::SendReport { report }, stage } => {
            assert_eq!(stage, SessionStage::Reported);
            assert_eq!(report.error_message, Some("getrandom: none".to_string()));
        }
        other => panic!("no report: {:?}", other),
    }
    assert_eq!(memory.failure, Some("getrandom: none".to_string()));
}
