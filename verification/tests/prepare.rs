use octopos_bootstrapper::effect::{Action, CommandLine, Event, Place, RunMode, Turn, Word};
use octopos_bootstrapper::prepare::{
    body_is_healthy, ensure_wsl, register_runonce, run_silent_installer, setup_log_path,
    wait_for_api_health, HealthStage, RunOnceStage, SilentStage, WslStage,
};

fn exited(code: Option<i32>, stdout: &str) -> Event {
    Event::Exited { code, stdout: stdout.as_bytes().to_vec() }
}

fn failed(error: &str) -> Event {
    Event::Failed { error: error.to_string() }
}

fn show_place(place: &Place) -> String {
    format!("{:?}/{}", place.root, place.tail.join("/"))
}

fn show_command(command: &CommandLine) -> String {
    let mut all = Vec::new();
    for word in std::iter::once(&command.program).chain(command.args.iter()) {
        all.push(match word {
            Word::Text(text) => text.clone(),
            Word::Path(place) => format!("<{}>", show_place(place)),
            Word::Native(place) => format!("({})", show_place(place)),
        });
    }
    all.join(" ")
}

fn asked<S: std::fmt::Debug, T: std::fmt::Debug>(turn: Turn<S, T>) -> (Action, S) {
    match turn {
        Turn::Ask { action, stage } => (action, stage),
        other => panic!("ended: {:?}", other),
    }
}

fn ended<S: std::fmt::Debug, T: std::fmt::Debug>(turn: Turn<S, T>) -> Result<T, String> {
    match turn {
        Turn::Finish { result } => result,
        other => panic!("went on: {:?}", other),
    }
}

fn command(action: &Action) -> (String, RunMode) {
    match action {
        Action::Run { command, mode } => (show_command(command), *mode),
        other => panic!("no command: {:?}", other),
    }
}

const SEC: u64 = 1_000_000_000;

#[test]
fn subsystem_that_is_there_needs_no_restart() {
    let (action, stage) = asked(ensure_wsl(WslStage::Begin, &Event::Begin));
    assert_eq!(command(&action), ("where wsl".to_string(), RunMode::Status));
    assert_eq!(ended(ensure_wsl(stage, &exited(Some(0), ""))), Ok(false));
}

#[test]
fn subsystem_that_is_missing_is_installed() {
    for reply in [exited(Some(1), ""), exited(None, ""), failed("no where")] {
        let (action, stage) = asked(ensure_wsl(WslStage::Searched, &reply));
        assert_eq!(
            command(&action),
            ("wsl --install --no-distribution".to_string(), RunMode::Stream)
        );
        assert_eq!(ended(ensure_wsl(stage, &exited(Some(0), ""))), Ok(true));
        assert_eq!(
            ended(ensure_wsl(stage, &exited(Some(50), ""))),
            Err("wsl --install fallo con codigo 50".to_string())
        );
        assert_eq!(
            ended(ensure_wsl(stage, &exited(None, ""))),
            Err("wsl --install fallo con codigo -1".to_string())
        );
        assert_eq!(ended(ensure_wsl(stage, &failed("spawn: x"))), Err("spawn: x".to_string()));
    }
}

#[test]
fn program_is_registered_for_the_next_start() {
    let (action, stage) = asked(register_runonce(RunOnceStage::Begin, &Event::Begin));
    assert!(matches!(action, Action::LocateSelf));
    let found = Event::Rendered { text: "C:\\setup.exe".to_string() };
    let (action, next) = asked(register_runonce(stage, &found));
    assert_eq!(
        command(&action),
        (
            "reg add HKLM\\Software\\Microsoft\\Windows\\CurrentVersion\\RunOnce /v OctoPOSBootstrapResume /t REG_SZ /d <CurrentExe/> /f"
                .to_string(),
            RunMode::Status
        )
    );
    assert_eq!(ended(register_runonce(next, &exited(Some(0), ""))), Ok(()));
    assert_eq!(
        ended(register_runonce(stage, &failed("lost"))),
        Err("current_exe: lost".to_string())
    );
    assert_eq!(ended(register_runonce(next, &failed("no reg"))), Err("reg add: no reg".to_string()));
    assert_eq!(
        ended(register_runonce(next, &exited(Some(1), ""))),
        Err("RunOnce registration fallo con codigo 1".to_string())
    );
    assert_eq!(
        ended(register_runonce(next, &exited(None, ""))),
        Err("RunOnce registration fallo con codigo -1".to_string())
    );
}

#[test]
fn log_is_below_program_data() {
    assert_eq!(show_place(&setup_log_path(true)), "ProgramData/OctoPOS/setup.log");
    assert_eq!(
        show_place(&setup_log_path(false)),
        "Literal/C:\\ProgramData\\OctoPOS\\setup.log"
    );
}

#[test]
fn silent_installer_is_run_with_the_platform_in_its_environment() {
    let (action, stage) = asked(run_silent_installer(SilentStage::Begin, true, &Event::Begin));
    match action {
        Action::Probe { place } => {
            assert_eq!(show_place(&place), "Resources/embedded/install-silent.ps1")
        }
        other => panic!("no probe: {:?}", other),
    }
    let (action, stage) = asked(run_silent_installer(stage, true, &Event::Found));
    match &action {
        Action::Run { command, mode } => {
            assert_eq!(
                show_command(command),
                "powershell -NoProfile -ExecutionPolicy Bypass -File <Resources/embedded/install-silent.ps1>"
            );
            assert_eq!(*mode, RunMode::Stream);
            assert_eq!(
                command.env,
                [(
                    "OCTOPOS_PLATFORM_URL".to_string(),
                    "https://platform.octo-pos.net".to_string()
                )]
            );
        }
        other => panic!("no command: {:?}", other),
    }
    assert_eq!(ended(run_silent_installer(stage, true, &exited(Some(0), ""))), Ok(()));
    assert_eq!(
        ended(run_silent_installer(stage, true, &exited(Some(3), ""))),
        Err("__REBOOT_REQUIRED__".to_string())
    );
    assert_eq!(
        ended(run_silent_installer(stage, true, &failed("clone log: x"))),
        Err("clone log: x".to_string())
    );
}

#[test]
fn missing_script_is_reported() {
    let event = Event::Missing { display: "d".to_string(), debug: "\"q\"".to_string() };
    assert_eq!(
        ended(run_silent_installer(SilentStage::Searched, true, &event)),
        Err("install-silent.ps1 no encontrado en \"q\"".to_string())
    );
}

#[test]
fn failed_script_points_to_the_log() {
    let log = Event::Rendered { text: "C:\\x\\setup.log".to_string() };
    for (code, message) in [
        (Some(1), "install-silent.ps1 fallo con codigo 1. Detalles en C:\\x\\setup.log"),
        (Some(-5), "install-silent.ps1 fallo con codigo -5. Detalles en C:\\x\\setup.log"),
        (None, "install-silent.ps1 termino sin codigo de salida. Detalles en C:\\x\\setup.log"),
    ] {
        let (action, stage) = asked(run_silent_installer(SilentStage::Ran, true, &exited(code, "")));
        match action {
            Action::Render { place } => assert_eq!(show_place(&place), "ProgramData/OctoPOS/setup.log"),
            other => panic!("nothing rendered: {:?}", other),
        }
        assert_eq!(ended(run_silent_installer(stage, true, &log)), Err(message.to_string()));
    }
}

#[test]
fn health_is_told_by_the_body() {
    assert!(body_is_healthy("{\"ok\":true}"));
    assert!(body_is_healthy("x\"ok\":truey"));
    assert!(!body_is_healthy("{\"ok\": true}"));
    assert!(!body_is_healthy(""));
}

/// Runs the wait with a clock that moves on by the pauses alone. The server
/// answers from the given moment on.
fn wait_until(up: u64) -> (Result<(), String>, u64, Vec<u8>) {
    let mut now: u64 = 77;
    let begin = now;
    let mut asked_times: u64 = 0;
    let mut reports = Vec::new();
    let mut stage = HealthStage::Begin;
    let mut event = Event::Begin;
    loop {
        match wait_for_api_health(stage, &event) {
            Turn::Finish { result } => return (result, asked_times, reports),
            Turn::Ask { action, stage: next } => {
                event = match &action {
                    Action::ReadClock => Event::Clock { now },
                    Action::Run { command, mode } => {
                        assert_eq!(show_command(command), "curl -fsS http://localhost:3000/");
                        assert_eq!(*mode, RunMode::Output);
                        asked_times += 1;
                        if now >= begin + up {
                            exited(Some(0), "{\"ok\":true}")
                        } else if asked_times % 2 == 0 {
                            failed("refused")
                        } else {
                            exited(Some(7), "")
                        }
                    }
                    Action::Pause { millis } => {
                        now += millis * 1_000_000;
                        Event::Done
                    }
                    Action::Report { percent, message } => {
                        assert_eq!(message, "Servidor listo");
                        reports.push(*percent);
                        Event::Done
                    }
                    other => panic!("unexpected: {:?}", other),
                };
                assert!(event.answers(action.awaited()));
                stage = next;
            }
        }
    }
}

#[test]
fn server_is_asked_every_two_seconds() {
    assert_eq!(wait_until(0), (Ok(()), 1, vec![80]));
    assert_eq!(wait_until(10 * SEC), (Ok(()), 6, vec![80]));
    assert_eq!(wait_until(178 * SEC), (Ok(()), 90, vec![80]));
}

#[test]
fn server_is_given_up_after_three_minutes() {
    let message = "El servidor API no respondio dentro de 3 minutos.".to_string();
    assert_eq!(wait_until(180 * SEC), (Err(message.clone()), 90, Vec::new()));
    assert_eq!(wait_until(u64::MAX / 2), (Err(message), 90, Vec::new()));
}

#[test]
fn last_moment_still_counts() {
    let stage = HealthStage::Timed { start: 5 };
    let (action, _) = asked(wait_for_api_health(stage, &Event::Clock { now: 5 + 180 * SEC - 1 }));
    assert!(matches!(action, Action::Run { .. }));
    assert!(ended(wait_for_api_health(stage, &Event::Clock { now: 5 + 180 * SEC })).is_err());
    // A clock near the end of its range does not overflow.
    let late = HealthStage::Timed { start: u64::MAX };
    let (action, _) = asked(wait_for_api_health(late, &Event::Clock { now: u64::MAX }));
    assert!(matches!(action, Action::Run { .. }));
}
