use octopos_bootstrapper::effect::{Action, CommandLine, Event, Place, RunMode, Turn, Word};
use octopos_bootstrapper::service::{
    generate_secret, register_companion_service, secret_from, service_step, ServiceStage,
};

fn exited(code: Option<i32>) -> Event {
    Event::Exited { code, stdout: Vec::new() }
}

fn failed(error: &str) -> Event {
    Event::Failed { error: error.to_string() }
}

fn missing(debug: &str) -> Event {
    Event::Missing { display: "shown".to_string(), debug: debug.to_string() }
}

fn show_place(place: &Place) -> String {
    format!("{:?}/{}", place.root, place.tail.join("/"))
}

fn show_command(command: &CommandLine) -> String {
    let mut all = Vec::new();
    for word in std::iter::once(&command.program).chain(command.args.iter()) {
        all.push(match word {
            Word::Text(text) => text.clone(),
            Word::Path(place) => format!("<{}>", show_place(place)),
            Word::Native(place) => format!("({})", show_place(place)),
        });
    }
    all.join(" ")
}

fn show(action: &Action) -> String {
    match action {
        Action::Run { command, mode } => {
            assert_eq!(*mode, RunMode::Status);
            format!("run {}", show_command(command))
        }
        Action::Probe { place } => format!("probe {}", show_place(place)),
        Action::MakeDirs { place } => format!("make {}", show_place(place)),
        Action::Copy { from, to } => format!("copy {} {}", show_place(from), show_place(to)),
        Action::Write { place, contents } => format!("write {} {}", show_place(place), contents),
        Action::Pause { millis } => format!("pause {}", millis),
        other => panic!("unexpected: {:?}", other),
    }
}

fn good_answer(action: &Action) -> Event {
    match action {
        Action::Run { .. } => exited(Some(0)),
        Action::Probe { .. } => Event::Found,
        _ => Event::Done,
    }
}

fn drive(program_data: bool) -> (Vec<String>, String, Result<(), String>) {
    let mut stage = ServiceStage::Begin;
    let mut event = Event::Begin;
    let mut secret = String::new();
    let mut log = Vec::new();
    loop {
        match register_companion_service(stage, program_data, &mut secret, &event) {
            Turn::Ask { action, stage: next } => {
                log.push(show(&action));
                event = good_answer(&action);
                assert!(event.answers(action.awaited()));
                stage = next;
            }
            Turn::Finish { result } => return (log, secret, result),
        }
    }
}

#[test]
fn secret_is_the_bytes_in_hexadecimal() {
    let mut bytes = [0u8; 32];
    for (i, b) in bytes.iter_mut().enumerate() {
        *b = (i * 8) as u8;
    }
    assert_eq!(
        secret_from(Ok(bytes)),
        Ok("0008101820283038404850586068707880889098a0a8b0b8c0c8d0d8e0e8f0f8".to_string())
    );
    assert_eq!(
        secret_from(Err("no entropy".to_string())),
        Err("getrandom: no entropy".to_string())
    );
}

#[test]
fn secrets_are_drawn_anew() {
    let one = generate_secret().unwrap();
    let other = generate_secret().unwrap();
    for secret in [&one, &other] {
        assert_eq!(secret.len(), 64);
        assert!(secret.chars().all(|c| matches!(c, '0'..='9' | 'a'..='f')));
    }
    assert_ne!(one, other);
    assert_ne!(one, "0".repeat(64));
}

#[test]
fn service_is_registered_in_order() {
    let (log, secret, result) = drive(true);
    assert_eq!(result, Ok(()));
    assert_eq!(secret.len(), 64);
    let expected = vec![
        "probe Resources/embedded/octopos-updater.exe".to_string(),
        "make ProgramFiles/OctoPOS Updater".to_string(),
        "run sc stop OctoPOSUpdater".to_string(),
        "run sc delete OctoPOSUpdater".to_string(),
        "pause 500".to_string(),
        "copy Resources/embedded/octopos-updater.exe ProgramFiles/OctoPOS Updater/octopos-updater.exe"
            .to_string(),
        format!(
            "run reg add HKLM\\Software\\OctoPOS /v UpdaterSecret /t REG_SZ /d {} /f",
            secret
        ),
        "make ProgramData/OctoPOS".to_string(),
        format!("write ProgramData/OctoPOS/updater-secret {}", secret),
        "run sc create OctoPOSUpdater binPath= <ProgramFiles/OctoPOS Updater/octopos-updater.exe> start= auto DisplayName= OctoPOS Updater Service"
            .to_string(),
        "run sc start OctoPOSUpdater".to_string(),
    ];
    assert_eq!(log, expected);
}

#[test]
fn secret_file_needs_program_data() {
    let (log, _, result) = drive(false);
    assert_eq!(result, Ok(()));
    assert_eq!(log.len(), 9);
    assert!(!log.iter().any(|line| line.contains("ProgramData")));
}

fn end(stage: ServiceStage, event: &Event) -> Option<Result<(), String>> {
    let mut secret = String::from("kept");
    let drawn = Ok("drawn".to_string());
    match service_step(stage, true, &mut secret, drawn, event) {
        Turn::Ask { .. } => None,
        Turn::Finish { result } => Some(result),
    }
}

#[test]
fn failures_that_end_the_registration() {
    let cases = [
        (
            ServiceStage::Bundled,
            missing("\"C:\\\\x\""),
            "octopos-updater.exe no encontrado en \"C:\\\\x\"",
        ),
        (ServiceStage::RootMade, failed("denied"), "create_dir_all updater root: denied"),
        (ServiceStage::Copied, failed("busy"), "copy updater binary: busy"),
        (ServiceStage::SecretRegistered, failed("no reg"), "reg add: no reg"),
        (ServiceStage::SecretWritten, failed("full"), "write secret: full"),
        (ServiceStage::Created, exited(Some(5)), "sc create fallo con codigo 5"),
        (ServiceStage::Created, exited(None), "sc create fallo con codigo -1"),
    ];
    for (stage, event, message) in cases {
        assert_eq!(end(stage, &event), Some(Err(message.to_string())));
    }
}

#[test]
fn failures_that_are_let_go() {
    for event in [exited(Some(1060)), exited(None), failed("no sc")] {
        assert_eq!(end(ServiceStage::Stopped, &event), None);
        assert_eq!(end(ServiceStage::Deleted, &event), None);
        assert_eq!(end(ServiceStage::Started, &event), Some(Ok(())));
    }
    assert_eq!(end(ServiceStage::SecretRegistered, &exited(Some(1))), None);
    assert_eq!(end(ServiceStage::SecretDirMade, &failed("x")), None);
    assert_eq!(end(ServiceStage::Created, &exited(Some(1073))), None);
    assert_eq!(end(ServiceStage::Created, &failed("no sc")), None);
}

#[test]
fn secret_that_cannot_be_drawn_ends_the_registration() {
    let mut secret = String::from("kept");
    let drawn = Err("getrandom: none".to_string());
    match service_step(ServiceStage::Copied, true, &mut secret, drawn, &Event::Done) {
        Turn::Finish { result } => assert_eq!(result, Err("getrandom: none".to_string())),
        other => panic!("went on: {:?}", other),
    }
    assert_eq!(secret, "kept");
}

#[test]
fn secret_is_drawn_in_one_step_only() {
    let mut secret = String::from("kept");
    let turn = register_companion_service(ServiceStage::Created, true, &mut secret, &exited(Some(0)));
    assert!(matches!(turn, Turn::Ask { stage: ServiceStage::Started, .. }));
    assert_eq!(secret, "kept");
    let turn = register_companion_service(ServiceStage::Copied, true, &mut secret, &Event::Done);
    assert!(matches!(turn, Turn::Ask { stage: ServiceStage::SecretRegistered, .. }));
    assert_ne!(secret, "kept");
}
