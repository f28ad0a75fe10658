use octopos_bootstrapper::effect::{Action, CommandLine, Event, Place, Platform, Turn, Word};
use octopos_bootstrapper::pipeline::{
    install_step, run_install, InstallMemory, InstallStage, Step,
};
use octopos_bootstrapper::prepare::RunOnceStage;
use octopos_bootstrapper::service::ServiceStage;

fn exited(code: i32, stdout: &str) -> Event {
    Event::Exited { code: Some(code), stdout: stdout.as_bytes().to_vec() }
}

fn failed(error: &str) -> Event {
    Event::Failed { error: error.to_string() }
}

fn show_place(place: &Place) -> String {
    format!("{:?}/{}", place.root, place.tail.join("/"))
}

fn show_command(command: &CommandLine) -> String {
    let mut all = Vec::new();
    for word in std::iter::once(&command.program).chain(command.args.iter()) {
        all.push(match word {
            Word::Text(text) => text.clone(),
            Word::Path(place) => format!("<{}>", show_place(place)),
            Word::Native(place) => format!("({})", show_place(place)),
        });
    }
    all.join(" ")
}

const RELEASE: &str = r#"{"assets": [{"name": "OctoPOS.Admin_1_x64-setup.exe", "browser_download_url": "https://x/a"}]}"#;

/// Answers a request on a machine where all goes well.
fn good(action: &Action) -> Event {
    match action {
        Action::Run { command, .. } => {
            let text = show_command(command);
            if text == "cmd /c ver" {
                exited(0, "Microsoft Windows [Version 10.0.19045.1]")
            } else if text.starts_with("curl") && text.contains("releases/latest") {
                exited(0, RELEASE)
            } else if text.starts_with("curl -fsS http://localhost") {
                exited(0, "{\"ok\":true}")
            } else {
                exited(0, "")
            }
        }
        Action::Probe { .. } => Event::Found,
        Action::ReadClock => Event::Clock { now: 0 },
        Action::LocateSelf | Action::Render { .. } => Event::Rendered { text: "P".to_string() },
        _ => Event::Done,
    }
}

/// Runs the installation, with the first request whose text contains the given
/// one answered by the given event.
fn drive(
    platform: Platform,
    change: Option<(&str, Event)>,
) -> (Vec<String>, Vec<u8>, Result<(), String>) {
    let mut change = change;
    let mut stage = InstallStage::Begin;
    let mut event = Event::Begin;
    let mut memory = InstallMemory::new();
    let mut log = Vec::new();
    let mut percents = Vec::new();
    for _ in 0..200 {
        match run_install(platform, true, stage, &mut memory, &event) {
            Turn::Finish { result } => return (log, percents, result),
            Turn::Ask { action, stage: next } => {
                let text = match &action {
                    Action::Run { command, .. } => show_command(command),
                    Action::Report { percent, message } => {
                        percents.push(*percent);
                        format!("{} {}", percent, message)
                    }
                    Action::Probe { place } => format!("probe {}", show_place(place)),
                    other => format!("{:?}", other),
                };
                let hit = match &change {
                    Some((wanted, _)) => text.contains(wanted),
                    None => false,
                };
                event = if hit { change.take().unwrap().1 } else { good(&action) };
                assert!(event.answers(action.awaited()), "{}", text);
                log.push(text);
                stage = next;
            }
        }
    }
    panic!("the installation does not end");
}

fn position(log: &[String], text: &str) -> usize {
    match log.iter().position(|line| line.contains(text)) {
        Some(at) => at,
        None => panic!("{} is missing", text),
    }
}

#[test]
fn installation_goes_through_its_steps() {
    let (log, percents, result) = drive(Platform::Windows, None);
    assert_eq!(result, Ok(()));
    assert_eq!(percents, [2, 8, 15, 40, 70, 80, 85, 90, 94, 100]);
    assert_eq!(log.last().unwrap(), "Announce");
    let order = [
        "2 Verificando requisitos del sistema...",
        "cmd /c ver",
        "8 Descomprimiendo recursos...",
        "LocateResources",
        "15 Preparando entorno...",
        "where wsl",
        "40 Instalando dependencias...",
        "install-silent.ps1>",
        "70 Instalando base de datos y servidor...",
        "http://localhost:3000/",
        "80 Servidor listo",
        "85 Descargando e instalando el panel...",
        "releases/latest",
        "https://x/a",
        "<Temp/OctoPOS.Admin_1_x64-setup.exe> /S",
        "90 Registrando servicio de actualizaciones...",
        "sc stop",
        "sc delete",
        "UpdaterSecret",
        "sc create",
        "sc start",
        "94 Configurando arranque automatico al boot...",
        "schtasks /create",
        "100 Listo. OctoPOS esta instalado.",
        "Announce",
    ];
    let places: Vec<usize> = order.iter().map(|text| position(&log, text)).collect();
    for pair in places.windows(2) {
        assert!(pair[0] < pair[1]);
    }
}

#[test]
fn restart_is_prepared_before_it_is_made() {
    let (log, percents, result) = drive(Platform::Windows, Some(("where wsl", exited(1, ""))));
    assert_eq!(result, Ok(()));
    assert_eq!(percents, [2, 8, 15, 25, 30]);
    assert!(log.contains(&"25 Configurando reanudacion despues del reboot...".to_string()));
    assert!(log.contains(&"30 Reiniciando equipo...".to_string()));
    assert!(position(&log, "RunOnce") < position(&log, "shutdown"));
    assert_eq!(log.last().unwrap(), "shutdown /r /t 5");
}

#[test]
fn restart_is_not_made_unprepared() {
    let mut stage = InstallStage::Begin;
    let mut event = Event::Begin;
    let mut memory = InstallMemory::new();
    loop {
        match run_install(Platform::Windows, true, stage, &mut memory, &event) {
            Turn::Finish { result } => {
                assert_eq!(result, Err("RunOnce registration fallo con codigo 1".to_string()));
                return;
            }
            Turn::Ask { action, stage: next } => {
                event = good(&action);
                if let Action::Run { command, .. } = &action {
                    let text = show_command(command);
                    assert!(!text.contains("shutdown"));
                    if text.contains("where wsl") || text.contains("RunOnce") {
                        event = exited(1, "");
                    }
                }
                stage = next;
            }
        }
    }
}

#[test]
fn failed_step_ends_the_installation() {
    let cases = [
        ("cmd /c ver", failed("x"), "ver: x"),
        ("LocateResources", failed("x"), "resource_dir: x"),
        (
            "probe Resources/embedded/install-silent.ps1",
            Event::Missing { display: "d".to_string(), debug: "q".to_string() },
            "install-silent.ps1 no encontrado en q",
        ),
        ("install-silent.ps1>", exited(9, ""), "install-silent.ps1 fallo con codigo 9. Detalles en P"),
        (
            "releases/latest",
            exited(22, ""),
            "No se pudo consultar releases de GitHub (codigo 22).",
        ),
        ("/S", exited(2, ""), "Admin installer termino con codigo 2"),
        ("sc create", exited(5, ""), "sc create fallo con codigo 5"),
    ];
    for (wanted, instead, message) in cases {
        let (log, percents, result) = drive(Platform::Windows, Some((wanted, instead)));
        assert_eq!(result, Err(message.to_string()));
        assert!(!percents.is_empty());
        assert!([2, 8, 15, 40, 70, 80, 85, 90, 94, 100].starts_with(&percents));
        assert!(!log.contains(&"Announce".to_string()));
    }
}

#[test]
fn restart_that_the_silent_installer_asks_for_is_prepared() {
    let (log, percents, result) =
        drive(Platform::Windows, Some(("install-silent.ps1>", exited(3, ""))));
    assert_eq!(result, Err("__REBOOT_REQUIRED__".to_string()));
    assert_eq!(percents, [2, 8, 15, 40]);
    assert_eq!(
        log.last().unwrap(),
        "reg add HKLM\\Software\\Microsoft\\Windows\\CurrentVersion\\RunOnce /v OctoPOSBootstrapResume /t REG_SZ /d <CurrentExe/> /f"
    );
    assert!(position(&log, "install-silent.ps1>") < position(&log, "LocateSelf"));
    assert!(!log.iter().any(|line| line.contains("shutdown")));
}

#[test]
fn restart_is_not_asked_for_unprepared() {
    let cases = [
        (RunOnceStage::Located, failed("lost"), "current_exe: lost"),
        (RunOnceStage::Registered, failed("no reg"), "reg add: no reg"),
        (RunOnceStage::Registered, exited(1, ""), "RunOnce registration fallo con codigo 1"),
    ];
    for (at, event, message) in cases {
        let mut memory = InstallMemory::new();
        let stage = InstallStage::ResumingLater { at };
        match run_install(Platform::Windows, true, stage, &mut memory, &event) {
            Turn::Finish { result } => assert_eq!(result, Err(message.to_string())),
            other => panic!("went on: {:?}", other),
        }
    }
}

#[test]
fn failed_restart_is_an_error() {
    let mut memory = InstallMemory::new();
    match run_install(Platform::Windows, true, InstallStage::Restarting, &mut memory, &failed("x")) {
        Turn::Finish { result } => assert_eq!(result, Err("shutdown: x".to_string())),
        other => panic!("went on: {:?}", other),
    }
}

#[test]
fn autostart_may_fail() {
    for instead in [failed("x"), exited(1, "")] {
        let (log, percents, result) =
            drive(Platform::Windows, Some(("schtasks /create", instead)));
        assert_eq!(result, Ok(()));
        assert_eq!(percents.last(), Some(&100));
        assert_eq!(log.last().unwrap(), "Announce");
    }
}

#[test]
fn other_systems_are_left_alone() {
    let (log, percents, result) = drive(Platform::Other, None);
    assert_eq!(log, ["0 Solo Windows soportado."]);
    assert_eq!(percents, [0]);
    assert_eq!(result, Err("This bootstrapper only runs on Windows.".to_string()));
}

#[test]
fn secret_in_the_file_is_the_one_in_the_registry() {
    let (log, _, _) = drive(Platform::Windows, None);
    let registry = &log[position(&log, "UpdaterSecret")];
    let secret = registry.split(" /d ").nth(1).unwrap().trim_end_matches(" /f").to_string();
    assert_eq!(secret.len(), 64);
    let written = &log[position(&log, "updater-secret")];
    assert!(written.contains(&format!("contents: {:?}", secret)));
}

#[test]
fn given_secret_is_remembered() {
    let mut memory = InstallMemory::new();
    let stage = InstallStage::Updater { at: ServiceStage::Copied };
    let drawn = Ok("s3cret".to_string());
    let turn = install_step(Platform::Windows, true, stage, &mut memory, drawn, &Event::Done);
    assert_eq!(memory.secret, "s3cret");
    match turn {
        Turn::Ask { action: Action::Run { command, .. }, .. } => {
            assert!(show_command(&command).contains("/d s3cret /f"))
        }
        other => panic!("no command: {:?}", other),
    }
    let drawn = Err("getrandom: none".to_string());
    match install_step(Platform::Windows, true, stage, &mut memory, drawn, &Event::Done) {
        Turn::Finish { result } => assert_eq!(result, Err("getrandom: none".to_string())),
        other => panic!("went on: {:?}", other),
    }
}

#[test]
fn step_is_begun_once_it_was_reported() {
    let mut memory = InstallMemory::new();
    let stage = InstallStage::Reported { step: Step::Check };
    match run_install(Platform::Windows, true, stage, &mut memory, &Event::Done) {
        Turn::Ask { action: Action::Run { command, .. }, stage } => {
            assert_eq!(show_command(&command), "cmd /c ver");
            assert_eq!(stage, InstallStage::Checking);
        }
        other => panic!("no command: {:?}", other),
    }
}
