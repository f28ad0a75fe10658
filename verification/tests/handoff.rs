use octopos_bootstrapper::cleanup::{
    finalize_install, schedule_command, schedule_self_uninstall, FinalizeStage, ScheduleStage,
    CLEANUP_SCRIPT,
};
use octopos_bootstrapper::effect::{Action, CommandLine, Event, Place, Platform, RunMode, Turn, Word};
use octopos_bootstrapper::handoff::{
    admin_exe_path, launch_admin, open_setup_log, program_files_dir, relaunch_as_admin, startup,
    AdminExe, LaunchStage, OpenLogStage, RelaunchStage, Startup,
};

fn exited(code: Option<i32>) -> Event {
    Event::Exited { code, stdout: Vec::new() }
}

fn failed(error: &str) -> Event {
    Event::Failed { error: error.to_string() }
}

fn missing(display: &str) -> Event {
    Event::Missing { display: display.to_string(), debug: format!("{:?}", display) }
}

fn rendered(text: &str) -> Event {
    Event::Rendered { text: text.to_string() }
}

fn show_place(place: &Place) -> String {
    format!("{:?}/{}", place.root, place.tail.join("/"))
}

fn show_command(command: &CommandLine) -> String {
    let mut all = Vec::new();
    for word in std::iter::once(&command.program).chain(command.args.iter()) {
        all.push(match word {
            Word::Text(text) => text.clone(),
            Word::Path(place) => format!("<{}>", show_place(place)),
            Word::Native(place) => format!("({})", show_place(place)),
        });
    }
    all.join(" ")
}

fn asked<S: std::fmt::Debug>(turn: Turn<S, ()>) -> (Action, S) {
    match turn {
        Turn::Ask { action, stage } => (action, stage),
        other => panic!("ended: {:?}", other),
    }
}

fn ended<S: std::fmt::Debug>(turn: Turn<S, ()>) -> Result<(), String> {
    match turn {
        Turn::Finish { result } => result,
        other => panic!("went on: {:?}", other),
    }
}

fn run(action: &Action) -> (String, RunMode) {
    match action {
        Action::Run { command, mode } => (show_command(command), *mode),
        other => panic!("no command: {:?}", other),
    }
}

fn probe(action: &Action) -> String {
    match action {
        Action::Probe { place } => show_place(place),
        other => panic!("no probe: {:?}", other),
    }
}

#[test]
fn window_opens_with_rights_only() {
    assert_eq!(startup(Platform::Windows, &exited(Some(0))), Startup::Window);
    assert_eq!(startup(Platform::Windows, &exited(Some(2))), Startup::Relaunch);
    assert_eq!(startup(Platform::Windows, &failed("no net")), Startup::Relaunch);
    assert_eq!(startup(Platform::Other, &Event::Begin), Startup::Window);
}

#[test]
fn relaunch_quotes_the_path() {
    let (action, stage) = asked(relaunch_as_admin(RelaunchStage::Begin, &Event::Begin));
    assert!(matches!(action, Action::LocateSelf));
    let (action, next) = asked(relaunch_as_admin(stage, &rendered("C:\\O'Brien\\s.exe")));
    assert_eq!(
        run(&action),
        (
            "powershell -NoProfile -Command Start-Process -FilePath 'C:\\O''Brien\\s.exe' -Verb RunAs"
                .to_string(),
            RunMode::Spawn
        )
    );
    assert_eq!(ended(relaunch_as_admin(next, &Event::Done)), Ok(()));
    assert_eq!(
        ended(relaunch_as_admin(stage, &failed("x"))),
        Err("current_exe: x".to_string())
    );
    assert_eq!(
        ended(relaunch_as_admin(next, &failed("x"))),
        Err("spawn elevated child: x".to_string())
    );
}

#[test]
fn program_files_have_a_default() {
    assert_eq!(program_files_dir(None), "C:\\Program Files");
    assert_eq!(program_files_dir(Some("D:\\Apps".to_string())), "D:\\Apps");
    assert_eq!(program_files_dir(Some(String::new())), "");
}

#[test]
fn log_is_opened_in_an_editor() {
    let w = Platform::Windows;
    let (action, stage) = asked(open_setup_log(w, OpenLogStage::Begin, true, &Event::Begin));
    assert_eq!(probe(&action), "ProgramData/OctoPOS/setup.log");
    let (action, next) = asked(open_setup_log(w, stage, true, &Event::Found));
    assert_eq!(
        run(&action),
        ("notepad (ProgramData/OctoPOS/setup.log)".to_string(), RunMode::Spawn)
    );
    assert_eq!(ended(open_setup_log(w, next, true, &Event::Done)), Ok(()));
    assert_eq!(
        ended(open_setup_log(w, stage, true, &missing("C:\\l"))),
        Err("C:\\l no existe (todavia).".to_string())
    );
    assert_eq!(ended(open_setup_log(w, next, true, &failed("x"))), Err("notepad: x".to_string()));
    assert_eq!(
        ended(open_setup_log(Platform::Other, OpenLogStage::Begin, true, &Event::Begin)),
        Err("Solo Windows.".to_string())
    );
}

#[test]
fn first_name_of_the_admin_wins() {
    assert_eq!(admin_exe_path(true, true), AdminExe::Current);
    assert_eq!(admin_exe_path(true, false), AdminExe::Current);
    assert_eq!(admin_exe_path(false, true), AdminExe::Legacy);
    assert_eq!(admin_exe_path(false, false), AdminExe::Current);
}

/// Starts the admin where files of these names are there.
fn launch(current: bool, legacy: bool, spawned: Event) -> (Vec<String>, Result<(), String>) {
    let mut stage = LaunchStage::Begin;
    let mut event = Event::Begin;
    let mut log = Vec::new();
    loop {
        match launch_admin(stage, &event) {
            Turn::Finish { result } => return (log, result),
            Turn::Ask { action, stage: next } => {
                if let Action::Run { .. } = action {
                    let (text, mode) = run(&action);
                    assert_eq!(mode, RunMode::Spawn);
                    log.push(text);
                    let error = match &spawned {
                        Event::Failed { error } => Some(error.clone()),
                        _ => None,
                    };
                    event = match error {
                        Some(error) => Event::Failed { error },
                        None => Event::Done,
                    };
                } else {
                    let place = probe(&action);
                    let there = if place.ends_with("octopos-admin.exe") { current } else { legacy };
                    event = if there { Event::Found } else { missing(&place) };
                }
                assert!(event.answers(action.awaited()));
                stage = next;
            }
        }
    }
}

#[test]
fn admin_is_started_under_the_name_that_is_there() {
    assert_eq!(
        launch(true, true, Event::Done),
        (vec!["<ProgramFiles/OctoPOS Admin/octopos-admin.exe>".to_string()], Ok(()))
    );
    assert_eq!(
        launch(false, true, Event::Done),
        (vec!["<ProgramFiles/OctoPOS Admin/OctoPOS Admin.exe>".to_string()], Ok(()))
    );
    assert_eq!(
        launch(false, false, Event::Done),
        (
            Vec::new(),
            Err("El admin no se encontro en ProgramFiles/OctoPOS Admin/octopos-admin.exe. La instalacion del .msi quizas fallo en silencio.".to_string())
        )
    );
    assert_eq!(
        launch(true, false, failed("denied")).1,
        Err("no pude lanzar el admin: denied".to_string())
    );
}

#[test]
fn admin_that_vanishes_is_not_started() {
    let stage = LaunchStage::Settled { exe: AdminExe::Legacy };
    assert_eq!(
        ended(launch_admin(stage, &missing("P"))),
        Err("El admin no se encontro en P. La instalacion del .msi quizas fallo en silencio.".to_string())
    );
}

#[test]
fn cleanup_script_waits_and_removes() {
    assert!(CLEANUP_SCRIPT.starts_with("$ErrorActionPreference = 'Continue'\n"));
    assert!(CLEANUP_SCRIPT.contains("Bootstrapper still alive after 60s — bailing"));
    assert!(CLEANUP_SCRIPT.contains("schtasks /delete /tn 'OctoPOSSetupCleanup' /f *> $null\n"));
    assert!(CLEANUP_SCRIPT.ends_with("L \"=== cleanup ps1 done ===\"\n"));
    assert_eq!(CLEANUP_SCRIPT.lines().count(), 48);
}

#[test]
fn task_is_registered_with_both_paths() {
    assert_eq!(
        schedule_command("C:\\it's.ps1", "C:\\m.txt"),
        "$ErrorActionPreference = 'Stop'; \
         $argLine = '-NoProfile -WindowStyle Hidden -ExecutionPolicy Bypass -File \"' + 'C:\\it''s.ps1' + '\"'; \
         $action = New-ScheduledTaskAction -Execute 'powershell.exe' -Argument $argLine; \
         $trigger = New-ScheduledTaskTrigger -Once -At ((Get-Date).AddSeconds(45)); \
         $principal = New-ScheduledTaskPrincipal -UserId 'SYSTEM' -LogonType ServiceAccount -RunLevel Highest; \
         $settings = New-ScheduledTaskSettingsSet -AllowStartIfOnBatteries -DontStopIfGoingOnBatteries -StartWhenAvailable -DeleteExpiredTaskAfter ([TimeSpan]::FromMinutes(5)); \
         Register-ScheduledTask -TaskName 'OctoPOSSetupCleanup' -Action $action -Trigger $trigger -Principal $principal -Settings $settings -Force | Out-Null; \
         Set-Content -LiteralPath 'C:\\m.txt' -Value ('scheduled at ' + [DateTime]::UtcNow.ToString('o'))"
    );
}

#[test]
fn removal_is_left_to_the_system() {
    let mut script = String::new();
    let (action, stage) =
        asked(schedule_self_uninstall(ScheduleStage::Begin, &mut script, &Event::Begin));
    match action {
        Action::Create { place } => {
            assert_eq!(show_place(&place), "Temp/octopos-setup-cleanup.ps1")
        }
        other => panic!("nothing created: {:?}", other),
    }
    let (action, stage) = asked(schedule_self_uninstall(stage, &mut script, &Event::Done));
    match action {
        Action::Fill { contents } => assert_eq!(contents, CLEANUP_SCRIPT),
        other => panic!("nothing written: {:?}", other),
    }
    let (action, stage) = asked(schedule_self_uninstall(stage, &mut script, &Event::Done));
    match action {
        Action::Render { place } => {
            assert_eq!(show_place(&place), "Temp/octopos-setup-cleanup.ps1")
        }
        other => panic!("nothing rendered: {:?}", other),
    }
    let (action, stage) = asked(schedule_self_uninstall(stage, &mut script, &rendered("S")));
    match action {
        Action::Render { place } => {
            assert_eq!(show_place(&place), "Temp/octopos-cleanup-scheduled.txt")
        }
        other => panic!("nothing rendered: {:?}", other),
    }
    assert_eq!(script, "S");
    let (action, stage) = asked(schedule_self_uninstall(stage, &mut script, &rendered("M")));
    assert_eq!(
        run(&action),
        (
            format!("powershell -NoProfile -Command {}", schedule_command("S", "M")),
            RunMode::Quiet
        )
    );
    assert_eq!(ended(schedule_self_uninstall(stage, &mut script, &exited(Some(0)))), Ok(()));
}

#[test]
fn failures_of_the_removal() {
    let cases = [
        (ScheduleStage::Created, failed("x"), "create cleanup ps1: x"),
        (ScheduleStage::Written, failed("x"), "write cleanup ps1: x"),
        (ScheduleStage::Registered, failed("x"), "schedule task: x"),
        (ScheduleStage::Registered, exited(Some(1)), "Register-ScheduledTask exited with code 1"),
        (ScheduleStage::Registered, exited(None), "Register-ScheduledTask exited with code -1"),
    ];
    for (stage, event, message) in cases {
        let mut script = String::new();
        assert_eq!(
            ended(schedule_self_uninstall(stage, &mut script, &event)),
            Err(message.to_string())
        );
    }
}

/// Ends the program, with everything going well or badly on the way.
fn finalize(platform: Platform, well: bool) -> (Vec<String>, Result<(), String>) {
    let mut stage = FinalizeStage::Begin;
    let mut event = Event::Begin;
    let mut script = String::new();
    let mut log = Vec::new();
    loop {
        match finalize_install(platform, stage, &mut script, &event) {
            Turn::Finish { result } => return (log, result),
            Turn::Ask { action, stage: next } => {
                let (name, answer) = match &action {
                    Action::Probe { .. } => {
                        ("probe", if well { Event::Found } else { missing("x") })
                    }
                    Action::Run { mode: RunMode::Spawn, .. } => ("spawn", Event::Done),
                    Action::Run { .. } => {
                        ("run", if well { exited(Some(0)) } else { exited(Some(1)) })
                    }
                    Action::Create { .. } => {
                        ("create", if well { Event::Done } else { failed("x") })
                    }
                    Action::Fill { .. } => ("fill", Event::Done),
                    Action::Render { .. } => ("render", rendered("p")),
                    Action::Exit { code } => {
                        assert_eq!(*code, 0);
                        ("exit", Event::Done)
                    }
                    other => panic!("unexpected: {:?}", other),
                };
                log.push(name.to_string());
                assert!(answer.answers(action.awaited()));
                event = answer;
                stage = next;
            }
        }
    }
}

#[test]
fn program_ends_after_the_admin_was_started() {
    assert_eq!(
        finalize(Platform::Windows, true),
        (
            ["probe", "probe", "spawn", "create", "fill", "render", "render", "run", "exit"]
                .map(|s| s.to_string())
                .to_vec(),
            Ok(())
        )
    );
}

#[test]
fn program_ends_whatever_goes_wrong() {
    assert_eq!(
        finalize(Platform::Windows, false),
        (["probe", "probe", "probe", "create", "exit"].map(|s| s.to_string()).to_vec(), Ok(()))
    );
    assert_eq!(finalize(Platform::Other, true), (vec!["exit".to_string()], Ok(())));
}
