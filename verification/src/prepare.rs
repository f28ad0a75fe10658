//! The steps before the admin: the Linux subsystem, the restart it may take,
//! the silent installer, and the wait for the server.
use vstd::prelude::*;
use vstd::string::*;
use vstd::utf8::*;

use crate::effect::{
    Action, ActionView, Awaited, CommandLine, CommandView, Event, EventView, Place, PlaceView,
    Root, RunMode, Turn, TurnView, Word, WordView, below, below2, code_message, failure, place,
    place2, plain, plain_command, text_words, words,
};
use crate::number::decimal_signed;
use crate::text::{contains_text, from_utf8_lossy, has_text, law_contains_text, lossy_text};

verus! {

// The Linux subsystem.

/// How far the check of the Linux subsystem has come.
#[derive(Debug, Clone, Copy, PartialEq, Eq, Structural)]
pub enum WslStage {
    /// Nothing was asked yet.
    Begin,
    /// Its program is being looked for.
    Searched,
    /// It is being installed.
    Installed,
}

impl WslStage {
    /// The events that can come in this stage.
    pub open spec fn awaits(self) -> Awaited {
        match self {
            WslStage::Begin => Awaited::Begin,
            _ => Awaited::Reply,
        }
    }
}

/// The step that follows an event. The result says whether a restart is due.
pub open spec fn wsl_next(stage: WslStage, event: EventView) -> TurnView<WslStage, bool> {
    match (stage, event) {
        (WslStage::Begin, _) => TurnView::Ask {
            action: ActionView::Run {
                command: plain("where"@, seq!["wsl"@]),
                mode: RunMode::Status,
            },
            stage: WslStage::Searched,
        },
        (WslStage::Searched, _) => if event.succeeded() {
            TurnView::Finish { result: Ok(false) }
        } else {
            TurnView::Ask {
                action: ActionView::Run {
                    command: plain("wsl"@, seq!["--install"@, "--no-distribution"@]),
                    mode: RunMode::Stream,
                },
                stage: WslStage::Installed,
            }
        },
        (WslStage::Installed, EventView::Failed { error }) => TurnView::Finish {
            result: Err(error),
        },
        (WslStage::Installed, _) => if event.succeeded() {
            TurnView::Finish { result: Ok(true) }
        } else {
            TurnView::Finish {
                result: Err(
                    "wsl --install fallo con codigo "@ + decimal_signed(event.shown_code()),
                ),
            }
        },
    }
}

/// Installs the Linux subsystem where it is missing, after which Windows has
/// to restart.
pub fn ensure_wsl(stage: WslStage, event: &Event) -> (turn: Turn<WslStage, bool>)
    requires
        event@.answers(stage.awaits()),
    ensures
        turn@ == wsl_next(stage, event@),
        turn@ matches TurnView::Ask { action, stage: next } ==> action.awaited() == next.awaits(),
{
    match (stage, event) {
        (WslStage::Begin, _) => {
            let command = plain_command("where", &["wsl"]);
            assert(command@.args =~= words(seq!["wsl"@]));
            Turn::Ask {
                action: Action::Run { command, mode: RunMode::Status },
                stage: WslStage::Searched,
            }
        },
        (WslStage::Searched, _) => {
            if event.succeeded() {
                return Turn::Finish { result: Ok(false) };
            }
            let command = plain_command("wsl", &["--install", "--no-distribution"]);
            assert(command@.args =~= words(seq!["--install"@, "--no-distribution"@]));
            Turn::Ask {
                action: Action::Run { command, mode: RunMode::Stream },
                stage: WslStage::Installed,
            }
        },
        (WslStage::Installed, Event::Failed { error }) => Turn::Finish {
            result: Err(error.clone()),
        },
        (WslStage::Installed, _) => {
            if event.succeeded() {
                Turn::Finish { result: Ok(true) }
            } else {
                Turn::Finish {
                    result: Err(
                        code_message("wsl --install fallo con codigo ", event.shown_code()),
                    ),
                }
            }
        },
    }
}

/// A restart is due where, and only where, the subsystem was missing and its
/// installation succeeded.
pub proof fn law_restart_is_due_after_install(stage: WslStage, event: EventView)
    requires
        event.answers(stage.awaits()),
    ensures
        wsl_next(stage, event) == (TurnView::Finish::<WslStage, bool> { result: Ok(true) })
            <==> stage is Installed && event.succeeded(),
        wsl_next(stage, event) == (TurnView::Finish::<WslStage, bool> { result: Ok(false) })
            <==> stage is Searched && event.succeeded(),
{
}

// Going on after the restart.

/// How far the registration for the next start of Windows has come.
#[derive(Debug, Clone, Copy, PartialEq, Eq, Structural)]
pub enum RunOnceStage {
    /// Nothing was asked yet.
    Begin,
    /// The file of this process was asked for.
    Located,
    /// The registry is being written.
    Registered,
}

impl RunOnceStage {
    /// The events that can come in this stage.
    pub open spec fn awaits(self) -> Awaited {
        match self {
            RunOnceStage::Begin => Awaited::Begin,
            RunOnceStage::Located => Awaited::Location,
            RunOnceStage::Registered => Awaited::Reply,
        }
    }
}

/// The words of the command before the path of this program.
pub open spec fn run_once_words() -> Seq<Seq<char>> {
    seq![
        "add"@,
        "HKLM\\Software\\Microsoft\\Windows\\CurrentVersion\\RunOnce"@,
        "/v"@,
        "OctoPOSBootstrapResume"@,
        "/t"@,
        "REG_SZ"@,
        "/d"@,
    ]
}

/// The command that has Windows start this program again, once.
pub open spec fn run_once_command() -> CommandView {
    CommandView {
        program: WordView::Text("reg"@),
        args: words(run_once_words()).push(WordView::Path(PlaceView { root: Root::CurrentExe, tail: Seq::empty() })).push(
            WordView::Text("/f"@),
        ),
        env: Seq::empty(),
    }
}

/// The step that follows an event.
pub open spec fn run_once_next(stage: RunOnceStage, event: EventView) -> TurnView<
    RunOnceStage,
    (),
> {
    match (stage, event) {
        (RunOnceStage::Begin, _) => TurnView::Ask {
            action: ActionView::LocateSelf,
            stage: RunOnceStage::Located,
        },
        (RunOnceStage::Located, EventView::Failed { error }) => TurnView::Finish {
            result: Err("current_exe: "@ + error),
        },
        (RunOnceStage::Located, _) => TurnView::Ask {
            action: ActionView::Run { command: run_once_command(), mode: RunMode::Status },
            stage: RunOnceStage::Registered,
        },
        (RunOnceStage::Registered, EventView::Failed { error }) => TurnView::Finish {
            result: Err("reg add: "@ + error),
        },
        (RunOnceStage::Registered, _) => if event.succeeded() {
            TurnView::Finish { result: Ok(()) }
        } else {
            TurnView::Finish {
                result: Err(
                    "RunOnce registration fallo con codigo "@ + decimal_signed(event.shown_code()),
                ),
            }
        },
    }
}

fn run_once() -> (command: CommandLine)
    ensures
        command@ == run_once_command(),
{
    let mut args = text_words(
        &[
            "add",
            "HKLM\\Software\\Microsoft\\Windows\\CurrentVersion\\RunOnce",
            "/v",
            "OctoPOSBootstrapResume",
            "/t",
            "REG_SZ",
            "/d",
        ],
    );
    assert(args@.map_values(|w: Word| w@) =~= words(run_once_words()));
    let this = Place { root: Root::CurrentExe, tail: Vec::new() };
    assert(this@.tail =~= Seq::empty());
    args.push(Word::Path(this));
    args.push(Word::Text("/f".to_string()));
    let command = CommandLine { program: Word::Text("reg".to_string()), args, env: Vec::new() };
    assert(command@.args =~= run_once_command().args);
    assert(command@.env =~= Seq::empty());
    command
}

/// Has Windows start this program again after the restart.
pub fn register_runonce(stage: RunOnceStage, event: &Event) -> (turn: Turn<RunOnceStage, ()>)
    requires
        event@.answers(stage.awaits()),
    ensures
        turn@ == run_once_next(stage, event@),
        turn@ matches TurnView::Ask { action, stage: next } ==> action.awaited() == next.awaits(),
{
    match (stage, event) {
        (RunOnceStage::Begin, _) => Turn::Ask {
            action: Action::LocateSelf,
            stage: RunOnceStage::Located,
        },
        (RunOnceStage::Located, Event::Failed { error }) => Turn::Finish {
            result: Err(failure("current_exe: ", error.as_str())),
        },
        (RunOnceStage::Located, _) => Turn::Ask {
            action: Action::Run { command: run_once(), mode: RunMode::Status },
            stage: RunOnceStage::Registered,
        },
        (RunOnceStage::Registered, Event::Failed { error }) => Turn::Finish {
            result: Err(failure("reg add: ", error.as_str())),
        },
        (RunOnceStage::Registered, _) => {
            if event.succeeded() {
                Turn::Finish { result: Ok(()) }
            } else {
                Turn::Finish {
                    result: Err(
                        code_message("RunOnce registration fallo con codigo ", event.shown_code()),
                    ),
                }
            }
        },
    }
}

// The silent installer.

/// The log of the installation, which support asks for. `program_data` says
/// whether the environment names the directory for it.
pub open spec fn setup_log(program_data: bool) -> PlaceView {
    if program_data {
        below2(Root::ProgramData, "OctoPOS"@, "setup.log"@)
    } else {
        below(Root::Literal, "C:\\ProgramData\\OctoPOS\\setup.log"@)
    }
}

/// Makes the path of the log.
pub fn setup_log_path(program_data: bool) -> (log: Place)
    ensures
        log@ == setup_log(program_data),
{
    if program_data {
        place2(Root::ProgramData, "OctoPOS", "setup.log")
    } else {
        place(Root::Literal, "C:\\ProgramData\\OctoPOS\\setup.log")
    }
}

/// The exit code with which the script asks for a restart of Windows.
pub const RESTART_CODE: i32 = 3;

/// What the window is told to have the user restart Windows.
pub const RESTART_REQUEST: &'static str = "__REBOOT_REQUIRED__";

/// How far the silent installer has come.
#[derive(Debug, Clone, Copy, PartialEq, Eq, Structural)]
pub enum SilentStage {
    /// Nothing was asked yet.
    Begin,
    /// The script is being looked for.
    Searched,
    /// The script is running.
    Ran,
    /// It ended badly, with this code, and the log's path was asked for.
    Explained { code: Option<i32> },
}

impl SilentStage {
    /// The events that can come in this stage.
    pub open spec fn awaits(self) -> Awaited {
        match self {
            SilentStage::Begin => Awaited::Begin,
            SilentStage::Searched => Awaited::Presence,
            SilentStage::Ran => Awaited::Reply,
            SilentStage::Explained { .. } => Awaited::Text,
        }
    }
}

/// The script that installs the dependencies.
pub open spec fn silent_script() -> PlaceView {
    below2(Root::Resources, "embedded"@, "install-silent.ps1"@)
}

/// The command that runs the script, with the address of the platform in its
/// environment.
pub open spec fn silent_command() -> CommandView {
    CommandView {
        program: WordView::Text("powershell"@),
        args: words(seq!["-NoProfile"@, "-ExecutionPolicy"@, "Bypass"@, "-File"@]).push(
            WordView::Path(silent_script()),
        ),
        env: seq![("OCTOPOS_PLATFORM_URL"@, "https://platform.octo-pos.net"@)],
    }
}

/// The message for a script that ended badly.
pub open spec fn silent_failure(code: Option<i32>, log: Seq<char>) -> Seq<char> {
    match code {
        Some(c) => "install-silent.ps1 fallo con codigo "@ + decimal_signed(c as int)
            + ". Detalles en "@ + log,
        None => "install-silent.ps1 termino sin codigo de salida. Detalles en "@ + log,
    }
}

/// The step that follows an event.
pub open spec fn silent_next(stage: SilentStage, program_data: bool, event: EventView) -> TurnView<
    SilentStage,
    (),
> {
    match (stage, event) {
        (SilentStage::Begin, _) => TurnView::Ask {
            action: ActionView::Probe { place: silent_script() },
            stage: SilentStage::Searched,
        },
        (SilentStage::Searched, EventView::Missing { debug, .. }) => TurnView::Finish {
            result: Err("install-silent.ps1 no encontrado en "@ + debug),
        },
        (SilentStage::Searched, _) => TurnView::Ask {
            action: ActionView::Run { command: silent_command(), mode: RunMode::Stream },
            stage: SilentStage::Ran,
        },
        (SilentStage::Ran, EventView::Failed { error }) => TurnView::Finish { result: Err(error) },
        (SilentStage::Ran, EventView::Exited { code, .. }) => if code == Some(0i32) {
            TurnView::Finish { result: Ok(()) }
        } else if code == Some(RESTART_CODE) {
            TurnView::Finish { result: Err(RESTART_REQUEST@) }
        } else {
            TurnView::Ask {
                action: ActionView::Render { place: setup_log(program_data) },
                stage: SilentStage::Explained { code },
            }
        },
        (SilentStage::Explained { code }, EventView::Rendered { text }) => TurnView::Finish {
            result: Err(silent_failure(code, text)),
        },
        _ => TurnView::Finish { result: Ok(()) },
    }
}

fn silent_script_run() -> (command: CommandLine)
    ensures
        command@ == silent_command(),
{
    let mut args = text_words(&["-NoProfile", "-ExecutionPolicy", "Bypass", "-File"]);
    assert(args@.map_values(|w: Word| w@) =~= words(
        seq!["-NoProfile"@, "-ExecutionPolicy"@, "Bypass"@, "-File"@],
    ));
    args.push(Word::Path(place2(Root::Resources, "embedded", "install-silent.ps1")));
    let mut env: Vec<(String, String)> = Vec::new();
    env.push(
        ("OCTOPOS_PLATFORM_URL".to_string(), "https://platform.octo-pos.net".to_string()),
    );
    let command = CommandLine { program: Word::Text("powershell".to_string()), args, env };
    assert(command@.args =~= silent_command().args);
    assert(command@.env =~= silent_command().env);
    command
}

fn explain_failure(code: Option<i32>, log: &str) -> (message: String)
    ensures
        message@ == silent_failure(code, log@),
{
    match code {
        Some(c) => {
            let mut message = code_message("install-silent.ps1 fallo con codigo ", c);
            message.append(". Detalles en ");
            message.append(log);
            message
        },
        None => failure("install-silent.ps1 termino sin codigo de salida. Detalles en ", log),
    }
}

/// Runs the script that installs the dependencies.
pub fn run_silent_installer(stage: SilentStage, program_data: bool, event: &Event) -> (turn: Turn<
    SilentStage,
    (),
>)
    requires
        event@.answers(stage.awaits()),
    ensures
        turn@ == silent_next(stage, program_data, event@),
        turn@ matches TurnView::Ask { action, stage: next } ==> action.awaited() == next.awaits(),
{
    match (stage, event) {
        (SilentStage::Begin, _) => Turn::Ask {
            action: Action::Probe {
                place: place2(Root::Resources, "embedded", "install-silent.ps1"),
            },
            stage: SilentStage::Searched,
        },
        (SilentStage::Searched, Event::Missing { debug, .. }) => Turn::Finish {
            result: Err(failure("install-silent.ps1 no encontrado en ", debug.as_str())),
        },
        (SilentStage::Searched, _) => Turn::Ask {
            action: Action::Run { command: silent_script_run(), mode: RunMode::Stream },
            stage: SilentStage::Ran,
        },
        (SilentStage::Ran, Event::Failed { error }) => Turn::Finish { result: Err(error.clone()) },
        (SilentStage::Ran, Event::Exited { code, .. }) => match code {
            Some(0) => Turn::Finish { result: Ok(()) },
            Some(3) => Turn::Finish { result: Err(RESTART_REQUEST.to_string()) },
            _ => Turn::Ask {
                action: Action::Render { place: setup_log_path(program_data) },
                stage: SilentStage::Explained { code: *code },
            },
        },
        (SilentStage::Explained { code }, Event::Rendered { text }) => Turn::Finish {
            result: Err(explain_failure(code, text.as_str())),
        },
        _ => Turn::Finish { result: Ok(()) },
    }
}

/// Whether an event tells that the script ended and asks for a restart.
pub open spec fn asks_restart(stage: SilentStage, event: EventView) -> bool {
    stage is Ran && (event matches EventView::Exited { code, .. } && code == Some(RESTART_CODE))
}

/// Tells whether the script ended and asks for a restart.
pub fn wants_restart(stage: SilentStage, event: &Event) -> (yes: bool)
    ensures
        yes == asks_restart(stage, event@),
{
    match (stage, event) {
        (SilentStage::Ran, Event::Exited { code: Some(code), .. }) => *code == RESTART_CODE,
        _ => false,
    }
}

// The server.

/// How long the server may take to answer, in nanoseconds.
pub const HEALTH_LIMIT: u64 = 180_000_000_000;

/// How far the wait for the server has come. The stages of the loop keep the
/// time at which it began.
#[derive(Debug, Clone, Copy, PartialEq, Eq, Structural)]
pub enum HealthStage {
    /// Nothing was asked yet.
    Begin,
    /// The time was asked for, to begin the loop.
    Started,
    /// The time was asked for, to see whether it is up.
    Timed { start: u64 },
    /// The server was asked.
    Asked { start: u64 },
    /// A pause is being made.
    Paused { start: u64 },
    /// The server has answered, and that was reported.
    Ready,
}

impl HealthStage {
    /// The events that can come in this stage.
    pub open spec fn awaits(self) -> Awaited {
        match self {
            HealthStage::Begin => Awaited::Begin,
            HealthStage::Started => Awaited::Clock,
            HealthStage::Timed { .. } => Awaited::Clock,
            HealthStage::Asked { .. } => Awaited::Reply,
            HealthStage::Paused { .. } => Awaited::Completion,
            HealthStage::Ready => Awaited::Completion,
        }
    }
}

/// Whether a reply shows that the server is up.
pub open spec fn is_healthy(reply: EventView) -> bool {
    reply matches EventView::Exited { stdout, .. } && contains_text(
        lossy_text(stdout),
        "\"ok\":true"@,
    )
}

/// The step that follows an event.
pub open spec fn health_next(stage: HealthStage, event: EventView) -> TurnView<HealthStage, ()> {
    match (stage, event) {
        (HealthStage::Begin, _) => TurnView::Ask {
            action: ActionView::ReadClock,
            stage: HealthStage::Started,
        },
        (HealthStage::Started, EventView::Clock { now }) => TurnView::Ask {
            action: ActionView::ReadClock,
            stage: HealthStage::Timed { start: now },
        },
        (HealthStage::Timed { start }, EventView::Clock { now }) => if now < start + HEALTH_LIMIT {
            TurnView::Ask {
                action: ActionView::Run {
                    command: plain("curl"@, seq!["-fsS"@, "http://localhost:3000/"@]),
                    mode: RunMode::Output,
                },
                stage: HealthStage::Asked { start },
            }
        } else {
            TurnView::Finish { result: Err("El servidor API no respondio dentro de 3 minutos."@) }
        },
        (HealthStage::Asked { start }, _) => if is_healthy(event) {
            TurnView::Ask {
                action: ActionView::Report { percent: 80, message: "Servidor listo"@ },
                stage: HealthStage::Ready,
            }
        } else {
            TurnView::Ask {
                action: ActionView::Pause { millis: 2000 },
                stage: HealthStage::Paused { start },
            }
        },
        (HealthStage::Paused { start }, _) => TurnView::Ask {
            action: ActionView::ReadClock,
            stage: HealthStage::Timed { start },
        },
        _ => TurnView::Finish { result: Ok(()) },
    }
}

/// Tells whether what the server answered shows that it is up.
pub fn body_is_healthy(body: &str) -> (yes: bool)
    ensures
        yes == contains_text(body@, "\"ok\":true"@),
{
    has_text(body, "\"ok\":true")
}

fn reply_is_healthy(reply: &Event) -> (yes: bool)
    ensures
        yes == is_healthy(reply@),
        reply@ matches EventView::Exited { stdout, .. } ==> (valid_utf8(stdout) ==> yes
            == contains_text(decode_utf8(stdout), "\"ok\":true"@)),
{
    match reply {
        Event::Exited { stdout, .. } => {
            let body = from_utf8_lossy(stdout.as_slice());
            body_is_healthy(body.as_str())
        },
        _ => false,
    }
}

/// Asks the server every two seconds whether it is up, for three minutes.
pub fn wait_for_api_health(stage: HealthStage, event: &Event) -> (turn: Turn<HealthStage, ()>)
    requires
        event@.answers(stage.awaits()),
    ensures
        turn@ == health_next(stage, event@),
        stage is Asked ==> (event@ matches EventView::Exited { stdout, .. } ==> (valid_utf8(stdout)
            ==> ((turn@ matches TurnView::Ask { stage: HealthStage::Ready, .. }) <==> exists|i: int|
            0 <= i <= decode_utf8(stdout).len() && "\"ok\":true"@.is_prefix_of(
                #[trigger] decode_utf8(stdout).skip(i),
            )))),
        turn@ matches TurnView::Ask { action, stage: next } ==> action.awaited() == next.awaits(),
{
    match (stage, event) {
        (HealthStage::Begin, _) => Turn::Ask {
            action: Action::ReadClock,
            stage: HealthStage::Started,
        },
        (HealthStage::Started, Event::Clock { now }) => Turn::Ask {
            action: Action::ReadClock,
            stage: HealthStage::Timed { start: *now },
        },
        (HealthStage::Timed { start }, Event::Clock { now }) => {
            if *now < start || *now - start < HEALTH_LIMIT {
                let command = plain_command("curl", &["-fsS", "http://localhost:3000/"]);
                assert(command@.args =~= words(seq!["-fsS"@, "http://localhost:3000/"@]));
                Turn::Ask {
                    action: Action::Run { command, mode: RunMode::Output },
                    stage: HealthStage::Asked { start },
                }
            } else {
                Turn::Finish {
                    result: Err("El servidor API no respondio dentro de 3 minutos.".to_string()),
                }
            }
        },
        (HealthStage::Asked { start }, _) => {
            proof {
                if let EventView::Exited { stdout, .. } = event@ {
                    law_contains_text(decode_utf8(stdout), "\"ok\":true"@);
                }
            }
            if reply_is_healthy(event) {
                Turn::Ask {
                    action: Action::Report { percent: 80, message: "Servidor listo".to_string() },
                    stage: HealthStage::Ready,
                }
            } else {
                Turn::Ask {
                    action: Action::Pause { millis: 2000 },
                    stage: HealthStage::Paused { start },
                }
            }
        },
        (HealthStage::Paused { start }, _) => Turn::Ask {
            action: Action::ReadClock,
            stage: HealthStage::Timed { start },
        },
        _ => Turn::Finish { result: Ok(()) },
    }
}

/// The wait succeeds only where the server has shown that it is up, and fails
/// only where three minutes are over.
pub proof fn law_health_outcomes(stage: HealthStage, event: EventView)
    requires
        event.answers(stage.awaits()),
    ensures
        health_next(stage, event) matches TurnView::Finish { result: Ok(()) } ==> stage is Ready,
        health_next(stage, event) matches TurnView::Ask { stage: HealthStage::Ready, .. } ==> (
        stage is Asked && is_healthy(event)),
        health_next(stage, event) matches TurnView::Finish { result: Err(_) } ==> (
        stage matches HealthStage::Timed { start } && event matches EventView::Clock { now } && now
            >= start + HEALTH_LIMIT),
{
}

/// The wait does not go on for ever: where the readings of the clock in its
/// loop are at least two seconds apart, as the pauses make them, it has ended
/// with the ninety-first reading at the latest.
pub proof fn law_health_ends(start: u64, readings: Seq<u64>, n: int)
    requires
        0 <= n < readings.len(),
        readings[0] >= start,
        forall|i: int|
            0 <= i < readings.len() - 1 ==> #[trigger] readings[i] + 2_000_000_000 <= readings[i
                + 1],
    ensures
        readings[n] >= start + n * 2_000_000_000,
        n >= 90 ==> health_next(
            HealthStage::Timed { start },
            EventView::Clock { now: readings[n] },
        ) is Finish,
    decreases n,
{
    if n > 0 {
        law_health_ends(start, readings, n - 1);
        assert(readings[n - 1] + 2_000_000_000 <= readings[n - 1 + 1]);
    }
}

/// The server counts as up where, and only where, the command ran and what it
/// printed has `"ok":true` in it, whatever its exit code; it is then reported as
/// ready. Otherwise two seconds pass, and the time is looked at again, against the
/// same beginning.
pub proof fn law_server_is_up(start: u64, reply: EventView, paused: EventView)
    requires
        reply.answers(Awaited::Reply),
    ensures
        ({
            let up = reply matches EventView::Exited { stdout, .. } && exists|i: int|
                0 <= i <= lossy_text(stdout).len() && "\"ok\":true"@.is_prefix_of(
                    #[trigger] lossy_text(stdout).skip(i),
                );
            health_next(HealthStage::Asked { start }, reply) == if up {
                TurnView::Ask::<HealthStage, ()> {
                    action: ActionView::Report { percent: 80, message: "Servidor listo"@ },
                    stage: HealthStage::Ready,
                }
            } else {
                TurnView::Ask::<HealthStage, ()> {
                    action: ActionView::Pause { millis: 2000 },
                    stage: HealthStage::Paused { start },
                }
            }
        }),
        health_next(HealthStage::Paused { start }, paused) == (TurnView::Ask::<HealthStage, ()> {
            action: ActionView::ReadClock,
            stage: HealthStage::Timed { start },
        }),
        health_next(HealthStage::Ready, paused) == (TurnView::Finish::<HealthStage, ()> {
            result: Ok(()),
        }),
{
    if let EventView::Exited { stdout, .. } = reply {
        law_contains_text(lossy_text(stdout), "\"ok\":true"@);
    }
}

/// The server is asked where, and only where, less than 180 seconds have passed
/// since the wait began.
pub proof fn law_server_is_asked_for_three_minutes(start: u64, now: u64)
    ensures
        health_next(HealthStage::Started, EventView::Clock { now }) == (TurnView::Ask::<
            HealthStage,
            (),
        > { action: ActionView::ReadClock, stage: HealthStage::Timed { start: now } }),
        now < start + 180_000_000_000 ==> health_next(
            HealthStage::Timed { start },
            EventView::Clock { now },
        ) == (TurnView::Ask::<HealthStage, ()> {
            action: ActionView::Run {
                command: plain("curl"@, seq!["-fsS"@, "http://localhost:3000/"@]),
                mode: RunMode::Output,
            },
            stage: HealthStage::Asked { start },
        }),
        now >= start + 180_000_000_000 ==> health_next(
            HealthStage::Timed { start },
            EventView::Clock { now },
        ) == (TurnView::Finish::<HealthStage, ()> {
            result: Err("El servidor API no respondio dentro de 3 minutos."@),
        }),
{
}

/// The subsystem is installed where, and only where, the search for it did not end
/// with code zero. An installation that does not end with code zero fails, and so
/// does one that could not be run, with the text that says so.
pub proof fn law_missing_subsystem_is_installed(event: EventView)
    requires
        event.answers(Awaited::Reply),
    ensures
        wsl_next(WslStage::Searched, event) == if event matches EventView::Exited { code, .. } && code
            == Some(0i32) {
            TurnView::Finish::<WslStage, bool> { result: Ok(false) }
        } else {
            TurnView::Ask {
                action: ActionView::Run {
                    command: plain("wsl"@, seq!["--install"@, "--no-distribution"@]),
                    mode: RunMode::Stream,
                },
                stage: WslStage::Installed,
            }
        },
        wsl_next(WslStage::Installed, event) == match event {
            EventView::Exited { code: Some(code), .. } => if code == 0 {
                TurnView::Finish::<WslStage, bool> { result: Ok(true) }
            } else {
                TurnView::Finish {
                    result: Err("wsl --install fallo con codigo "@ + decimal_signed(code as int)),
                }
            },
            EventView::Failed { error } => TurnView::Finish { result: Err(error) },
            _ => TurnView::Finish {
                result: Err("wsl --install fallo con codigo "@ + decimal_signed(-1)),
            },
        },
{
}

/// The program counts as registered for the next start where, and only where, it
/// was found and the command ended with code zero. What fails is named.
pub proof fn law_registration_replies(located: EventView, replied: EventView)
    requires
        located.answers(Awaited::Location),
        replied.answers(Awaited::Reply),
    ensures
        located matches EventView::Failed { error } ==> run_once_next(RunOnceStage::Located, located)
            == (TurnView::Finish::<RunOnceStage, ()> { result: Err("current_exe: "@ + error) }),
        located is Rendered ==> (run_once_next(RunOnceStage::Located, located) matches TurnView::Ask {
            action: ActionView::Run { command, mode },
            stage,
        } && stage is Registered && mode is Status && command.program == WordView::Text("reg"@)
            && command.env.len() == 0 && command.args == seq![
            WordView::Text("add"@),
            WordView::Text("HKLM\\Software\\Microsoft\\Windows\\CurrentVersion\\RunOnce"@),
            WordView::Text("/v"@),
            WordView::Text("OctoPOSBootstrapResume"@),
            WordView::Text("/t"@),
            WordView::Text("REG_SZ"@),
            WordView::Text("/d"@),
            WordView::Path(PlaceView { root: Root::CurrentExe, tail: Seq::empty() }),
            WordView::Text("/f"@),
        ]),
        run_once_next(RunOnceStage::Registered, replied) == match replied {
            EventView::Exited { code: Some(code), .. } => if code == 0 {
                TurnView::Finish::<RunOnceStage, ()> { result: Ok(()) }
            } else {
                TurnView::Finish {
                    result: Err(
                        "RunOnce registration fallo con codigo "@ + decimal_signed(code as int),
                    ),
                }
            },
            EventView::Failed { error } => TurnView::Finish { result: Err("reg add: "@ + error) },
            _ => TurnView::Finish {
                result: Err("RunOnce registration fallo con codigo "@ + decimal_signed(-1)),
            },
        },
{
    assert(run_once_command().args =~= seq![
        WordView::Text("add"@),
        WordView::Text("HKLM\\Software\\Microsoft\\Windows\\CurrentVersion\\RunOnce"@),
        WordView::Text("/v"@),
        WordView::Text("OctoPOSBootstrapResume"@),
        WordView::Text("/t"@),
        WordView::Text("REG_SZ"@),
        WordView::Text("/d"@),
        WordView::Path(PlaceView { root: Root::CurrentExe, tail: Seq::empty() }),
        WordView::Text("/f"@),
    ]);
}

/// What the exit code of the script means: zero that all is installed, three that
/// Windows has to restart, and any other, or none, that it failed, of which the
/// user is told with the code and the path of the log.
pub proof fn law_script_codes(
    program_data: bool,
    code: Option<i32>,
    stdout: Seq<u8>,
    log: Seq<char>,
    error: Seq<char>,
)
    ensures
        ({
            let ran = silent_next(
                SilentStage::Ran,
                program_data,
                EventView::Exited { code, stdout },
            );
            let told = silent_next(
                SilentStage::Explained { code },
                program_data,
                EventView::Rendered { text: log },
            );
            &&& ran == if code == Some(0i32) {
                TurnView::Finish::<SilentStage, ()> { result: Ok(()) }
            } else if code == Some(3i32) {
                TurnView::Finish { result: Err("__REBOOT_REQUIRED__"@) }
            } else {
                TurnView::Ask {
                    action: ActionView::Render { place: setup_log(program_data) },
                    stage: SilentStage::Explained { code },
                }
            }
            &&& told == (TurnView::Finish::<SilentStage, ()> {
                result: Err(
                    match code {
                        Some(c) => "install-silent.ps1 fallo con codigo "@ + decimal_signed(c as int)
                            + ". Detalles en "@ + log,
                        None => "install-silent.ps1 termino sin codigo de salida. Detalles en "@
                            + log,
                    },
                ),
            })
        }),
        silent_next(SilentStage::Ran, program_data, EventView::Failed { error }) == (
        TurnView::Finish::<SilentStage, ()> { result: Err(error) }),
{
}

/// A restart is asked for where, and only where, the script ran and ended with code
/// three.
pub proof fn law_restart_is_asked_for(stage: SilentStage, event: EventView)
    ensures
        asks_restart(stage, event) <==> stage is Ran && (event matches EventView::Exited {
            code,
            ..
        } && code == Some(3i32)),
{
}

/// The log is in the directory that the environment names for the data of programs,
/// or else where that directory usually is.
pub proof fn law_setup_log()
    ensures
        setup_log(true) == (PlaceView {
            root: Root::ProgramData,
            tail: seq!["OctoPOS"@, "setup.log"@],
        }),
        setup_log(false) == (PlaceView {
            root: Root::Literal,
            tail: seq!["C:\\ProgramData\\OctoPOS\\setup.log"@],
        }),
{
}

/// What each procedure asks for first.
pub proof fn law_preparations_begin(program_data: bool, event: EventView)
    ensures
        wsl_next(WslStage::Begin, event) == (TurnView::Ask::<WslStage, bool> {
            action: ActionView::Run {
                command: plain("where"@, seq!["wsl"@]),
                mode: RunMode::Status,
            },
            stage: WslStage::Searched,
        }),
        run_once_next(RunOnceStage::Begin, event) == (TurnView::Ask::<RunOnceStage, ()> {
            action: ActionView::LocateSelf,
            stage: RunOnceStage::Located,
        }),
        silent_next(SilentStage::Begin, program_data, event) == (TurnView::Ask::<SilentStage, ()> {
            action: ActionView::Probe {
                place: below2(Root::Resources, "embedded"@, "install-silent.ps1"@),
            },
            stage: SilentStage::Searched,
        }),
        health_next(HealthStage::Begin, event) == (TurnView::Ask::<HealthStage, ()> {
            action: ActionView::ReadClock,
            stage: HealthStage::Started,
        }),
{
}

/// The script is run where it is there, and only there.
pub proof fn law_script_is_there(program_data: bool, found: EventView)
    requires
        found.answers(Awaited::Presence),
    ensures
        silent_next(SilentStage::Searched, program_data, found) is Ask <==> found is Found,
        found is Found ==> (silent_next(SilentStage::Searched, program_data, found)
            matches TurnView::Ask { action: ActionView::Run { command, mode }, stage }
            && stage is Ran && mode is Stream && command.program == WordView::Text("powershell"@)
            && command.args == seq![
            WordView::Text("-NoProfile"@),
            WordView::Text("-ExecutionPolicy"@),
            WordView::Text("Bypass"@),
            WordView::Text("-File"@),
            WordView::Path(
                PlaceView {
                    root: Root::Resources,
                    tail: seq!["embedded"@, "install-silent.ps1"@],
                },
            ),
        ] && command.env == seq![("OCTOPOS_PLATFORM_URL"@, "https://platform.octo-pos.net"@)]),
        found matches EventView::Missing { debug, .. } ==> silent_next(
            SilentStage::Searched,
            program_data,
            found,
        ) == (TurnView::Finish::<SilentStage, ()> {
            result: Err("install-silent.ps1 no encontrado en "@ + debug),
        }),
{
    assert(silent_command().args =~= seq![
        WordView::Text("-NoProfile"@),
        WordView::Text("-ExecutionPolicy"@),
        WordView::Text("Bypass"@),
        WordView::Text("-File"@),
        WordView::Path(
            PlaceView {
                root: Root::Resources,
                tail: seq!["embedded"@, "install-silent.ps1"@],
            },
        ),
    ]);
}

} // verus!
