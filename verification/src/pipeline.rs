//! The installation as a whole: the order of its steps, what it reports on the
//! way, and how it ends.
use vstd::prelude::*;
use vstd::string::*;

use crate::effect::{
    Action, ActionView, Awaited, CommandLine, CommandView, Event, EventView, Platform, RunMode,
    Turn, TurnView, failure, plain, plain_command, result_text, words,
};
use crate::json::{Json, json_document};
use crate::prepare::{
    HealthStage, RunOnceStage, SilentStage, WslStage, RESTART_REQUEST, asks_restart, ensure_wsl,
    health_next, is_healthy, register_runonce, run_once_command, run_once_next,
    run_silent_installer, silent_next, wait_for_api_health, wants_restart, wsl_next,
};
use crate::release::{MsiStage, download_from, install_admin_msi, msi_next};
use crate::service::{
    ServiceStage, can_be_drawn, drawn_for, draws_secret, secret_view, service_next,
    service_request, service_step,
};
use crate::system::{
    autostart_command, autostart_words, checked_system, pre_check_system, version_query,
};

verus! {

/// The step of the installation that a report of progress announces.
#[derive(Debug, Clone, Copy, PartialEq, Eq, Structural)]
pub enum Step {
    /// The check of the system.
    Check,
    /// The search for the packed resources.
    Unpack,
    /// The Linux subsystem.
    Subsystem,
    /// The registration for the next start of Windows.
    Resume,
    /// The restart.
    Restart,
    /// The silent installer.
    Dependencies,
    /// The wait for the server.
    Server,
    /// The admin.
    Admin,
    /// The updater service.
    Updater,
    /// The task that wakes the Linux subsystem.
    Autostart,
    /// The end.
    Done,
}

impl Step {
    /// How much of the installation is done before this step, in percent.
    pub open spec fn percent(self) -> u8 {
        match self {
            Step::Check => 2,
            Step::Unpack => 8,
            Step::Subsystem => 15,
            Step::Resume => 25,
            Step::Restart => 30,
            Step::Dependencies => 40,
            Step::Server => 70,
            Step::Admin => 85,
            Step::Updater => 90,
            Step::Autostart => 94,
            Step::Done => 100,
        }
    }

    /// What the user is told when this step begins.
    pub open spec fn message(self) -> Seq<char> {
        match self {
            Step::Check => "Verificando requisitos del sistema..."@,
            Step::Unpack => "Descomprimiendo recursos..."@,
            Step::Subsystem => "Preparando entorno..."@,
            Step::Resume => "Configurando reanudacion despues del reboot..."@,
            Step::Restart => "Reiniciando equipo..."@,
            Step::Dependencies => "Instalando dependencias..."@,
            Step::Server => "Instalando base de datos y servidor..."@,
            Step::Admin => "Descargando e instalando el panel..."@,
            Step::Updater => "Registrando servicio de actualizaciones..."@,
            Step::Autostart => "Configurando arranque automatico al boot..."@,
            Step::Done => "Listo. OctoPOS esta instalado."@,
        }
    }
}

/// How far the installation has come.
#[allow(inconsistent_fields)]
#[derive(Debug, Clone, Copy, PartialEq, Eq, Structural)]
pub enum InstallStage {
    /// Nothing was asked yet.
    Begin,
    /// It was reported that there is nothing to do on this system.
    Refused,
    /// A step was reported.
    Reported { step: Step },
    /// The version of Windows was asked for.
    Checking,
    /// The packed resources were asked for.
    Locating,
    /// The Linux subsystem is being installed.
    Subsystem { at: WslStage },
    /// This program is being registered for the next start of Windows.
    Resuming { at: RunOnceStage },
    /// Windows was told to restart.
    Restarting,
    /// The silent installer is running.
    Dependencies { at: SilentStage },
    /// It asked for a restart, and this program is being registered for the next
    /// start of Windows, which is up to the user.
    ResumingLater { at: RunOnceStage },
    /// The server is being waited for.
    Server { at: HealthStage },
    /// The admin is being installed.
    Admin { at: MsiStage },
    /// The updater service is being registered.
    Updater { at: ServiceStage },
    /// The task that wakes the Linux subsystem is being registered.
    Autostart,
    /// The window was told that the installation is complete.
    Announced,
}

impl InstallStage {
    /// The events that can come in this stage.
    pub open spec fn awaits(self) -> Awaited {
        match self {
            InstallStage::Begin => Awaited::Begin,
            InstallStage::Refused => Awaited::Completion,
            InstallStage::Reported { .. } => Awaited::Completion,
            InstallStage::Checking => Awaited::Reply,
            InstallStage::Locating => Awaited::Completion,
            InstallStage::Subsystem { at } => at.awaits(),
            InstallStage::Resuming { at } => at.awaits(),
            InstallStage::Restarting => Awaited::Reply,
            InstallStage::Dependencies { at } => at.awaits(),
            InstallStage::ResumingLater { at } => at.awaits(),
            InstallStage::Server { at } => at.awaits(),
            InstallStage::Admin { at } => at.awaits(),
            InstallStage::Updater { at } => at.awaits(),
            InstallStage::Autostart => Awaited::Reply,
            InstallStage::Announced => Awaited::Completion,
        }
    }
}

/// What the installation keeps from one step to the next.
#[derive(Debug)]
pub struct InstallMemory {
    /// The name of the file that installs the admin.
    pub admin_exe: String,
    /// The secret of the updater service.
    pub secret: String,
}

pub ghost struct MemoryView {
    pub admin_exe: Seq<char>,
    pub secret: Seq<char>,
}

impl View for InstallMemory {
    type V = MemoryView;

    open spec fn view(&self) -> MemoryView {
        MemoryView { admin_exe: self.admin_exe@, secret: self.secret@ }
    }
}

impl InstallMemory {
    /// Nothing to remember yet.
    pub fn new() -> (memory: InstallMemory)
        ensures
            memory@ == (MemoryView { admin_exe: Seq::empty(), secret: Seq::empty() }),
    {
        let memory = InstallMemory { admin_exe: String::new(), secret: String::new() };
        assert(memory.admin_exe@ =~= Seq::empty());
        assert(memory.secret@ =~= Seq::empty());
        memory
    }
}

// The steps.

/// The report of a step.
pub open spec fn report(step: Step) -> TurnView<InstallStage, ()> {
    TurnView::Ask {
        action: ActionView::Report { percent: step.percent(), message: step.message() },
        stage: InstallStage::Reported { step },
    }
}

/// The end that a failure makes of the whole, or the report of what comes next.
pub open spec fn then_report(result: Result<(), Seq<char>>, step: Step) -> TurnView<
    InstallStage,
    (),
> {
    match result {
        Ok(_) => report(step),
        Err(error) => TurnView::Finish { result: Err(error) },
    }
}

/// A step of the installation of the Linux subsystem, as a step of the whole. A
/// restart that it takes is prepared next.
pub open spec fn while_subsystem(turn: TurnView<WslStage, bool>) -> TurnView<InstallStage, ()> {
    match turn {
        TurnView::Ask { action, stage: at } => TurnView::Ask {
            action,
            stage: InstallStage::Subsystem { at },
        },
        TurnView::Finish { result: Ok(true) } => report(Step::Resume),
        TurnView::Finish { result: Ok(false) } => report(Step::Dependencies),
        TurnView::Finish { result: Err(error) } => TurnView::Finish { result: Err(error) },
    }
}

/// A step of the registration for the next start, as a step of the whole.
pub open spec fn while_resuming(turn: TurnView<RunOnceStage, ()>) -> TurnView<InstallStage, ()> {
    match turn {
        TurnView::Ask { action, stage: at } => TurnView::Ask {
            action,
            stage: InstallStage::Resuming { at },
        },
        TurnView::Finish { result } => then_report(result, Step::Restart),
    }
}

/// A step of the silent installer, as a step of the whole.
pub open spec fn while_dependencies(turn: TurnView<SilentStage, ()>) -> TurnView<InstallStage, ()> {
    match turn {
        TurnView::Ask { action, stage: at } => TurnView::Ask {
            action,
            stage: InstallStage::Dependencies { at },
        },
        TurnView::Finish { result } => then_report(result, Step::Server),
    }
}

/// A step of the registration for a start that is up to the user, as a step of
/// the whole: once it is done, the user is told to restart Windows.
pub open spec fn while_resuming_later(turn: TurnView<RunOnceStage, ()>) -> TurnView<
    InstallStage,
    (),
> {
    match turn {
        TurnView::Ask { action, stage: at } => TurnView::Ask {
            action,
            stage: InstallStage::ResumingLater { at },
        },
        TurnView::Finish { result: Ok(_) } => TurnView::Finish { result: Err(RESTART_REQUEST@) },
        TurnView::Finish { result: Err(error) } => TurnView::Finish { result: Err(error) },
    }
}

/// The step that follows an event of the silent installer. A restart that it
/// asks for is prepared first.
pub open spec fn dependencies_next(at: SilentStage, program_data: bool, event: EventView) -> TurnView<
    InstallStage,
    (),
> {
    if asks_restart(at, event) {
        while_resuming_later(run_once_next(RunOnceStage::Begin, EventView::Begin))
    } else {
        while_dependencies(silent_next(at, program_data, event))
    }
}

/// A step of the wait for the server, as a step of the whole.
pub open spec fn while_server(turn: TurnView<HealthStage, ()>) -> TurnView<InstallStage, ()> {
    match turn {
        TurnView::Ask { action, stage: at } => TurnView::Ask {
            action,
            stage: InstallStage::Server { at },
        },
        TurnView::Finish { result } => then_report(result, Step::Admin),
    }
}

/// A step of the installation of the admin, as a step of the whole.
pub open spec fn while_admin(turn: TurnView<MsiStage, ()>) -> TurnView<InstallStage, ()> {
    match turn {
        TurnView::Ask { action, stage: at } => TurnView::Ask {
            action,
            stage: InstallStage::Admin { at },
        },
        TurnView::Finish { result } => then_report(result, Step::Updater),
    }
}

/// A step of the registration of the updater service, as a step of the whole.
pub open spec fn while_updater(turn: TurnView<ServiceStage, ()>) -> TurnView<InstallStage, ()> {
    match turn {
        TurnView::Ask { action, stage: at } => TurnView::Ask {
            action,
            stage: InstallStage::Updater { at },
        },
        TurnView::Finish { result } => then_report(result, Step::Autostart),
    }
}

/// A step of the installation of the admin, with what is remembered.
pub open spec fn admin_next(at: MsiStage, memory: MemoryView, event: EventView) -> (
    TurnView<InstallStage, ()>,
    MemoryView,
) {
    let (turn, admin_exe) = msi_next(at, memory.admin_exe, event);
    (while_admin(turn), MemoryView { admin_exe, ..memory })
}

/// A step of the registration of the updater service, with what is remembered.
pub open spec fn updater_next(
    at: ServiceStage,
    program_data: bool,
    memory: MemoryView,
    drawn: Result<Seq<char>, Seq<char>>,
    event: EventView,
) -> (TurnView<InstallStage, ()>, MemoryView) {
    let (turn, secret) = service_next(at, program_data, memory.secret, drawn, event);
    (while_updater(turn), MemoryView { secret, ..memory })
}

/// The beginning of a step that was reported.
pub open spec fn begin_step(
    step: Step,
    program_data: bool,
    memory: MemoryView,
    drawn: Result<Seq<char>, Seq<char>>,
) -> (TurnView<InstallStage, ()>, MemoryView) {
    match step {
        Step::Check => (
            TurnView::Ask {
                action: ActionView::Run {
                    command: plain("cmd"@, seq!["/c"@, "ver"@]),
                    mode: RunMode::Output,
                },
                stage: InstallStage::Checking,
            },
            memory,
        ),
        Step::Unpack => (
            TurnView::Ask { action: ActionView::LocateResources, stage: InstallStage::Locating },
            memory,
        ),
        Step::Subsystem => (while_subsystem(wsl_next(WslStage::Begin, EventView::Begin)), memory),
        Step::Resume => (
            while_resuming(run_once_next(RunOnceStage::Begin, EventView::Begin)),
            memory,
        ),
        Step::Restart => (
            TurnView::Ask {
                action: ActionView::Run {
                    command: plain("shutdown"@, seq!["/r"@, "/t"@, "5"@]),
                    mode: RunMode::Status,
                },
                stage: InstallStage::Restarting,
            },
            memory,
        ),
        Step::Dependencies => (
            dependencies_next(SilentStage::Begin, program_data, EventView::Begin),
            memory,
        ),
        Step::Server => (while_server(health_next(HealthStage::Begin, EventView::Begin)), memory),
        Step::Admin => admin_next(MsiStage::Begin, memory, EventView::Begin),
        Step::Updater => updater_next(
            ServiceStage::Begin,
            program_data,
            memory,
            drawn,
            EventView::Begin,
        ),
        Step::Autostart => (
            TurnView::Ask {
                action: ActionView::Run {
                    command: plain("schtasks"@, autostart_words()),
                    mode: RunMode::Status,
                },
                stage: InstallStage::Autostart,
            },
            memory,
        ),
        Step::Done => (
            TurnView::Ask { action: ActionView::Announce, stage: InstallStage::Announced },
            memory,
        ),
    }
}

/// The step that follows an event, and what is remembered. `drawn` is the secret
/// of the updater service, or the failure to draw one, where the step draws it.
pub open spec fn install_next(
    platform: Platform,
    program_data: bool,
    stage: InstallStage,
    memory: MemoryView,
    drawn: Result<Seq<char>, Seq<char>>,
    event: EventView,
) -> (TurnView<InstallStage, ()>, MemoryView) {
    match stage {
        InstallStage::Begin => match platform {
            Platform::Windows => (report(Step::Check), memory),
            Platform::Other => (
                TurnView::Ask {
                    action: ActionView::Report { percent: 0, message: "Solo Windows soportado."@ },
                    stage: InstallStage::Refused,
                },
                memory,
            ),
        },
        InstallStage::Refused => (
            TurnView::Finish { result: Err("This bootstrapper only runs on Windows."@) },
            memory,
        ),
        InstallStage::Reported { step } => begin_step(step, program_data, memory, drawn),
        InstallStage::Checking => (then_report(checked_system(event), Step::Unpack), memory),
        InstallStage::Locating => match event {
            EventView::Failed { error } => (
                TurnView::Finish { result: Err("resource_dir: "@ + error) },
                memory,
            ),
            _ => (report(Step::Subsystem), memory),
        },
        InstallStage::Subsystem { at } => (while_subsystem(wsl_next(at, event)), memory),
        InstallStage::Resuming { at } => (while_resuming(run_once_next(at, event)), memory),
        InstallStage::Restarting => match event {
            EventView::Failed { error } => (
                TurnView::Finish { result: Err("shutdown: "@ + error) },
                memory,
            ),
            _ => (TurnView::Finish { result: Ok(()) }, memory),
        },
        InstallStage::Dependencies { at } => (dependencies_next(at, program_data, event), memory),
        InstallStage::ResumingLater { at } => (
            while_resuming_later(run_once_next(at, event)),
            memory,
        ),
        InstallStage::Server { at } => (while_server(health_next(at, event)), memory),
        InstallStage::Admin { at } => admin_next(at, memory, event),
        InstallStage::Updater { at } => updater_next(at, program_data, memory, drawn, event),
        InstallStage::Autostart => (report(Step::Done), memory),
        InstallStage::Announced => (TurnView::Finish { result: Ok(()) }, memory),
    }
}

/// Whether this can be drawn in the step that follows an event.
pub open spec fn install_can_draw(
    stage: InstallStage,
    event: EventView,
    drawn: Result<Seq<char>, Seq<char>>,
) -> bool {
    match stage {
        InstallStage::Updater { at } => can_be_drawn(at, event, drawn),
        _ => drawn == Ok::<Seq<char>, Seq<char>>(Seq::empty()),
    }
}

fn report_of(step: Step) -> (turn: Turn<InstallStage, ()>)
    ensures
        turn@ == report(step),
{
    let (percent, message): (u8, &str) = match step {
        Step::Check => (2, "Verificando requisitos del sistema..."),
        Step::Unpack => (8, "Descomprimiendo recursos..."),
        Step::Subsystem => (15, "Preparando entorno..."),
        Step::Resume => (25, "Configurando reanudacion despues del reboot..."),
        Step::Restart => (30, "Reiniciando equipo..."),
        Step::Dependencies => (40, "Instalando dependencias..."),
        Step::Server => (70, "Instalando base de datos y servidor..."),
        Step::Admin => (85, "Descargando e instalando el panel..."),
        Step::Updater => (90, "Registrando servicio de actualizaciones..."),
        Step::Autostart => (94, "Configurando arranque automatico al boot..."),
        Step::Done => (100, "Listo. OctoPOS esta instalado."),
    };
    Turn::Ask {
        action: Action::Report { percent, message: message.to_string() },
        stage: InstallStage::Reported { step },
    }
}

fn ended(result: Result<(), String>, step: Step) -> (turn: Turn<InstallStage, ()>)
    ensures
        turn@ == then_report(result_text(result), step),
{
    match result {
        Ok(_) => report_of(step),
        Err(error) => Turn::Finish { result: Err(error) },
    }
}

fn subsystem_step(at: WslStage, event: &Event) -> (turn: Turn<InstallStage, ()>)
    requires
        event@.answers(at.awaits()),
    ensures
        turn@ == while_subsystem(wsl_next(at, event@)),
        turn@ matches TurnView::Ask { action, stage: next } ==> action.awaited() == next.awaits(),
{
    match ensure_wsl(at, event) {
        Turn::Ask { action, stage: at } => Turn::Ask {
            action,
            stage: InstallStage::Subsystem { at },
        },
        Turn::Finish { result: Ok(true) } => report_of(Step::Resume),
        Turn::Finish { result: Ok(false) } => report_of(Step::Dependencies),
        Turn::Finish { result: Err(error) } => Turn::Finish { result: Err(error) },
    }
}

fn resuming_step(at: RunOnceStage, event: &Event) -> (turn: Turn<InstallStage, ()>)
    requires
        event@.answers(at.awaits()),
    ensures
        turn@ == while_resuming(run_once_next(at, event@)),
        turn@ matches TurnView::Ask { action, stage: next } ==> action.awaited() == next.awaits(),
{
    match register_runonce(at, event) {
        Turn::Ask { action, stage: at } => Turn::Ask {
            action,
            stage: InstallStage::Resuming { at },
        },
        Turn::Finish { result } => ended(result, Step::Restart),
    }
}

fn resuming_later_step(at: RunOnceStage, event: &Event) -> (turn: Turn<InstallStage, ()>)
    requires
        event@.answers(at.awaits()),
    ensures
        turn@ == while_resuming_later(run_once_next(at, event@)),
        turn@ matches TurnView::Ask { action, stage: next } ==> action.awaited() == next.awaits(),
{
    match register_runonce(at, event) {
        Turn::Ask { action, stage: at } => Turn::Ask {
            action,
            stage: InstallStage::ResumingLater { at },
        },
        Turn::Finish { result: Ok(_) } => Turn::Finish { result: Err(RESTART_REQUEST.to_string()) },
        Turn::Finish { result: Err(error) } => Turn::Finish { result: Err(error) },
    }
}

fn dependencies_step(at: SilentStage, program_data: bool, event: &Event) -> (turn: Turn<
    InstallStage,
    (),
>)
    requires
        event@.answers(at.awaits()),
    ensures
        turn@ == dependencies_next(at, program_data, event@),
        turn@ matches TurnView::Ask { action, stage: next } ==> action.awaited() == next.awaits(),
{
    if wants_restart(at, event) {
        return resuming_later_step(RunOnceStage::Begin, &Event::Begin);
    }
    match run_silent_installer(at, program_data, event) {
        Turn::Ask { action, stage: at } => Turn::Ask {
            action,
            stage: InstallStage::Dependencies { at },
        },
        Turn::Finish { result } => ended(result, Step::Server),
    }
}

fn server_step(at: HealthStage, event: &Event) -> (turn: Turn<InstallStage, ()>)
    requires
        event@.answers(at.awaits()),
    ensures
        turn@ == while_server(health_next(at, event@)),
        turn@ matches TurnView::Ask { action, stage: next } ==> action.awaited() == next.awaits(),
{
    match wait_for_api_health(at, event) {
        Turn::Ask { action, stage: at } => Turn::Ask { action, stage: InstallStage::Server { at } },
        Turn::Finish { result } => ended(result, Step::Admin),
    }
}

fn admin_step(at: MsiStage, memory: &mut InstallMemory, event: &Event) -> (turn: Turn<
    InstallStage,
    (),
>)
    requires
        event@.answers(at.awaits()),
    ensures
        (turn@, final(memory)@) == admin_next(at, old(memory)@, event@),
        turn@ matches TurnView::Ask { action, stage: next } ==> action.awaited() == next.awaits(),
{
    match install_admin_msi(at, &mut memory.admin_exe, event) {
        Turn::Ask { action, stage: at } => Turn::Ask { action, stage: InstallStage::Admin { at } },
        Turn::Finish { result } => ended(result, Step::Updater),
    }
}

fn updater_step(
    at: ServiceStage,
    program_data: bool,
    memory: &mut InstallMemory,
    drawn: Result<String, String>,
    event: &Event,
) -> (turn: Turn<InstallStage, ()>)
    requires
        event@.answers(at.awaits()),
    ensures
        (turn@, final(memory)@) == updater_next(
            at,
            program_data,
            old(memory)@,
            secret_view(drawn),
            event@,
        ),
        turn@ matches TurnView::Ask { action, stage: next } ==> action.awaited() == next.awaits(),
{
    match service_step(at, program_data, &mut memory.secret, drawn, event) {
        Turn::Ask { action, stage: at } => Turn::Ask {
            action,
            stage: InstallStage::Updater { at },
        },
        Turn::Finish { result } => ended(result, Step::Autostart),
    }
}

fn restart_command() -> (command: CommandLine)
    ensures
        command@ == plain("shutdown"@, seq!["/r"@, "/t"@, "5"@]),
{
    let command = plain_command("shutdown", &["/r", "/t", "5"]);
    assert(command@.args =~= words(seq!["/r"@, "/t"@, "5"@]));
    command
}

fn begin(
    step: Step,
    program_data: bool,
    memory: &mut InstallMemory,
    drawn: Result<String, String>,
) -> (turn: Turn<InstallStage, ()>)
    ensures
        (turn@, final(memory)@) == begin_step(
            step,
            program_data,
            old(memory)@,
            secret_view(drawn),
        ),
        turn@ matches TurnView::Ask { action, stage: next } ==> action.awaited() == next.awaits(),
{
    match step {
        Step::Check => Turn::Ask {
            action: Action::Run { command: version_query(), mode: RunMode::Output },
            stage: InstallStage::Checking,
        },
        Step::Unpack => Turn::Ask {
            action: Action::LocateResources,
            stage: InstallStage::Locating,
        },
        Step::Subsystem => subsystem_step(WslStage::Begin, &Event::Begin),
        Step::Resume => resuming_step(RunOnceStage::Begin, &Event::Begin),
        Step::Restart => Turn::Ask {
            action: Action::Run { command: restart_command(), mode: RunMode::Status },
            stage: InstallStage::Restarting,
        },
        Step::Dependencies => dependencies_step(SilentStage::Begin, program_data, &Event::Begin),
        Step::Server => server_step(HealthStage::Begin, &Event::Begin),
        Step::Admin => admin_step(MsiStage::Begin, memory, &Event::Begin),
        Step::Updater => updater_step(
            ServiceStage::Begin,
            program_data,
            memory,
            drawn,
            &Event::Begin,
        ),
        Step::Autostart => Turn::Ask {
            action: Action::Run { command: autostart_command(), mode: RunMode::Status },
            stage: InstallStage::Autostart,
        },
        Step::Done => Turn::Ask { action: Action::Announce, stage: InstallStage::Announced },
    }
}

/// One step of the installation, with the secret of the updater service, or the
/// failure to draw one, given.
pub fn install_step(
    platform: Platform,
    program_data: bool,
    stage: InstallStage,
    memory: &mut InstallMemory,
    drawn: Result<String, String>,
    event: &Event,
) -> (turn: Turn<InstallStage, ()>)
    requires
        event@.answers(stage.awaits()),
    ensures
        (turn@, final(memory)@) == install_next(
            platform,
            program_data,
            stage,
            old(memory)@,
            secret_view(drawn),
            event@,
        ),
        turn@ matches TurnView::Ask { action, stage: next } ==> action.awaited() == next.awaits(),
{
    match stage {
        InstallStage::Begin => match platform {
            Platform::Windows => report_of(Step::Check),
            Platform::Other => Turn::Ask {
                action: Action::Report {
                    percent: 0,
                    message: "Solo Windows soportado.".to_string(),
                },
                stage: InstallStage::Refused,
            },
        },
        InstallStage::Refused => Turn::Finish {
            result: Err("This bootstrapper only runs on Windows.".to_string()),
        },
        InstallStage::Reported { step } => begin(step, program_data, memory, drawn),
        InstallStage::Checking => ended(pre_check_system(event), Step::Unpack),
        InstallStage::Locating => match event {
            Event::Failed { error } => Turn::Finish {
                result: Err(failure("resource_dir: ", error.as_str())),
            },
            _ => report_of(Step::Subsystem),
        },
        InstallStage::Subsystem { at } => subsystem_step(at, event),
        InstallStage::Resuming { at } => resuming_step(at, event),
        InstallStage::Restarting => match event {
            Event::Failed { error } => Turn::Finish {
                result: Err(failure("shutdown: ", error.as_str())),
            },
            _ => Turn::Finish { result: Ok(()) },
        },
        InstallStage::Dependencies { at } => dependencies_step(at, program_data, event),
        InstallStage::ResumingLater { at } => resuming_later_step(at, event),
        InstallStage::Server { at } => server_step(at, event),
        InstallStage::Admin { at } => admin_step(at, memory, event),
        InstallStage::Updater { at } => updater_step(at, program_data, memory, drawn, event),
        InstallStage::Autostart => report_of(Step::Done),
        InstallStage::Announced => Turn::Finish { result: Ok(()) },
    }
}

/// Installs OctoPOS: checks the system, sees to the Linux subsystem and to the
/// restart it may take, runs the silent installer, waits for the server, and
/// installs the admin and its updater service.
pub fn run_install(
    platform: Platform,
    program_data: bool,
    stage: InstallStage,
    memory: &mut InstallMemory,
    event: &Event,
) -> (turn: Turn<InstallStage, ()>)
    requires
        event@.answers(stage.awaits()),
    ensures
        exists|drawn: Result<Seq<char>, Seq<char>>|
            {
                &&& install_can_draw(stage, event@, drawn)
                &&& (turn@, final(memory)@) == #[trigger] install_next(
                    platform,
                    program_data,
                    stage,
                    old(memory)@,
                    drawn,
                    event@,
                )
            },
        turn@ matches TurnView::Ask { action, stage: next } ==> action.awaited() == next.awaits(),
{
    let drawn = match stage {
        InstallStage::Updater { at } => drawn_for(at, event),
        _ => {
            let none = String::new();
            assert(none@ =~= Seq::empty());
            Ok(none)
        },
    };
    install_step(platform, program_data, stage, memory, drawn, event)
}

// Single steps.

/// Where one of the procedures that make up the installation fails, the
/// installation ends with its error. There are two exceptions: the task that
/// wakes the Linux subsystem may fail, and the restart that the silent installer
/// asks for is prepared first.
pub proof fn law_failure_ends_it(
    platform: Platform,
    program_data: bool,
    stage: InstallStage,
    memory: MemoryView,
    drawn: Result<Seq<char>, Seq<char>>,
    event: EventView,
    error: Seq<char>,
)
    requires
        match stage {
            InstallStage::Checking => checked_system(event) == Err::<(), Seq<char>>(error),
            InstallStage::Subsystem { at } => wsl_next(at, event) == (TurnView::Finish::<
                WslStage,
                bool,
            > { result: Err(error) }),
            InstallStage::Resuming { at } => run_once_next(at, event) == (TurnView::Finish::<
                RunOnceStage,
                (),
            > { result: Err(error) }),
            InstallStage::Dependencies { at } => !asks_restart(at, event) && silent_next(
                at,
                program_data,
                event,
            ) == (TurnView::Finish::<SilentStage, ()> { result: Err(error) }),
            InstallStage::ResumingLater { at } => run_once_next(at, event) == (TurnView::Finish::<
                RunOnceStage,
                (),
            > { result: Err(error) }),
            InstallStage::Server { at } => health_next(at, event) == (TurnView::Finish::<
                HealthStage,
                (),
            > { result: Err(error) }),
            InstallStage::Admin { at } => msi_next(at, memory.admin_exe, event).0 == (
            TurnView::Finish::<MsiStage, ()> { result: Err(error) }),
            InstallStage::Updater { at } => service_next(
                at,
                program_data,
                memory.secret,
                drawn,
                event,
            ).0 == (TurnView::Finish::<ServiceStage, ()> { result: Err(error) }),
            _ => false,
        },
    ensures
        install_next(platform, program_data, stage, memory, drawn, event).0 == (TurnView::Finish::<
            InstallStage,
            (),
        > { result: Err(error) }),
{
}

/// The reply to the registration of the task that wakes the Linux subsystem
/// makes no difference.
pub proof fn law_autostart_may_fail(
    platform: Platform,
    program_data: bool,
    memory: MemoryView,
    drawn: Result<Seq<char>, Seq<char>>,
    event: EventView,
)
    ensures
        install_next(platform, program_data, InstallStage::Autostart, memory, drawn, event) == (
            report(Step::Done),
            memory,
        ),
{
}

/// The installation succeeds in two ways: with a restart that Windows was told to
/// make, or with the announcement that it is complete.
pub proof fn law_success_has_two_ways(
    platform: Platform,
    program_data: bool,
    stage: InstallStage,
    memory: MemoryView,
    drawn: Result<Seq<char>, Seq<char>>,
    event: EventView,
)
    requires
        event.answers(stage.awaits()),
        install_next(platform, program_data, stage, memory, drawn, event).0 == (TurnView::Finish::<
            InstallStage,
            (),
        > { result: Ok(()) }),
    ensures
        stage is Announced || (stage is Restarting && event is Exited),
{
}

// Whole runs.

/// A moment of a run: the stage, what is remembered, what would be drawn, and
/// the event that comes.
pub ghost struct Moment {
    pub stage: InstallStage,
    pub memory: MemoryView,
    pub drawn: Result<Seq<char>, Seq<char>>,
    pub event: EventView,
}

/// What a moment leads to.
pub open spec fn turn_at(platform: Platform, program_data: bool, moment: Moment) -> (
    TurnView<InstallStage, ()>,
    MemoryView,
) {
    install_next(
        platform,
        program_data,
        moment.stage,
        moment.memory,
        moment.drawn,
        moment.event,
    )
}

/// Whether a moment leads to another.
pub open spec fn leads_to(platform: Platform, program_data: bool, from: Moment, to: Moment) -> bool {
    let (turn, memory) = turn_at(platform, program_data, from);
    turn matches TurnView::Ask { stage, .. } && stage == to.stage && memory == to.memory
}

/// Whether a row of moments is a run of the installation from its beginning.
pub open spec fn is_run(platform: Platform, program_data: bool, run: Seq<Moment>) -> bool {
    &&& run.len() > 0
    &&& run[0].stage is Begin
    &&& forall|i: int|
        0 <= i < run.len() ==> (#[trigger] run[i]).event.answers(run[i].stage.awaits())
    &&& forall|i: int|
        0 <= i < run.len() - 1 ==> leads_to(platform, program_data, #[trigger] run[i], run[i + 1])
}

/// How much was reported done last, in percent.
pub open spec fn shown(stage: InstallStage) -> int {
    match stage {
        InstallStage::Begin => -1,
        InstallStage::Refused => 0,
        InstallStage::Reported { step } => step.percent() as int,
        InstallStage::Checking => Step::Check.percent() as int,
        InstallStage::Locating => Step::Unpack.percent() as int,
        InstallStage::Subsystem { .. } => Step::Subsystem.percent() as int,
        InstallStage::Resuming { .. } => Step::Resume.percent() as int,
        InstallStage::Restarting => Step::Restart.percent() as int,
        InstallStage::Dependencies { .. } => Step::Dependencies.percent() as int,
        InstallStage::ResumingLater { .. } => Step::Dependencies.percent() as int,
        InstallStage::Server { at: HealthStage::Ready } => 80,
        InstallStage::Server { .. } => Step::Server.percent() as int,
        InstallStage::Admin { .. } => Step::Admin.percent() as int,
        InstallStage::Updater { .. } => Step::Updater.percent() as int,
        InstallStage::Autostart => Step::Autostart.percent() as int,
        InstallStage::Announced => Step::Done.percent() as int,
    }
}

// None of the procedures reports progress, but for the wait for the server.

proof fn lemma_wsl_reports_nothing(at: WslStage, event: EventView)
    ensures
        wsl_next(at, event) matches TurnView::Ask { action, .. } ==> !(action is Report),
{
}

proof fn lemma_run_once_reports_nothing(at: RunOnceStage, event: EventView)
    ensures
        run_once_next(at, event) matches TurnView::Ask { action, .. } ==> !(action is Report),
{
}

proof fn lemma_silent_reports_nothing(at: SilentStage, program_data: bool, event: EventView)
    ensures
        silent_next(at, program_data, event) matches TurnView::Ask { action, .. } ==> !(
        action is Report),
{
}

proof fn lemma_health_reports_once(at: HealthStage, event: EventView)
    ensures
        health_next(at, event) matches TurnView::Ask { action, stage } ==> {
            &&& action is Report <==> stage is Ready
            &&& action is Report ==> action->percent == 80 && !(at is Ready)
            &&& at is Ready ==> stage is Ready
        },
{
}

proof fn lemma_msi_reports_nothing(at: MsiStage, admin_exe: Seq<char>, event: EventView)
    ensures
        msi_next(at, admin_exe, event).0 matches TurnView::Ask { action, .. } ==> !(
        action is Report),
{
}

proof fn lemma_service_reports_nothing(
    at: ServiceStage,
    program_data: bool,
    secret: Seq<char>,
    drawn: Result<Seq<char>, Seq<char>>,
    event: EventView,
)
    ensures
        service_next(at, program_data, secret, drawn, event).0 matches TurnView::Ask { action, .. }
            ==> !(action is Report),
{
}

#[verifier::spinoff_prover]
proof fn lemma_shown_step(platform: Platform, program_data: bool, moment: Moment)
    requires
        moment.event.answers(moment.stage.awaits()),
    ensures
        turn_at(platform, program_data, moment).0 matches TurnView::Ask { action, stage } ==> {
            if action is Report {
                shown(moment.stage) < shown(stage) && shown(stage) == action->percent
            } else {
                shown(stage) == shown(moment.stage)
            }
        },
{
    let event = moment.event;
    let memory = moment.memory;
    match moment.stage {
        InstallStage::Subsystem { at } => {
            lemma_wsl_reports_nothing(at, event);
        },
        InstallStage::Resuming { at } => {
            lemma_run_once_reports_nothing(at, event);
        },
        InstallStage::Dependencies { at } => {
            lemma_silent_reports_nothing(at, program_data, event);
            lemma_run_once_reports_nothing(RunOnceStage::Begin, EventView::Begin);
        },
        InstallStage::ResumingLater { at } => {
            lemma_run_once_reports_nothing(at, event);
        },
        InstallStage::Server { at } => {
            lemma_health_reports_once(at, event);
        },
        InstallStage::Admin { at } => {
            lemma_msi_reports_nothing(at, memory.admin_exe, event);
        },
        InstallStage::Updater { at } => {
            lemma_service_reports_nothing(at, program_data, memory.secret, moment.drawn, event);
        },
        InstallStage::Reported { step } => {
            lemma_shown_begin(step, program_data, memory, moment.drawn);
        },
        _ => {},
    }
}

proof fn lemma_shown_begin(
    step: Step,
    program_data: bool,
    memory: MemoryView,
    drawn: Result<Seq<char>, Seq<char>>,
)
    ensures
        begin_step(step, program_data, memory, drawn).0 matches TurnView::Ask { action, stage }
            && !(action is Report) && shown(stage) == step.percent(),
{
}

#[verifier::spinoff_prover]
proof fn lemma_shown_grows(
    platform: Platform,
    program_data: bool,
    run: Seq<Moment>,
    i: int,
    j: int,
)
    requires
        is_run(platform, program_data, run),
        0 <= i <= j < run.len(),
    ensures
        shown(run[i].stage) <= shown(run[j].stage),
    decreases j - i,
{
    if i < j {
        lemma_shown_grows(platform, program_data, run, i, j - 1);
        let before = run[j - 1];
        assert(leads_to(platform, program_data, before, run[j - 1 + 1]));
        lemma_shown_step(platform, program_data, before);
    }
}

/// The progress that a run reports only ever grows.
pub proof fn law_progress_grows(
    platform: Platform,
    program_data: bool,
    run: Seq<Moment>,
    i: int,
    j: int,
)
    requires
        is_run(platform, program_data, run),
        0 <= i < j < run.len(),
        turn_at(platform, program_data, run[i]).0 matches TurnView::Ask {
            action: ActionView::Report { .. },
            ..
        },
        turn_at(platform, program_data, run[j]).0 matches TurnView::Ask {
            action: ActionView::Report { .. },
            ..
        },
    ensures
        turn_at(platform, program_data, run[i]).0->action->percent < turn_at(
            platform,
            program_data,
            run[j],
        ).0->action->percent,
{
    lemma_shown_step(platform, program_data, run[i]);
    lemma_shown_step(platform, program_data, run[j]);
    assert(leads_to(platform, program_data, run[i], run[i + 1]));
    lemma_shown_grows(platform, program_data, run, i + 1, j);
}

/// The part of the installation that a stage belongs to, in their order. The
/// restart has a part of its own, which leads to none of the later ones.
pub open spec fn part(stage: InstallStage) -> int {
    match stage {
        InstallStage::Begin => 0,
        InstallStage::Refused => 0,
        InstallStage::Reported { step } => match step {
            Step::Check => 1,
            Step::Unpack => 2,
            Step::Subsystem => 3,
            Step::Resume => 4,
            Step::Restart => 5,
            Step::Dependencies => 6,
            Step::Server => 7,
            Step::Admin => 9,
            Step::Updater => 11,
            Step::Autostart => 13,
            Step::Done => 14,
        },
        InstallStage::Checking => 1,
        InstallStage::Locating => 2,
        InstallStage::Subsystem { .. } => 3,
        InstallStage::Resuming { .. } => 4,
        InstallStage::Restarting => 5,
        InstallStage::Dependencies { .. } => 6,
        InstallStage::ResumingLater { .. } => 6,
        InstallStage::Server { at: HealthStage::Ready } => 8,
        InstallStage::Server { .. } => 7,
        InstallStage::Admin { at: MsiStage::Cleanup } => 10,
        InstallStage::Admin { .. } => 9,
        InstallStage::Updater { at: ServiceStage::Started } => 12,
        InstallStage::Updater { .. } => 11,
        InstallStage::Autostart => 13,
        InstallStage::Announced => 14,
    }
}

#[verifier::spinoff_prover]
proof fn lemma_crossing(
    platform: Platform,
    program_data: bool,
    run: Seq<Moment>,
    j: int,
    bound: int,
) -> (i: int)
    requires
        is_run(platform, program_data, run),
        0 <= j < run.len(),
        0 < bound <= part(run[j].stage),
    ensures
        0 <= i < j,
        part(run[i].stage) < bound <= part(run[i + 1].stage),
        leads_to(platform, program_data, run[i], run[i + 1]),
        run[i].event.answers(run[i].stage.awaits()),
    decreases j,
{
    assert(leads_to(platform, program_data, run[j - 1], run[j - 1 + 1]));
    if part(run[j - 1].stage) < bound {
        j - 1
    } else {
        lemma_crossing(platform, program_data, run, j - 1, bound)
    }
}

#[verifier::spinoff_prover]
proof fn lemma_restart_step(platform: Platform, program_data: bool, from: Moment, to: Moment)
    requires
        from.event.answers(from.stage.awaits()),
        leads_to(platform, program_data, from, to),
    ensures
        to.stage is Restarting ==> from.stage == (InstallStage::Reported { step: Step::Restart }),
        to.stage == (InstallStage::Reported { step: Step::Restart }) ==> from.stage == (
        InstallStage::Resuming { at: RunOnceStage::Registered }) && from.event.succeeded(),
{
}

/// Windows is told to restart only after this program was registered for its
/// next start, so the installation goes on by itself.
#[verifier::spinoff_prover]
pub proof fn law_restart_is_prepared(
    platform: Platform,
    program_data: bool,
    run: Seq<Moment>,
    j: int,
) -> (i: int)
    requires
        is_run(platform, program_data, run),
        0 <= j < run.len(),
        run[j].stage is Restarting,
    ensures
        0 <= i < j,
        run[i].stage == (InstallStage::Resuming { at: RunOnceStage::Registered }),
        run[i].event.succeeded(),
{
    assert(leads_to(platform, program_data, run[j - 1], run[j - 1 + 1]));
    lemma_restart_step(platform, program_data, run[j - 1], run[j]);
    assert(leads_to(platform, program_data, run[j - 2], run[j - 2 + 1]));
    lemma_restart_step(platform, program_data, run[j - 2], run[j - 1]);
    j - 2
}

/// An error that is no request to restart, as its first character shows.
spec fn is_told(error: Seq<char>) -> bool {
    error.len() > 0 && error[0] != '_'
}

proof fn lemma_system_error_is_told(event: EventView)
    ensures
        checked_system(event) matches Err(error) ==> is_told(error),
{
    reveal_strlit("Windows 10 build 19041+ requerido (encontrado ");
    reveal_strlit("ver: ");
}

proof fn lemma_wsl_error_is_told(at: WslStage, event: EventView)
    ensures
        wsl_next(at, event) matches TurnView::Finish { result: Err(error) } ==> is_told(error)
            || event == (EventView::Failed { error }),
{
    reveal_strlit("wsl --install fallo con codigo ");
}

proof fn lemma_run_once_error_is_told(at: RunOnceStage, event: EventView)
    ensures
        run_once_next(at, event) matches TurnView::Finish { result: Err(error) } ==> is_told(error),
{
    reveal_strlit("current_exe: ");
    reveal_strlit("reg add: ");
    reveal_strlit("RunOnce registration fallo con codigo ");
}

proof fn lemma_silent_error_is_told(at: SilentStage, program_data: bool, event: EventView)
    requires
        !asks_restart(at, event),
    ensures
        silent_next(at, program_data, event) matches TurnView::Finish { result: Err(error) }
            ==> is_told(error) || event == (EventView::Failed { error }),
{
    reveal_strlit("install-silent.ps1 no encontrado en ");
    reveal_strlit("install-silent.ps1 fallo con codigo ");
    reveal_strlit("install-silent.ps1 termino sin codigo de salida. Detalles en ");
}

proof fn lemma_health_error_is_told(at: HealthStage, event: EventView)
    ensures
        health_next(at, event) matches TurnView::Finish { result: Err(error) } ==> is_told(error),
{
    reveal_strlit("El servidor API no respondio dentro de 3 minutos.");
}

proof fn lemma_download_error_is_told(document: Result<Json, Seq<char>>)
    ensures
        download_from(document) matches Err(error) ==> is_told(error),
{
    reveal_strlit("parse releases JSON: ");
    reveal_strlit("Respuesta de GitHub sin 'assets'.");
    reveal_strlit("El ultimo release no tiene un -setup.exe del admin.");
    reveal_strlit("Asset -setup.exe sin browser_download_url.");
}

proof fn lemma_msi_error_is_told(at: MsiStage, admin_exe: Seq<char>, event: EventView)
    ensures
        msi_next(at, admin_exe, event).0 matches TurnView::Finish { result: Err(error) }
            ==> is_told(error),
{
    reveal_strlit("curl spawn: ");
    reveal_strlit("No se pudo consultar releases de GitHub (codigo ");
    reveal_strlit("curl download: ");
    reveal_strlit("Descarga del .exe fallo (codigo ");
    reveal_strlit("admin installer spawn: ");
    reveal_strlit("Admin installer termino con codigo ");
    if let EventView::Exited { stdout, .. } = event {
        lemma_download_error_is_told(json_document(stdout));
    }
}

proof fn lemma_service_error_is_told(
    at: ServiceStage,
    program_data: bool,
    secret: Seq<char>,
    drawn: Result<Seq<char>, Seq<char>>,
    event: EventView,
)
    requires
        event.answers(at.awaits()),
        can_be_drawn(at, event, drawn),
    ensures
        service_next(at, program_data, secret, drawn, event).0 matches TurnView::Finish {
            result: Err(error),
        } ==> is_told(error),
{
    reveal_strlit("octopos-updater.exe no encontrado en ");
    reveal_strlit("create_dir_all updater root: ");
    reveal_strlit("copy updater binary: ");
    reveal_strlit("getrandom: ");
    reveal_strlit("reg add: ");
    reveal_strlit("write secret: ");
    reveal_strlit("sc create fallo con codigo ");
    if let Err(error) = drawn {
        assert(draws_secret(at, event));
        assert("getrandom: "@.is_prefix_of(error));
        assert(error.subrange(0, "getrandom: "@.len() as int)[0] == 'g');
    }
}

proof fn lemma_request_to_restart(platform: Platform, program_data: bool, moment: Moment)
    requires
        moment.event.answers(moment.stage.awaits()),
        install_can_draw(moment.stage, moment.event, moment.drawn),
        moment.event != (EventView::Failed { error: RESTART_REQUEST@ }),
        turn_at(platform, program_data, moment).0 == (TurnView::Finish::<InstallStage, ()> {
            result: Err(RESTART_REQUEST@),
        }),
    ensures
        moment.stage == (InstallStage::ResumingLater { at: RunOnceStage::Registered }),
        moment.event.succeeded(),
{
    reveal_strlit("__REBOOT_REQUIRED__");
    reveal_strlit("This bootstrapper only runs on Windows.");
    reveal_strlit("resource_dir: ");
    reveal_strlit("shutdown: ");
    assert(RESTART_REQUEST@[0] == '_');
    let event = moment.event;
    let memory = moment.memory;
    match moment.stage {
        InstallStage::Checking => {
            lemma_system_error_is_told(event);
        },
        InstallStage::Subsystem { at } => {
            lemma_wsl_error_is_told(at, event);
        },
        InstallStage::Resuming { at } => {
            lemma_run_once_error_is_told(at, event);
        },
        InstallStage::Dependencies { at } => {
            if !asks_restart(at, event) {
                lemma_silent_error_is_told(at, program_data, event);
            }
        },
        InstallStage::ResumingLater { at } => {
            lemma_run_once_error_is_told(at, event);
        },
        InstallStage::Server { at } => {
            lemma_health_error_is_told(at, event);
        },
        InstallStage::Admin { at } => {
            lemma_msi_error_is_told(at, memory.admin_exe, event);
        },
        InstallStage::Updater { at } => {
            lemma_service_error_is_told(at, program_data, memory.secret, moment.drawn, event);
        },
        InstallStage::Reported { step } => {
            lemma_shown_begin(step, program_data, memory, moment.drawn);
        },
        _ => {},
    }
}

/// The user is told to restart Windows only after this program was registered
/// for its next start, so the installation goes on by itself then too. Left out
/// is a streamed command whose failure reads like that request; none does, by
/// `law_stream_error_is_told`.
pub proof fn law_asked_restart_is_prepared(
    platform: Platform,
    program_data: bool,
    run: Seq<Moment>,
    j: int,
)
    requires
        is_run(platform, program_data, run),
        0 <= j < run.len(),
        install_can_draw(run[j].stage, run[j].event, run[j].drawn),
        run[j].event != (EventView::Failed { error: RESTART_REQUEST@ }),
        turn_at(platform, program_data, run[j]).0 == (TurnView::Finish::<InstallStage, ()> {
            result: Err(RESTART_REQUEST@),
        }),
    ensures
        run[j].stage == (InstallStage::ResumingLater { at: RunOnceStage::Registered }),
        run[j].event.succeeded(),
{
    lemma_request_to_restart(platform, program_data, run[j]);
}

/// Where the silent installer asks for a restart, this program is registered for
/// the next start of Windows, whatever the registration takes, before the user
/// is told: each of its steps follows, and only its success leads to the request.
pub proof fn law_asked_restart_registers(
    platform: Platform,
    program_data: bool,
    memory: MemoryView,
    drawn: Result<Seq<char>, Seq<char>>,
    asked: EventView,
    located: EventView,
    registered: EventView,
)
    requires
        asks_restart(SilentStage::Ran, asked),
        located is Rendered,
        registered.answers(Awaited::Reply),
    ensures
        install_next(
            platform,
            program_data,
            InstallStage::Dependencies { at: SilentStage::Ran },
            memory,
            drawn,
            asked,
        ).0 == (TurnView::Ask::<InstallStage, ()> {
            action: ActionView::LocateSelf,
            stage: InstallStage::ResumingLater { at: RunOnceStage::Located },
        }),
        install_next(
            platform,
            program_data,
            InstallStage::ResumingLater { at: RunOnceStage::Located },
            memory,
            drawn,
            located,
        ).0 == (TurnView::Ask::<InstallStage, ()> {
            action: ActionView::Run { command: run_once_command(), mode: RunMode::Status },
            stage: InstallStage::ResumingLater { at: RunOnceStage::Registered },
        }),
        registered.succeeded() ==> install_next(
            platform,
            program_data,
            InstallStage::ResumingLater { at: RunOnceStage::Registered },
            memory,
            drawn,
            registered,
        ).0 == (TurnView::Finish::<InstallStage, ()> { result: Err(RESTART_REQUEST@) }),
{
}

/// Nothing is installed before the system was found to be recent enough.
#[verifier::spinoff_prover]
pub proof fn law_system_is_checked_first(
    platform: Platform,
    program_data: bool,
    run: Seq<Moment>,
    j: int,
) -> (i: int)
    requires
        is_run(platform, program_data, run),
        0 <= j < run.len(),
        part(run[j].stage) >= 2,
    ensures
        0 <= i < j,
        run[i].stage is Checking,
        checked_system(run[i].event) is Ok,
{
    lemma_crossing(platform, program_data, run, j, 2)
}

/// The admin is installed, and all that comes after it, only once the server has
/// shown that it is up.
#[verifier::spinoff_prover]
pub proof fn law_server_is_up_first(
    platform: Platform,
    program_data: bool,
    run: Seq<Moment>,
    j: int,
) -> (i: int)
    requires
        is_run(platform, program_data, run),
        0 <= j < run.len(),
        part(run[j].stage) >= 8,
    ensures
        0 <= i < j,
        run[i].stage matches InstallStage::Server { at } && at is Asked,
        is_healthy(run[i].event),
{
    lemma_crossing(platform, program_data, run, j, 8)
}

/// The server is waited for only once the silent installer has ended with code
/// zero.
#[verifier::spinoff_prover]
pub proof fn law_dependencies_are_installed_first(
    platform: Platform,
    program_data: bool,
    run: Seq<Moment>,
    j: int,
) -> (i: int)
    requires
        is_run(platform, program_data, run),
        0 <= j < run.len(),
        part(run[j].stage) >= 7,
    ensures
        0 <= i < j,
        run[i].stage == (InstallStage::Dependencies { at: SilentStage::Ran }),
        run[i].event.succeeded(),
{
    lemma_crossing(platform, program_data, run, j, 7)
}

/// The moments of a run in which its steps were done.
pub ghost struct StepMoments {
    pub check: int,
    pub unpack: int,
    pub subsystem: int,
    pub dependencies: int,
    pub server: int,
    pub admin: int,
    pub updater: int,
    pub autostart: int,
}

/// An installation that is announced as complete has done all of its steps, in
/// their order: the system was recent enough, the packed resources were found,
/// the Linux subsystem was there, the silent installer ended with code zero, the
/// server was up, the installer of the admin ended with code zero, the updater
/// service was told to start, and so was the registration of the task that wakes
/// the Linux subsystem.
#[verifier::spinoff_prover]
pub proof fn law_complete_means_installed(
    platform: Platform,
    program_data: bool,
    run: Seq<Moment>,
    j: int,
) -> (steps: StepMoments)
    requires
        is_run(platform, program_data, run),
        0 <= j < run.len(),
        run[j].stage is Announced,
    ensures
        0 <= steps.check < steps.unpack < steps.subsystem < steps.dependencies < steps.server
            < steps.admin < steps.updater < steps.autostart < j,
        run[steps.check].stage is Checking && checked_system(run[steps.check].event) is Ok,
        run[steps.unpack].stage is Locating && !(run[steps.unpack].event is Failed),
        run[steps.subsystem].stage matches InstallStage::Subsystem { at } && wsl_next(
            at,
            run[steps.subsystem].event,
        ) == (TurnView::Finish::<WslStage, bool> { result: Ok(false) }),
        run[steps.dependencies].stage == (InstallStage::Dependencies { at: SilentStage::Ran })
            && run[steps.dependencies].event.succeeded(),
        run[steps.server].stage is Server && is_healthy(run[steps.server].event),
        run[steps.admin].stage == (InstallStage::Admin { at: MsiStage::Install })
            && run[steps.admin].event.succeeded(),
        run[steps.updater].stage == (InstallStage::Updater { at: ServiceStage::Started }),
        run[steps.autostart].stage is Autostart,
{
    let autostart = lemma_crossing(platform, program_data, run, j, 14);
    lemma_cross_late(platform, program_data, run[autostart], run[autostart + 1]);
    let updater = lemma_crossing(platform, program_data, run, autostart, 13);
    lemma_cross_late(platform, program_data, run[updater], run[updater + 1]);
    let admin = lemma_crossing(platform, program_data, run, updater, 10);
    lemma_cross_late(platform, program_data, run[admin], run[admin + 1]);
    let server = lemma_crossing(platform, program_data, run, admin, 8);
    lemma_cross_late(platform, program_data, run[server], run[server + 1]);
    let dependencies = lemma_crossing(platform, program_data, run, server, 7);
    lemma_cross_early(platform, program_data, run[dependencies], run[dependencies + 1]);
    let subsystem = lemma_crossing(platform, program_data, run, dependencies, 6);
    lemma_cross_early(platform, program_data, run[subsystem], run[subsystem + 1]);
    let unpack = lemma_crossing(platform, program_data, run, subsystem, 3);
    lemma_cross_early(platform, program_data, run[unpack], run[unpack + 1]);
    let check = lemma_crossing(platform, program_data, run, unpack, 2);
    lemma_cross_early(platform, program_data, run[check], run[check + 1]);
    StepMoments { check, unpack, subsystem, dependencies, server, admin, updater, autostart }
}

/// The only ways into the parts up to the wait for the server.
#[verifier::spinoff_prover]
proof fn lemma_cross_early(platform: Platform, program_data: bool, from: Moment, to: Moment)
    requires
        from.event.answers(from.stage.awaits()),
        leads_to(platform, program_data, from, to),
    ensures
        part(from.stage) < 2 <= part(to.stage) ==> from.stage is Checking && checked_system(
            from.event,
        ) is Ok,
        part(from.stage) < 3 <= part(to.stage) ==> from.stage is Locating && !(
        from.event is Failed),
        part(from.stage) < 6 <= part(to.stage) ==> (from.stage matches InstallStage::Subsystem { at }
            && wsl_next(at, from.event) == (TurnView::Finish::<WslStage, bool> {
            result: Ok(false),
        })),
        part(from.stage) < 7 <= part(to.stage) ==> from.stage == (InstallStage::Dependencies {
            at: SilentStage::Ran,
        }) && from.event.succeeded(),
{
}

/// The only ways into the parts behind it.
#[verifier::spinoff_prover]
proof fn lemma_cross_late(platform: Platform, program_data: bool, from: Moment, to: Moment)
    requires
        from.event.answers(from.stage.awaits()),
        leads_to(platform, program_data, from, to),
    ensures
        part(from.stage) < 8 <= part(to.stage) ==> from.stage is Server && is_healthy(from.event),
        part(from.stage) < 10 <= part(to.stage) ==> from.stage == (InstallStage::Admin {
            at: MsiStage::Install,
        }) && from.event.succeeded(),
        part(from.stage) < 13 <= part(to.stage) ==> from.stage == (InstallStage::Updater {
            at: ServiceStage::Started,
        }),
        part(from.stage) < 14 <= part(to.stage) ==> from.stage is Autostart,
{
}

// The rows of percents.

/// What a whole installation reports, in percent.
pub open spec fn full_row() -> Seq<u8> {
    seq![2u8, 8, 15, 40, 70, 80, 85, 90, 94, 100]
}

/// What one reports that leads to a restart.
pub open spec fn restart_row() -> Seq<u8> {
    seq![2u8, 8, 15, 25, 30]
}

/// The percents that a run has reported before its moment `n`.
pub open spec fn percents(platform: Platform, program_data: bool, run: Seq<Moment>, n: nat) -> Seq<u8>
    decreases n,
{
    if n == 0 {
        Seq::empty()
    } else {
        let before = percents(platform, program_data, run, (n - 1) as nat);
        match turn_at(platform, program_data, run[n - 1]).0 {
            TurnView::Ask { action: ActionView::Report { percent, .. }, .. } => before.push(percent),
            _ => before,
        }
    }
}

/// What was reported on Windows when a stage is reached.
pub open spec fn row(stage: InstallStage) -> Seq<u8> {
    let p = part(stage);
    if p == 4 || p == 5 {
        restart_row().take(p)
    } else if p <= 3 {
        full_row().take(p)
    } else if p <= 8 {
        full_row().take(p - 2)
    } else if p <= 10 {
        full_row().take(7)
    } else if p <= 12 {
        full_row().take(8)
    } else {
        full_row().take(p - 4)
    }
}

proof fn lemma_rows()
    ensures
        full_row().take(0) == Seq::<u8>::empty(),
        full_row().take(1) == full_row().take(0).push(2),
        full_row().take(2) == full_row().take(1).push(8),
        full_row().take(3) == full_row().take(2).push(15),
        restart_row().take(4) == full_row().take(3).push(25),
        restart_row().take(5) == restart_row().take(4).push(30),
        full_row().take(4) == full_row().take(3).push(40),
        full_row().take(5) == full_row().take(4).push(70),
        full_row().take(6) == full_row().take(5).push(80),
        full_row().take(7) == full_row().take(6).push(85),
        full_row().take(8) == full_row().take(7).push(90),
        full_row().take(9) == full_row().take(8).push(94),
        full_row().take(10) == full_row().take(9).push(100),
        full_row().take(10) == full_row(),
        restart_row().take(5) == restart_row(),
{
    assert(full_row().take(0) =~= Seq::<u8>::empty());
    assert(full_row().take(1) =~= full_row().take(0).push(2));
    assert(full_row().take(2) =~= full_row().take(1).push(8));
    assert(full_row().take(3) =~= full_row().take(2).push(15));
    assert(restart_row().take(4) =~= full_row().take(3).push(25));
    assert(restart_row().take(5) =~= restart_row().take(4).push(30));
    assert(full_row().take(4) =~= full_row().take(3).push(40));
    assert(full_row().take(5) =~= full_row().take(4).push(70));
    assert(full_row().take(6) =~= full_row().take(5).push(80));
    assert(full_row().take(7) =~= full_row().take(6).push(85));
    assert(full_row().take(8) =~= full_row().take(7).push(90));
    assert(full_row().take(9) =~= full_row().take(8).push(94));
    assert(full_row().take(10) =~= full_row().take(9).push(100));
    assert(full_row().take(10) =~= full_row());
    assert(restart_row().take(5) =~= restart_row());
}

proof fn lemma_row_is_prefix(stage: InstallStage)
    ensures
        row(stage).is_prefix_of(full_row()) || row(stage).is_prefix_of(restart_row()),
        part(stage) > 0 ==> row(stage).len() > 0,
{
    let row = row(stage);
    if part(stage) == 4 || part(stage) == 5 {
        assert(restart_row().subrange(0, row.len() as int) =~= row);
    } else {
        assert(full_row().subrange(0, row.len() as int) =~= row);
    }
}

/// How the part and the percent of a step change.
#[verifier::spinoff_prover]
proof fn lemma_part_step(program_data: bool, moment: Moment)
    requires
        moment.event.answers(moment.stage.awaits()),
        !(moment.stage is Refused),
    ensures
        turn_at(Platform::Windows, program_data, moment).0 matches TurnView::Ask { action, stage }
            ==> {
            let (from, to) = (part(moment.stage), part(stage));
            &&& !(stage is Refused)
            &&& action is Report ==> {
                ||| from == 0 && to == 1 && action->percent == 2
                ||| from == 1 && to == 2 && action->percent == 8
                ||| from == 2 && to == 3 && action->percent == 15
                ||| from == 3 && to == 4 && action->percent == 25
                ||| from == 4 && to == 5 && action->percent == 30
                ||| from == 3 && to == 6 && action->percent == 40
                ||| from == 6 && to == 7 && action->percent == 70
                ||| from == 7 && to == 8 && action->percent == 80
                ||| from == 8 && to == 9 && action->percent == 85
                ||| (from == 9 || from == 10) && to == 11 && action->percent == 90
                ||| (from == 11 || from == 12) && to == 13 && action->percent == 94
                ||| from == 13 && to == 14 && action->percent == 100
            }
            &&& !(action is Report) ==> {
                ||| from == to
                ||| from == 9 && to == 10
                ||| from == 11 && to == 12
            }
        },
{
    let event = moment.event;
    let memory = moment.memory;
    match moment.stage {
        InstallStage::Subsystem { at } => {
            lemma_wsl_reports_nothing(at, event);
        },
        InstallStage::Resuming { at } => {
            lemma_run_once_reports_nothing(at, event);
        },
        InstallStage::Dependencies { at } => {
            lemma_silent_reports_nothing(at, program_data, event);
            lemma_run_once_reports_nothing(RunOnceStage::Begin, EventView::Begin);
        },
        InstallStage::ResumingLater { at } => {
            lemma_run_once_reports_nothing(at, event);
        },
        InstallStage::Server { at } => {
            lemma_health_reports_once(at, event);
        },
        InstallStage::Admin { at } => {
            lemma_msi_reports_nothing(at, memory.admin_exe, event);
        },
        InstallStage::Updater { at } => {
            lemma_service_reports_nothing(at, program_data, memory.secret, moment.drawn, event);
        },
        InstallStage::Reported { step } => {
            lemma_shown_begin(step, program_data, memory, moment.drawn);
        },
        _ => {},
    }
}

proof fn lemma_row_step(program_data: bool, moment: Moment)
    requires
        moment.event.answers(moment.stage.awaits()),
        !(moment.stage is Refused),
    ensures
        turn_at(Platform::Windows, program_data, moment).0 matches TurnView::Ask { action, stage }
            ==> !(stage is Refused) && row(stage) == if action is Report {
            row(moment.stage).push(action->percent)
        } else {
            row(moment.stage)
        },
{
    lemma_part_step(program_data, moment);
    lemma_rows();
}

proof fn lemma_percents_are_row(program_data: bool, run: Seq<Moment>, n: nat)
    requires
        is_run(Platform::Windows, program_data, run),
        n < run.len(),
    ensures
        !(run[n as int].stage is Refused),
        percents(Platform::Windows, program_data, run, n) == row(run[n as int].stage),
    decreases n,
{
    lemma_rows();
    if n > 0 {
        lemma_percents_are_row(program_data, run, (n - 1) as nat);
        assert(leads_to(Platform::Windows, program_data, run[n - 1], run[n - 1 + 1]));
        lemma_row_step(program_data, run[n - 1]);
    }
}

/// What a run on Windows reports, from its first step on, is the beginning of one
/// of two rows of percents, and the whole of it where the run succeeds: that of a
/// whole installation, or that of one that leads to a restart.
pub proof fn law_progress_rows(program_data: bool, run: Seq<Moment>)
    requires
        is_run(Platform::Windows, program_data, run),
    ensures
        ({
            let shown = percents(Platform::Windows, program_data, run, run.len());
            let end = turn_at(Platform::Windows, program_data, run.last()).0;
            &&& shown.len() > 0
            &&& shown.is_prefix_of(full_row()) || shown.is_prefix_of(restart_row())
            &&& end == (TurnView::Finish::<InstallStage, ()> { result: Ok(()) }) ==> shown == (
            if run.last().stage is Announced {
                full_row()
            } else {
                restart_row()
            })
        }),
{
    let n = (run.len() - 1) as nat;
    lemma_percents_are_row(program_data, run, n);
    lemma_row_step(program_data, run[n as int]);
    lemma_rows();
    let last = run[n as int];
    lemma_row_is_prefix(last.stage);
    if let TurnView::Ask { stage, .. } = turn_at(Platform::Windows, program_data, last).0 {
        lemma_part_step(program_data, last);
        lemma_row_is_prefix(stage);
    } else {
        lemma_begin_goes_on(program_data, last);
        if turn_at(Platform::Windows, program_data, last).0 == (TurnView::Finish::<InstallStage, ()> {
            result: Ok(()),
        }) {
            law_success_has_two_ways(
                Platform::Windows,
                program_data,
                last.stage,
                last.memory,
                last.drawn,
                last.event,
            );
        }
    }
}

proof fn lemma_begin_goes_on(program_data: bool, moment: Moment)
    requires
        !(moment.stage is Refused),
        turn_at(Platform::Windows, program_data, moment).0 is Finish,
    ensures
        part(moment.stage) > 0,
{
}

/// How far a stage is from the beginning.
pub open spec fn rank(stage: InstallStage) -> int {
    match stage {
        InstallStage::Begin => 0,
        InstallStage::Refused => 1,
        InstallStage::Reported { step } => 100 * part(stage) + 1,
        InstallStage::Checking => 102,
        InstallStage::Locating => 202,
        InstallStage::Subsystem { at } => 302 + match at {
            WslStage::Begin => 0int,
            WslStage::Searched => 1,
            WslStage::Installed => 2,
        },
        InstallStage::Resuming { at } => 402 + match at {
            RunOnceStage::Begin => 0int,
            RunOnceStage::Located => 1,
            RunOnceStage::Registered => 2,
        },
        InstallStage::Restarting => 502,
        InstallStage::Dependencies { at } => 602 + match at {
            SilentStage::Begin => 0int,
            SilentStage::Searched => 1,
            SilentStage::Ran => 2,
            SilentStage::Explained { .. } => 3,
        },
        InstallStage::ResumingLater { at } => 606 + match at {
            RunOnceStage::Begin => 0int,
            RunOnceStage::Located => 1,
            RunOnceStage::Registered => 2,
        },
        InstallStage::Server { .. } => 702,
        InstallStage::Admin { at } => 902 + match at {
            MsiStage::Begin => 0int,
            MsiStage::Metadata => 1,
            MsiStage::Download => 2,
            MsiStage::Install => 3,
            MsiStage::Cleanup => 4,
        },
        InstallStage::Updater { at } => 1102 + at.rank(),
        InstallStage::Autostart => 1302,
        InstallStage::Announced => 1402,
    }
}

/// Every step leads on, and none back. Only the wait for the server goes round,
/// and that ends by the clock.
#[verifier::spinoff_prover]
pub proof fn law_install_moves_on(
    platform: Platform,
    program_data: bool,
    stage: InstallStage,
    memory: MemoryView,
    drawn: Result<Seq<char>, Seq<char>>,
    event: EventView,
)
    requires
        event.answers(stage.awaits()),
    ensures
        install_next(platform, program_data, stage, memory, drawn, event).0 matches TurnView::Ask {
            stage: next,
            ..
        } ==> rank(stage) < rank(next) <= 1402 || (stage is Server && next is Server),
{
}

#[verifier::spinoff_prover]
proof fn lemma_secret_step(platform: Platform, program_data: bool, from: Moment, to: Moment)
    requires
        from.event.answers(from.stage.awaits()),
        leads_to(platform, program_data, from, to),
        rank(from.stage) >= rank(InstallStage::Updater { at: ServiceStage::SecretRegistered }),
    ensures
        to.memory.secret == from.memory.secret,
        rank(to.stage) >= rank(from.stage),
{
    law_install_moves_on(
        platform,
        program_data,
        from.stage,
        from.memory,
        from.drawn,
        from.event,
    );
}

#[verifier::spinoff_prover]
proof fn lemma_secret_kept(
    platform: Platform,
    program_data: bool,
    run: Seq<Moment>,
    i: int,
    j: int,
)
    requires
        is_run(platform, program_data, run),
        0 <= i <= j < run.len(),
        run[i].stage == (InstallStage::Updater { at: ServiceStage::SecretRegistered }),
    ensures
        run[j].memory.secret == run[i].memory.secret,
        rank(run[j].stage) >= rank(run[i].stage),
    decreases j - i,
{
    if i < j {
        lemma_secret_kept(platform, program_data, run, i, j - 1);
        assert(leads_to(platform, program_data, run[j - 1], run[j - 1 + 1]));
        lemma_secret_step(platform, program_data, run[j - 1], run[j]);
    }
}

#[verifier::spinoff_prover]
proof fn lemma_secret_requests(platform: Platform, program_data: bool, moment: Moment)
    requires
        moment.event.answers(moment.stage.awaits()),
    ensures
        turn_at(platform, program_data, moment).0 matches TurnView::Ask { action, stage } ==> {
            let secret = turn_at(platform, program_data, moment).1.secret;
            &&& stage == (InstallStage::Updater { at: ServiceStage::SecretRegistered }) ==> action
                == service_request(ServiceStage::SecretRegistered, secret)
            &&& stage == (InstallStage::Updater { at: ServiceStage::SecretWritten }) ==> action
                == service_request(ServiceStage::SecretWritten, secret) && secret
                == moment.memory.secret
        },
{
}

/// The secret that is put into the file is the one that was put into the
/// registry.
#[verifier::spinoff_prover]
pub proof fn law_secret_is_shared(
    platform: Platform,
    program_data: bool,
    run: Seq<Moment>,
    i: int,
    j: int,
) -> (secret: Seq<char>)
    requires
        is_run(platform, program_data, run),
        0 <= i < j < run.len(),
        turn_at(platform, program_data, run[i]).0 matches TurnView::Ask {
            stage: InstallStage::Updater { at: ServiceStage::SecretRegistered },
            ..
        },
        turn_at(platform, program_data, run[j]).0 matches TurnView::Ask {
            stage: InstallStage::Updater { at: ServiceStage::SecretWritten },
            ..
        },
    ensures
        turn_at(platform, program_data, run[i]).0->action == service_request(
            ServiceStage::SecretRegistered,
            secret,
        ),
        turn_at(platform, program_data, run[j]).0->action == service_request(
            ServiceStage::SecretWritten,
            secret,
        ),
{
    lemma_secret_requests(platform, program_data, run[i]);
    lemma_secret_requests(platform, program_data, run[j]);
    assert(leads_to(platform, program_data, run[i], run[i + 1]));
    lemma_secret_kept(platform, program_data, run, i + 1, j);
    turn_at(platform, program_data, run[i]).1.secret
}

/// Off Windows nothing is done but to report that, and the installation fails.
pub proof fn law_other_systems_are_left_alone(program_data: bool, run: Seq<Moment>, j: int)
    requires
        is_run(Platform::Other, program_data, run),
        0 <= j < run.len(),
    ensures
        j == 0 || run[j].stage is Refused,
        turn_at(Platform::Other, program_data, run[j]).0 == if j == 0 {
            TurnView::Ask {
                action: ActionView::Report { percent: 0, message: "Solo Windows soportado."@ },
                stage: InstallStage::Refused,
            }
        } else {
            TurnView::Finish {
                result: Err::<(), Seq<char>>("This bootstrapper only runs on Windows."@),
            }
        },
    decreases j,
{
    if j > 0 {
        law_other_systems_are_left_alone(program_data, run, j - 1);
        assert(leads_to(Platform::Other, program_data, run[j - 1], run[j - 1 + 1]));
    }
}

/// What follows in the stages that are no procedure of their own. The installation
/// goes on where, and only where, the system is Windows, and recent enough, and the
/// packed resources were found; a restart that could not be made fails it; and what
/// fails is named. The reply to the task that wakes the Linux subsystem makes no
/// difference.
pub proof fn law_single_replies(
    platform: Platform,
    program_data: bool,
    memory: MemoryView,
    drawn: Result<Seq<char>, Seq<char>>,
    event: EventView,
)
    ensures
        ({
            let step = |stage: InstallStage|
                install_next(platform, program_data, stage, memory, drawn, event);
            let ends = |result: Result<(), Seq<char>>|
                TurnView::Finish::<InstallStage, ()> { result };
            &&& step(InstallStage::Begin) == (
                match platform {
                    Platform::Windows => report(Step::Check),
                    Platform::Other => TurnView::Ask {
                        action: ActionView::Report {
                            percent: 0,
                            message: "Solo Windows soportado."@,
                        },
                        stage: InstallStage::Refused,
                    },
                },
                memory,
            )
            &&& step(InstallStage::Refused) == (
                ends(Err("This bootstrapper only runs on Windows."@)),
                memory,
            )
            &&& step(InstallStage::Checking) == (
                match checked_system(event) {
                    Ok(_) => report(Step::Unpack),
                    Err(error) => ends(Err(error)),
                },
                memory,
            )
            &&& step(InstallStage::Locating) == (
                match event {
                    EventView::Failed { error } => ends(Err("resource_dir: "@ + error)),
                    _ => report(Step::Subsystem),
                },
                memory,
            )
            &&& step(InstallStage::Restarting) == (
                match event {
                    EventView::Failed { error } => ends(Err("shutdown: "@ + error)),
                    _ => ends(Ok(())),
                },
                memory,
            )
            &&& step(InstallStage::Autostart) == (report(Step::Done), memory)
            &&& step(InstallStage::Announced) == (ends(Ok(())), memory)
        }),
{
}

/// What the user is told when a step begins, and how much is done by then.
pub proof fn law_step_reports(step: Step)
    ensures
        report(step) == (TurnView::Ask::<InstallStage, ()> {
            action: match step {
                Step::Check => ActionView::Report {
                    percent: 2,
                    message: "Verificando requisitos del sistema..."@,
                },
                Step::Unpack => ActionView::Report {
                    percent: 8,
                    message: "Descomprimiendo recursos..."@,
                },
                Step::Subsystem => ActionView::Report {
                    percent: 15,
                    message: "Preparando entorno..."@,
                },
                Step::Resume => ActionView::Report {
                    percent: 25,
                    message: "Configurando reanudacion despues del reboot..."@,
                },
                Step::Restart => ActionView::Report {
                    percent: 30,
                    message: "Reiniciando equipo..."@,
                },
                Step::Dependencies => ActionView::Report {
                    percent: 40,
                    message: "Instalando dependencias..."@,
                },
                Step::Server => ActionView::Report {
                    percent: 70,
                    message: "Instalando base de datos y servidor..."@,
                },
                Step::Admin => ActionView::Report {
                    percent: 85,
                    message: "Descargando e instalando el panel..."@,
                },
                Step::Updater => ActionView::Report {
                    percent: 90,
                    message: "Registrando servicio de actualizaciones..."@,
                },
                Step::Autostart => ActionView::Report {
                    percent: 94,
                    message: "Configurando arranque automatico al boot..."@,
                },
                Step::Done => ActionView::Report {
                    percent: 100,
                    message: "Listo. OctoPOS esta instalado."@,
                },
            },
            stage: InstallStage::Reported { step },
        }),
{
}

/// A step that was reported is begun, whatever came of the report and whatever was
/// done before: a procedure of its own from its beginning, and any other step by its
/// one request. Nothing is forgotten by that.
#[verifier::spinoff_prover]
pub proof fn law_reported_step_begins(
    platform: Platform,
    program_data: bool,
    step: Step,
    memory: MemoryView,
    drawn: Result<Seq<char>, Seq<char>>,
    event: EventView,
)
    ensures
        ({
            let at = |stage: InstallStage, event: EventView|
                install_next(platform, program_data, stage, memory, drawn, event);
            let begun = |stage: InstallStage| at(stage, EventView::Begin);
            let asks = |action: ActionView, stage: InstallStage|
                (TurnView::Ask::<InstallStage, ()> { action, stage }, memory);
            let run = |command: CommandView, mode: RunMode| ActionView::Run { command, mode };
            at(InstallStage::Reported { step }, event) == match step {
                Step::Check => asks(
                    run(plain("cmd"@, seq!["/c"@, "ver"@]), RunMode::Output),
                    InstallStage::Checking,
                ),
                Step::Unpack => asks(ActionView::LocateResources, InstallStage::Locating),
                Step::Subsystem => begun(InstallStage::Subsystem { at: WslStage::Begin }),
                Step::Resume => begun(InstallStage::Resuming { at: RunOnceStage::Begin }),
                Step::Restart => asks(
                    run(plain("shutdown"@, seq!["/r"@, "/t"@, "5"@]), RunMode::Status),
                    InstallStage::Restarting,
                ),
                Step::Dependencies => begun(InstallStage::Dependencies { at: SilentStage::Begin }),
                Step::Server => begun(InstallStage::Server { at: HealthStage::Begin }),
                Step::Admin => begun(InstallStage::Admin { at: MsiStage::Begin }),
                Step::Updater => begun(InstallStage::Updater { at: ServiceStage::Begin }),
                Step::Autostart => asks(
                    run(
                        plain(
                            "schtasks"@,
                            seq![
                                "/create"@,
                                "/tn"@,
                                "OctoPOS WSL Autostart"@,
                                "/tr"@,
                                "wsl -d Ubuntu-22.04 --exec /bin/true"@,
                                "/sc"@,
                                "onstart"@,
                                "/ru"@,
                                "SYSTEM"@,
                                "/rl"@,
                                "HIGHEST"@,
                                "/f"@,
                            ],
                        ),
                        RunMode::Status,
                    ),
                    InstallStage::Autostart,
                ),
                Step::Done => asks(ActionView::Announce, InstallStage::Announced),
            }
        }),
{
}

/// While one of the procedures before the admin is under way, each of its requests
/// is passed on as it is, a failure of it ends the installation, and its success has
/// the next step reported: the silent installer behind a subsystem that was there,
/// and the way to a restart behind one that was installed. A restart that the silent
/// installer asks for is prepared first, and then asked of the user.
#[verifier::spinoff_prover]
pub proof fn law_preparations_are_followed(
    platform: Platform,
    program_data: bool,
    wsl: WslStage,
    run_once: RunOnceStage,
    silent: SilentStage,
    health: HealthStage,
    memory: MemoryView,
    drawn: Result<Seq<char>, Seq<char>>,
    event: EventView,
)
    ensures
        ({
            let step = |stage: InstallStage|
                install_next(platform, program_data, stage, memory, drawn, event);
            let asks = |action: ActionView, stage: InstallStage|
                (TurnView::Ask::<InstallStage, ()> { action, stage }, memory);
            let fails = |error: Seq<char>|
                (TurnView::Finish::<InstallStage, ()> { result: Err(error) }, memory);
            &&& step(InstallStage::Subsystem { at: wsl }) == match wsl_next(wsl, event) {
                TurnView::Ask { action, stage } => asks(
                    action,
                    InstallStage::Subsystem { at: stage },
                ),
                TurnView::Finish { result: Ok(true) } => (report(Step::Resume), memory),
                TurnView::Finish { result: Ok(false) } => (report(Step::Dependencies), memory),
                TurnView::Finish { result: Err(error) } => fails(error),
            }
            &&& step(InstallStage::Resuming { at: run_once }) == match run_once_next(
                run_once,
                event,
            ) {
                TurnView::Ask { action, stage } => asks(
                    action,
                    InstallStage::Resuming { at: stage },
                ),
                TurnView::Finish { result: Ok(_) } => (report(Step::Restart), memory),
                TurnView::Finish { result: Err(error) } => fails(error),
            }
            &&& step(InstallStage::ResumingLater { at: run_once }) == match run_once_next(
                run_once,
                event,
            ) {
                TurnView::Ask { action, stage } => asks(
                    action,
                    InstallStage::ResumingLater { at: stage },
                ),
                TurnView::Finish { result: Ok(_) } => fails("__REBOOT_REQUIRED__"@),
                TurnView::Finish { result: Err(error) } => fails(error),
            }
            &&& step(InstallStage::Dependencies { at: silent }) == if silent is Ran && (event
                matches EventView::Exited { code, .. } && code == Some(3i32)) {
                asks(
                    ActionView::LocateSelf,
                    InstallStage::ResumingLater { at: RunOnceStage::Located },
                )
            } else {
                match silent_next(silent, program_data, event) {
                    TurnView::Ask { action, stage } => asks(
                        action,
                        InstallStage::Dependencies { at: stage },
                    ),
                    TurnView::Finish { result: Ok(_) } => (report(Step::Server), memory),
                    TurnView::Finish { result: Err(error) } => fails(error),
                }
            }
            &&& step(InstallStage::Server { at: health }) == match health_next(health, event) {
                TurnView::Ask { action, stage } => asks(action, InstallStage::Server { at: stage }),
                TurnView::Finish { result: Ok(_) } => (report(Step::Admin), memory),
                TurnView::Finish { result: Err(error) } => fails(error),
            }
        }),
{
}

/// The same of the admin and of its updater service. What each of them keeps is
/// kept, and what the other keeps is left as it is.
#[verifier::spinoff_prover]
pub proof fn law_admin_and_updater_are_followed(
    platform: Platform,
    program_data: bool,
    admin: MsiStage,
    service: ServiceStage,
    memory: MemoryView,
    drawn: Result<Seq<char>, Seq<char>>,
    event: EventView,
)
    ensures
        ({
            let step = |stage: InstallStage|
                install_next(platform, program_data, stage, memory, drawn, event);
            let asks = |action: ActionView, stage: InstallStage|
                TurnView::Ask::<InstallStage, ()> { action, stage };
            let fails = |error: Seq<char>|
                TurnView::Finish::<InstallStage, ()> { result: Err(error) };
            let (fetched, name) = msi_next(admin, memory.admin_exe, event);
            let (served, secret) = service_next(
                service,
                program_data,
                memory.secret,
                drawn,
                event,
            );
            &&& step(InstallStage::Admin { at: admin }) == (
                match fetched {
                    TurnView::Ask { action, stage } => asks(
                        action,
                        InstallStage::Admin { at: stage },
                    ),
                    TurnView::Finish { result: Ok(_) } => report(Step::Updater),
                    TurnView::Finish { result: Err(error) } => fails(error),
                },
                MemoryView { admin_exe: name, secret: memory.secret },
            )
            &&& step(InstallStage::Updater { at: service }) == (
                match served {
                    TurnView::Ask { action, stage } => asks(
                        action,
                        InstallStage::Updater { at: stage },
                    ),
                    TurnView::Finish { result: Ok(_) } => report(Step::Autostart),
                    TurnView::Finish { result: Err(error) } => fails(error),
                },
                MemoryView { admin_exe: memory.admin_exe, secret },
            )
        }),
{
}

/// A secret can be drawn only while the updater service is being registered.
pub proof fn law_install_draws_for_updater(
    stage: InstallStage,
    at: ServiceStage,
    event: EventView,
    drawn: Result<Seq<char>, Seq<char>>,
)
    ensures
        install_can_draw(InstallStage::Updater { at }, event, drawn) <==> can_be_drawn(
            at,
            event,
            drawn,
        ),
        !(stage is Updater) ==> (install_can_draw(stage, event, drawn) <==> drawn == Ok::<
            Seq<char>,
            Seq<char>,
        >(Seq::empty())),
{
}

} // verus!
