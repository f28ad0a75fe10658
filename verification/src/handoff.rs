//! What surrounds the installation: starting this program again with
//! administrator rights, opening the log, and starting the admin at the end.
use vstd::prelude::*;
use vstd::string::*;

use crate::effect::{
    Action, ActionView, Awaited, CommandLine, CommandView, Event, EventView, Place, PlaceView,
    Platform, Root, RunMode, Turn, TurnView, Word, WordView, below2, failure, place, place2,
    plain, plain_command, words,
};
use crate::prepare::{setup_log, setup_log_path};
use crate::system::is_elevated;
use crate::text::{append_quoted, law_quoted_read_back, quoted, read_literal};

verus! {

/// The directory of the installed programs, given the environment variable
/// `ProgramFiles`.
pub open spec fn program_files(variable: Option<Seq<char>>) -> Seq<char> {
    match variable {
        Some(dir) => dir,
        None => "C:\\Program Files"@,
    }
}

/// Finds the directory of the installed programs.
pub fn program_files_dir(variable: Option<String>) -> (dir: String)
    ensures
        dir@ == program_files(
            match variable {
                Some(text) => Some(text@),
                None => None,
            },
        ),
{
    match variable {
        Some(dir) => dir,
        None => "C:\\Program Files".to_string(),
    }
}

/// A PowerShell command that is run without the user's profile.
pub open spec fn powershell(script: Seq<char>) -> CommandView {
    plain("powershell"@, seq!["-NoProfile"@, "-Command"@, script])
}

/// Makes a PowerShell command.
pub fn powershell_command(script: &str) -> (command: CommandLine)
    ensures
        command@ == powershell(script@),
{
    let command = plain_command("powershell", &["-NoProfile", "-Command", script]);
    assert(command@.args =~= words(seq!["-NoProfile"@, "-Command"@, script@]));
    command
}

// Administrator rights.

/// What this program does when it is started.
#[derive(Debug, Clone, Copy, PartialEq, Eq, Structural)]
pub enum Startup {
    /// Open the window.
    Window,
    /// Start again with administrator rights, and end.
    Relaunch,
}

/// Decides what this program does when it is started, given the reply to
/// `elevation_query`: on Windows the window opens only with administrator
/// rights. Elsewhere nothing is asked.
pub fn startup(platform: Platform, reply: &Event) -> (next: Startup)
    ensures
        next == Startup::Window <==> platform == Platform::Other || reply@.succeeded(),
{
    match platform {
        Platform::Windows => {
            if is_elevated(reply) {
                Startup::Window
            } else {
                Startup::Relaunch
            }
        },
        Platform::Other => Startup::Window,
    }
}

/// How far the new start has come.
#[derive(Debug, Clone, Copy, PartialEq, Eq, Structural)]
pub enum RelaunchStage {
    /// Nothing was asked yet.
    Begin,
    /// The file of this process was asked for.
    Located,
    /// The new process is being started.
    Started,
}

impl RelaunchStage {
    /// The events that can come in this stage.
    pub open spec fn awaits(self) -> Awaited {
        match self {
            RelaunchStage::Begin => Awaited::Begin,
            RelaunchStage::Located => Awaited::Location,
            RelaunchStage::Started => Awaited::Completion,
        }
    }
}

/// The script that starts a program with administrator rights.
pub open spec fn relaunch_script(exe: Seq<char>) -> Seq<char> {
    "Start-Process -FilePath "@ + quoted(exe) + " -Verb RunAs"@
}

/// The step that follows an event.
pub open spec fn relaunch_next(stage: RelaunchStage, event: EventView) -> TurnView<
    RelaunchStage,
    (),
> {
    match (stage, event) {
        (RelaunchStage::Begin, _) => TurnView::Ask {
            action: ActionView::LocateSelf,
            stage: RelaunchStage::Located,
        },
        (RelaunchStage::Located, EventView::Failed { error }) => TurnView::Finish {
            result: Err("current_exe: "@ + error),
        },
        (RelaunchStage::Located, EventView::Rendered { text }) => TurnView::Ask {
            action: ActionView::Run {
                command: powershell(relaunch_script(text)),
                mode: RunMode::Spawn,
            },
            stage: RelaunchStage::Started,
        },
        (RelaunchStage::Started, EventView::Failed { error }) => TurnView::Finish {
            result: Err("spawn elevated child: "@ + error),
        },
        _ => TurnView::Finish { result: Ok(()) },
    }
}

/// Starts this program again with administrator rights, which has Windows ask
/// the user for consent.
pub fn relaunch_as_admin(stage: RelaunchStage, event: &Event) -> (turn: Turn<RelaunchStage, ()>)
    requires
        event@.answers(stage.awaits()),
    ensures
        turn@ == relaunch_next(stage, event@),
        turn@ matches TurnView::Ask { action, stage: next } ==> action.awaited() == next.awaits(),
{
    match (stage, event) {
        (RelaunchStage::Begin, _) => Turn::Ask {
            action: Action::LocateSelf,
            stage: RelaunchStage::Located,
        },
        (RelaunchStage::Located, Event::Failed { error }) => Turn::Finish {
            result: Err(failure("current_exe: ", error.as_str())),
        },
        (RelaunchStage::Located, Event::Rendered { text }) => {
            let mut script = "Start-Process -FilePath ".to_string();
            append_quoted(&mut script, text.as_str());
            script.append(" -Verb RunAs");
            Turn::Ask {
                action: Action::Run {
                    command: powershell_command(script.as_str()),
                    mode: RunMode::Spawn,
                },
                stage: RelaunchStage::Started,
            }
        },
        (RelaunchStage::Started, Event::Failed { error }) => Turn::Finish {
            result: Err(failure("spawn elevated child: ", error.as_str())),
        },
        _ => Turn::Finish { result: Ok(()) },
    }
}

/// The literal in the script is read as the path that was put there, whatever
/// apostrophes are in it, and what follows it as the rest of the command.
pub proof fn law_relaunch_well_formed(exe: Seq<char>)
    ensures
        "Start-Process -FilePath "@.is_prefix_of(relaunch_script(exe)),
        read_literal(relaunch_script(exe).skip("Start-Process -FilePath "@.len() as int + 1))
            == Some((exe, " -Verb RunAs"@)),
{
    let head = "Start-Process -FilePath "@;
    let tail = " -Verb RunAs"@;
    reveal_strlit(" -Verb RunAs");
    assert(relaunch_script(exe).subrange(0, head.len() as int) =~= head);
    assert(relaunch_script(exe).skip(head.len() as int + 1) =~= (quoted(exe) + tail).skip(1));
    law_quoted_read_back(exe, tail);
}

// The log.

/// How far the opening of the log has come.
#[derive(Debug, Clone, Copy, PartialEq, Eq, Structural)]
pub enum OpenLogStage {
    /// Nothing was asked yet.
    Begin,
    /// The log is being looked for.
    Searched,
    /// The editor is being started.
    Opened,
}

impl OpenLogStage {
    /// The events that can come in this stage.
    pub open spec fn awaits(self) -> Awaited {
        match self {
            OpenLogStage::Begin => Awaited::Begin,
            OpenLogStage::Searched => Awaited::Presence,
            OpenLogStage::Opened => Awaited::Completion,
        }
    }
}

/// The command that shows the log.
pub open spec fn notepad_command(program_data: bool) -> CommandView {
    CommandView {
        program: WordView::Text("notepad"@),
        args: seq![WordView::Native(setup_log(program_data))],
        env: Seq::empty(),
    }
}

/// The step that follows an event.
pub open spec fn open_log_next(
    platform: Platform,
    stage: OpenLogStage,
    program_data: bool,
    event: EventView,
) -> TurnView<OpenLogStage, ()> {
    match (platform, stage, event) {
        (Platform::Other, _, _) => TurnView::Finish { result: Err("Solo Windows."@) },
        (_, OpenLogStage::Begin, _) => TurnView::Ask {
            action: ActionView::Probe { place: setup_log(program_data) },
            stage: OpenLogStage::Searched,
        },
        (_, OpenLogStage::Searched, EventView::Missing { display, .. }) => TurnView::Finish {
            result: Err(display + " no existe (todavia)."@),
        },
        (_, OpenLogStage::Searched, _) => TurnView::Ask {
            action: ActionView::Run {
                command: notepad_command(program_data),
                mode: RunMode::Spawn,
            },
            stage: OpenLogStage::Opened,
        },
        (_, OpenLogStage::Opened, EventView::Failed { error }) => TurnView::Finish {
            result: Err("notepad: "@ + error),
        },
        (_, OpenLogStage::Opened, _) => TurnView::Finish { result: Ok(()) },
    }
}

/// Opens the log of the installation in an editor.
pub fn open_setup_log(platform: Platform, stage: OpenLogStage, program_data: bool, event: &Event) -> (turn: Turn<
    OpenLogStage,
    (),
>)
    requires
        event@.answers(stage.awaits()),
    ensures
        turn@ == open_log_next(platform, stage, program_data, event@),
        turn@ matches TurnView::Ask { action, stage: next } ==> action.awaited() == next.awaits(),
{
    match (platform, stage, event) {
        (Platform::Other, _, _) => Turn::Finish { result: Err("Solo Windows.".to_string()) },
        (_, OpenLogStage::Begin, _) => Turn::Ask {
            action: Action::Probe { place: setup_log_path(program_data) },
            stage: OpenLogStage::Searched,
        },
        (_, OpenLogStage::Searched, Event::Missing { display, .. }) => Turn::Finish {
            result: Err(failure(display.as_str(), " no existe (todavia).")),
        },
        (_, OpenLogStage::Searched, _) => {
            let mut args: Vec<Word> = Vec::new();
            args.push(Word::Native(setup_log_path(program_data)));
            let command = CommandLine {
                program: Word::Text("notepad".to_string()),
                args,
                env: Vec::new(),
            };
            assert(command@.args =~= notepad_command(program_data).args);
            assert(command@.env =~= Seq::empty());
            Turn::Ask {
                action: Action::Run { command, mode: RunMode::Spawn },
                stage: OpenLogStage::Opened,
            }
        },
        (_, OpenLogStage::Opened, Event::Failed { error }) => Turn::Finish {
            result: Err(failure("notepad: ", error.as_str())),
        },
        (_, OpenLogStage::Opened, _) => Turn::Finish { result: Ok(()) },
    }
}

// Starting the admin.

/// The names that the admin's program may have.
#[derive(Debug, Clone, Copy, PartialEq, Eq, Structural)]
pub enum AdminExe {
    /// The name of the package that it is built from.
    Current,
    /// The name of the product, which older versions used.
    Legacy,
}

/// Where the admin's program is under that name.
pub open spec fn admin_place(exe: AdminExe) -> PlaceView {
    below2(
        Root::ProgramFiles,
        "OctoPOS Admin"@,
        match exe {
            AdminExe::Current => "octopos-admin.exe"@,
            AdminExe::Legacy => "OctoPOS Admin.exe"@,
        },
    )
}

/// Makes the path of the admin's program.
pub fn place_of_admin(exe: AdminExe) -> (made: Place)
    ensures
        made@ == admin_place(exe),
{
    match exe {
        AdminExe::Current => place2(Root::ProgramFiles, "OctoPOS Admin", "octopos-admin.exe"),
        AdminExe::Legacy => place2(Root::ProgramFiles, "OctoPOS Admin", "OctoPOS Admin.exe"),
    }
}

/// Under which name the admin's program is taken to be: the first that is
/// there, or the current one where none is.
pub open spec fn admin_exe(current: bool, legacy: bool) -> AdminExe {
    if !current && legacy {
        AdminExe::Legacy
    } else {
        AdminExe::Current
    }
}

/// Finds the name of the admin's program, given which of them are there.
pub fn admin_exe_path(current: bool, legacy: bool) -> (exe: AdminExe)
    ensures
        exe == admin_exe(current, legacy),
        current || legacy ==> match exe {
            AdminExe::Current => current,
            AdminExe::Legacy => legacy,
        },
{
    if !current && legacy {
        AdminExe::Legacy
    } else {
        AdminExe::Current
    }
}

/// How far the start of the admin has come.
#[derive(Debug, Clone, Copy, PartialEq, Eq, Structural)]
pub enum LaunchStage {
    /// Nothing was asked yet.
    Begin,
    /// Its program is being looked for under the current name.
    Current,
    /// And under the old name.
    Legacy,
    /// The program that was settled on is being looked for.
    Settled { exe: AdminExe },
    /// It is being started.
    Started,
}

impl LaunchStage {
    /// The events that can come in this stage.
    pub open spec fn awaits(self) -> Awaited {
        match self {
            LaunchStage::Begin => Awaited::Begin,
            LaunchStage::Current => Awaited::Presence,
            LaunchStage::Legacy => Awaited::Presence,
            LaunchStage::Settled { .. } => Awaited::Presence,
            LaunchStage::Started => Awaited::Completion,
        }
    }
}

/// The command that starts the admin.
pub open spec fn admin_command(exe: AdminExe) -> CommandView {
    CommandView {
        program: WordView::Path(admin_place(exe)),
        args: Seq::empty(),
        env: Seq::empty(),
    }
}

/// The step that follows an event.
pub open spec fn launch_next(stage: LaunchStage, event: EventView) -> TurnView<LaunchStage, ()> {
    match (stage, event) {
        (LaunchStage::Begin, _) => TurnView::Ask {
            action: ActionView::Probe { place: admin_place(AdminExe::Current) },
            stage: LaunchStage::Current,
        },
        (LaunchStage::Current, EventView::Missing { .. }) => TurnView::Ask {
            action: ActionView::Probe { place: admin_place(AdminExe::Legacy) },
            stage: LaunchStage::Legacy,
        },
        (LaunchStage::Current, _) => TurnView::Ask {
            action: ActionView::Probe { place: admin_place(AdminExe::Current) },
            stage: LaunchStage::Settled { exe: admin_exe(true, false) },
        },
        (LaunchStage::Legacy, _) => TurnView::Ask {
            action: ActionView::Probe { place: admin_place(admin_exe(false, event is Found)) },
            stage: LaunchStage::Settled { exe: admin_exe(false, event is Found) },
        },
        (LaunchStage::Settled { .. }, EventView::Missing { display, .. }) => TurnView::Finish {
            result: Err(
                "El admin no se encontro en "@ + display
                    + ". La instalacion del .msi quizas fallo en silencio."@,
            ),
        },
        (LaunchStage::Settled { exe }, _) => TurnView::Ask {
            action: ActionView::Run { command: admin_command(exe), mode: RunMode::Spawn },
            stage: LaunchStage::Started,
        },
        (LaunchStage::Started, EventView::Failed { error }) => TurnView::Finish {
            result: Err("no pude lanzar el admin: "@ + error),
        },
        (LaunchStage::Started, _) => TurnView::Finish { result: Ok(()) },
    }
}

fn run_admin(exe: AdminExe) -> (command: CommandLine)
    ensures
        command@ == admin_command(exe),
{
    let command = CommandLine {
        program: Word::Path(place_of_admin(exe)),
        args: Vec::new(),
        env: Vec::new(),
    };
    assert(command@.args =~= Seq::empty());
    assert(command@.env =~= Seq::empty());
    command
}

/// Starts the admin.
pub fn launch_admin(stage: LaunchStage, event: &Event) -> (turn: Turn<LaunchStage, ()>)
    requires
        event@.answers(stage.awaits()),
    ensures
        turn@ == launch_next(stage, event@),
        turn@ matches TurnView::Ask { action, stage: next } ==> action.awaited() == next.awaits(),
{
    match (stage, event) {
        (LaunchStage::Begin, _) => Turn::Ask {
            action: Action::Probe { place: place_of_admin(AdminExe::Current) },
            stage: LaunchStage::Current,
        },
        (LaunchStage::Current, Event::Missing { .. }) => Turn::Ask {
            action: Action::Probe { place: place_of_admin(AdminExe::Legacy) },
            stage: LaunchStage::Legacy,
        },
        (LaunchStage::Current, _) => {
            let exe = admin_exe_path(true, false);
            Turn::Ask {
                action: Action::Probe { place: place_of_admin(exe) },
                stage: LaunchStage::Settled { exe },
            }
        },
        (LaunchStage::Legacy, _) => {
            let found: bool = match event {
                Event::Found => true,
                _ => false,
            };
            let exe = admin_exe_path(false, found);
            Turn::Ask {
                action: Action::Probe { place: place_of_admin(exe) },
                stage: LaunchStage::Settled { exe },
            }
        },
        (LaunchStage::Settled { .. }, Event::Missing { display, .. }) => {
            let mut message = failure("El admin no se encontro en ", display.as_str());
            message.append(". La instalacion del .msi quizas fallo en silencio.");
            Turn::Finish { result: Err(message) }
        },
        (LaunchStage::Settled { exe }, _) => Turn::Ask {
            action: Action::Run { command: run_admin(exe), mode: RunMode::Spawn },
            stage: LaunchStage::Started,
        },
        (LaunchStage::Started, Event::Failed { error }) => Turn::Finish {
            result: Err(failure("no pude lanzar el admin: ", error.as_str())),
        },
        (LaunchStage::Started, _) => Turn::Finish { result: Ok(()) },
    }
}

/// The admin is started from a file that was just found, under the first of its
/// names that is there.
pub proof fn law_admin_is_there(stage: LaunchStage, event: EventView)
    requires
        event.answers(stage.awaits()),
    ensures
        launch_next(stage, event) matches TurnView::Ask { action: ActionView::Run { command, .. }, .. }
            ==> (stage matches LaunchStage::Settled { exe } && event is Found && command
            == admin_command(exe)),
        launch_next(stage, event) matches TurnView::Ask { stage: LaunchStage::Settled { exe }, .. }
            ==> match exe {
            AdminExe::Legacy => stage is Legacy && event is Found,
            AdminExe::Current => stage is Current && event is Found || stage is Legacy && event
                is Missing,
        },
{
}

/// The directory of the installed programs is the one that the environment names,
/// whatever it is.
pub proof fn law_program_files(dir: Seq<char>)
    ensures
        program_files(Some(dir)) == dir,
        program_files(None) == "C:\\Program Files"@,
{
}

/// The program that is started again is the one that runs, by the path that the
/// system gives for it; what fails is named.
pub proof fn law_relaunch(exe: Seq<char>, error: Seq<char>)
    ensures
        relaunch_next(RelaunchStage::Located, EventView::Rendered { text: exe }) matches TurnView::Ask {
            action: ActionView::Run { command, mode },
            stage,
        } && stage is Started && mode is Spawn && command.program == WordView::Text("powershell"@)
            && command.env.len() == 0 && command.args == seq![
            WordView::Text("-NoProfile"@),
            WordView::Text("-Command"@),
            WordView::Text("Start-Process -FilePath "@ + quoted(exe) + " -Verb RunAs"@),
        ],
        relaunch_next(RelaunchStage::Begin, EventView::Begin) == (TurnView::Ask::<
            RelaunchStage,
            (),
        > { action: ActionView::LocateSelf, stage: RelaunchStage::Located }),
        relaunch_next(RelaunchStage::Located, EventView::Failed { error }) == (TurnView::Finish::<
            RelaunchStage,
            (),
        > { result: Err("current_exe: "@ + error) }),
        relaunch_next(RelaunchStage::Started, EventView::Done) == (TurnView::Finish::<
            RelaunchStage,
            (),
        > { result: Ok(()) }),
        relaunch_next(RelaunchStage::Started, EventView::Failed { error }) == (TurnView::Finish::<
            RelaunchStage,
            (),
        > { result: Err("spawn elevated child: "@ + error) }),
{
    assert(powershell(relaunch_script(exe)).args =~= seq![
        WordView::Text("-NoProfile"@),
        WordView::Text("-Command"@),
        WordView::Text("Start-Process -FilePath "@ + quoted(exe) + " -Verb RunAs"@),
    ]);
}

/// The log is opened on Windows where it is there, and only there; what fails is
/// named.
pub proof fn law_open_log(
    program_data: bool,
    display: Seq<char>,
    debug: Seq<char>,
    error: Seq<char>,
    stage: OpenLogStage,
    event: EventView,
)
    ensures
        ({
            let at = |stage: OpenLogStage, event: EventView|
                open_log_next(Platform::Windows, stage, program_data, event);
            let ends = |result: Result<(), Seq<char>>|
                TurnView::Finish::<OpenLogStage, ()> { result };
            &&& at(OpenLogStage::Searched, EventView::Found) matches TurnView::Ask {
                action: ActionView::Run { command, mode },
                stage,
            } && stage is Opened && mode is Spawn && command.program == WordView::Text("notepad"@)
                && command.args == seq![WordView::Native(setup_log(program_data))]
                && command.env.len() == 0
            &&& at(OpenLogStage::Begin, EventView::Begin) == (TurnView::Ask::<OpenLogStage, ()> {
                action: ActionView::Probe { place: setup_log(program_data) },
                stage: OpenLogStage::Searched,
            })
            &&& at(OpenLogStage::Searched, EventView::Missing { display, debug }) == ends(
                Err(display + " no existe (todavia)."@),
            )
            &&& at(OpenLogStage::Opened, EventView::Done) == ends(Ok(()))
            &&& at(OpenLogStage::Opened, EventView::Failed { error }) == ends(
                Err("notepad: "@ + error),
            )
        }),
        open_log_next(Platform::Other, stage, program_data, event) == (TurnView::Finish::<
            OpenLogStage,
            (),
        > { result: Err("Solo Windows."@) }),
{
}

/// The admin is started where it is found, and only there; what fails is named.
pub proof fn law_launch_replies(
    exe: AdminExe,
    display: Seq<char>,
    debug: Seq<char>,
    error: Seq<char>,
)
    ensures
        launch_next(LaunchStage::Settled { exe }, EventView::Found) matches TurnView::Ask {
            action: ActionView::Run { command, mode },
            stage,
        } && stage is Started && mode is Spawn && command.program == WordView::Path(
            admin_place(exe),
        ) && command.args.len() == 0 && command.env.len() == 0,
        admin_place(exe) == (PlaceView {
            root: Root::ProgramFiles,
            tail: seq![
                "OctoPOS Admin"@,
                match exe {
                    AdminExe::Current => "octopos-admin.exe"@,
                    AdminExe::Legacy => "OctoPOS Admin.exe"@,
                },
            ],
        }),
        launch_next(LaunchStage::Settled { exe }, EventView::Missing { display, debug }) == (
        TurnView::Finish::<LaunchStage, ()> {
            result: Err(
                "El admin no se encontro en "@ + display
                    + ". La instalacion del .msi quizas fallo en silencio."@,
            ),
        }),
        launch_next(LaunchStage::Started, EventView::Done) == (TurnView::Finish::<LaunchStage, ()> {
            result: Ok(()),
        }),
        launch_next(LaunchStage::Started, EventView::Failed { error }) == (TurnView::Finish::<
            LaunchStage,
            (),
        > { result: Err("no pude lanzar el admin: "@ + error) }),
{
}

/// The admin is looked for under its current name, then, where it is not there,
/// under the old one. What is settled on, and looked for once more, is the first
/// that was there, or the current one where none was.
pub proof fn law_admin_is_looked_for(event: EventView)
    requires
        event.answers(Awaited::Presence),
    ensures
        ({
            let probe = |exe: AdminExe, stage: LaunchStage|
                TurnView::Ask::<LaunchStage, ()> {
                    action: ActionView::Probe { place: admin_place(exe) },
                    stage,
                };
            let settled = |exe: AdminExe| probe(exe, LaunchStage::Settled { exe });
            &&& launch_next(LaunchStage::Begin, event) == probe(
                AdminExe::Current,
                LaunchStage::Current,
            )
            &&& launch_next(LaunchStage::Current, event) == if event is Found {
                settled(AdminExe::Current)
            } else {
                probe(AdminExe::Legacy, LaunchStage::Legacy)
            }
            &&& launch_next(LaunchStage::Legacy, event) == if event is Found {
                settled(AdminExe::Legacy)
            } else {
                settled(AdminExe::Current)
            }
        }),
{
}

/// The old name is used where the admin is there under that name alone, and only
/// there.
pub proof fn law_old_name_of_admin(current: bool, legacy: bool)
    ensures
        admin_exe(current, legacy) is Legacy <==> !current && legacy,
{
}

/// A PowerShell command has the script, as it is, for its last word.
pub proof fn law_powershell(script: Seq<char>)
    ensures
        powershell(script) == (CommandView {
            program: WordView::Text("powershell"@),
            args: seq![
                WordView::Text("-NoProfile"@),
                WordView::Text("-Command"@),
                WordView::Text(script),
            ],
            env: Seq::empty(),
        }),
{
    assert(powershell(script).args =~= seq![
        WordView::Text("-NoProfile"@),
        WordView::Text("-Command"@),
        WordView::Text(script),
    ]);
}

} // verus!
